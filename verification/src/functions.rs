//! Looking up R functions by name, where a name may name the namespace the
//! function lives in (`base::ls`).
use vstd::prelude::*;
use crate::text::{contains_seq, find_str, occurs_at};

verus! {

/// Where a function named by a string is looked up.
#[derive(Debug, Clone)]
pub enum FunctionPath {
    /// By its name alone, from the global environment.
    Global(String),
    /// In the namespace named first, under the name given second.
    Namespaced(String, String),
}

/// The namespace separator.
pub open spec fn separator() -> Seq<char> {
    seq![':', ':']
}

/// What splitting `name` at each `::` (from the left, without overlaps)
/// gives, when it gives one piece or two; `None` for three or more.
pub open spec fn function_path_of(name: Seq<char>) -> Option<(Seq<char>, Option<Seq<char>>)> {
    if !contains_seq(name, separator()) {
        Some((name, None))
    } else {
        let p = choose|p: int|
            occurs_at(name, separator(), p) && forall|j: int|
                0 <= j < p ==> !occurs_at(name, separator(), j);
        let rest = name.subrange(p + 2, name.len() as int);
        if contains_seq(rest, separator()) {
            None
        } else {
            Some((name.subrange(0, p), Some(rest)))
        }
    }
}

/// The function path that `name` denotes: the name itself where it holds
/// no `::`, the namespace and name on either side of a single `::`, and
/// `None` where splitting at `::` gives more than two pieces (the lookup
/// then finds nothing).
pub fn find_namespaced_function(name: &str) -> (r: Option<FunctionPath>)
    ensures
        match (r, function_path_of(name@)) {
            (Some(FunctionPath::Global(f)), Some((g, None))) => f@ == g,
            (Some(FunctionPath::Namespaced(ns, f)), Some((n, Some(g)))) => ns@ == n && f@ == g,
            (None, None) => true,
            _ => false,
        },
{
    let sep = "::";
    proof {
        reveal_strlit("::");
    }
    assert(sep@ == separator());
    match find_str(name, sep) {
        None => Some(FunctionPath::Global(String::from_str(name))),
        Some(p) => {
            let len: usize = name.unicode_len();
            let rest = name.substring_char(p + 2, len);
            proof {
                let q = choose|q: int|
                    occurs_at(name@, separator(), q) && forall|j: int|
                        0 <= j < q ==> !occurs_at(name@, separator(), j);
                assert(q == p as int) by {
                    if q < p {
                    } else if q > p {
                    }
                }
            }
            match find_str(rest, sep) {
                Some(_) => None,
                None => {
                    let ns = name.substring_char(0, p);
                    Some(FunctionPath::Namespaced(String::from_str(ns), String::from_str(rest)))
                },
            }
        },
    }
}

} // verus!
