//! Best-effort conversion that lets R coerce a value to a primitive vector
//! type before converting it.
//!
//! A conversion is tried on the value as it is, then on R's coercion of it
//! to each of the primitive targets in turn; the first that succeeds wins.
//! The value keeps the R object it was taken from (its backing), so that
//! borrowed outputs stay alive.
use vstd::prelude::*;
use crate::error::Error;
use crate::rtype::{Rtype, INTSXP, LGLSXP, RAWSXP, REALSXP};
use crate::text::{join_str, joined};

verus! {

/// A converted value with the R object that backs it.
pub struct Coerce<T, B> {
    value: T,
    backing: B,
}

impl<T, B> Coerce<T, B> {
    /// The converted value.
    pub closed spec fn spec_value(&self) -> T {
        self.value
    }

    /// The R object the value was converted from.
    pub closed spec fn spec_backing(&self) -> B {
        self.backing
    }

    /// Pair a converted value with the object it was converted from.
    pub fn new(value: T, backing: B) -> (r: Self)
        ensures
            r.spec_value() == value,
            r.spec_backing() == backing,
    {
        Coerce { value, backing }
    }

    /// Extract the converted value.
    pub fn into_inner(self) -> (r: T)
        ensures
            r == self.spec_value(),
    {
        self.value
    }

    /// Split into the converted value and its backing object.
    pub fn into_parts(self) -> (r: (T, B))
        ensures
            r.0 == self.spec_value(),
            r.1 == self.spec_backing(),
    {
        (self.value, self.backing)
    }

    /// The converted value.
    pub fn value(&self) -> (r: &T)
        ensures
            *r == self.spec_value(),
    {
        &self.value
    }

    /// The object the value was converted from.
    pub fn backing(&self) -> (r: &B)
        ensures
            *r == self.spec_backing(),
    {
        &self.backing
    }
}

impl<T, B> std::ops::Deref for Coerce<T, B> {
    type Target = T;

    /// The converted value.
    fn deref(&self) -> (r: &T)
        ensures
            *r == self.spec_value(),
    {
        &self.value
    }
}

/// The types R is asked to coerce to, in order, with their labels.
pub fn primitive_targets() -> (r: [(u32, &'static str); 4])
    ensures
        r[0].0 == LGLSXP && r[0].1@ == "logical"@,
        r[1].0 == INTSXP && r[1].1@ == "integer"@,
        r[2].0 == REALSXP && r[2].1@ == "double"@,
        r[3].0 == RAWSXP && r[3].1@ == "raw"@,
{
    [(LGLSXP, "logical"), (INTSXP, "integer"), (REALSXP, "double"), (RAWSXP, "raw")]
}

/// The record of a failed attempt: the attempt's label, then the error.
pub fn attempt_text(label: &str, error: &str) -> (r: String)
    ensures
        r@ == label@ + ": "@ + error@,
{
    let mut r = String::from_str(label);
    r.append(": ");
    r.append(error);
    r
}

/// The message when every attempt failed.
pub open spec fn failure_text(rtype: Rtype, attempts: Seq<Seq<char>>) -> Seq<char> {
    "Could not coerce "@ + crate::rtype::rtype_text(rtype) + " into target type; attempts failed: "@
        + joined(attempts, ", "@)
}

/// The error when every attempt failed, listing the failed attempts.
pub fn coercion_failure(rtype: Rtype, attempts: &Vec<String>) -> (e: Error)
    ensures
        e matches Error::Other(m) && m@ == failure_text(
            rtype,
            Seq::new(attempts@.len(), |i: int| attempts@[i]@),
        ),
{
    let mut m = String::from_str("Could not coerce ");
    m.append(rtype.name());
    m.append(" into target type; attempts failed: ");
    let list = join_str(attempts, ", ");
    m.append(list.as_str());
    Error::Other(m)
}

/// The code of the `k`th primitive target.
pub open spec fn target_code(k: int) -> u32 {
    if k == 0 {
        LGLSXP
    } else if k == 1 {
        INTSXP
    } else if k == 2 {
        REALSXP
    } else {
        RAWSXP
    }
}

/// The label of the `k`th primitive target.
pub open spec fn target_label(k: int) -> Seq<char> {
    if k == 0 {
        "logical"@
    } else if k == 1 {
        "integer"@
    } else if k == 2 {
        "double"@
    } else {
        "raw"@
    }
}

/// The label of attempt `n`: `original` for the value as it is, then the
/// labels of the targets in order.
pub open spec fn attempt_label(n: int) -> Seq<char> {
    if n == 0 {
        "original"@
    } else {
        target_label(n - 1)
    }
}

/// What a coercion does after an attempt.
#[derive(Debug)]
pub enum CoerceStep {
    /// The attempt succeeded: its value is the result.
    Done,
    /// Ask R to coerce the value to the type with this code, and try the
    /// conversion on what it gives.
    Coerce(u32),
    /// Every attempt failed, with this error.
    Fail(Error),
}

/// The views of some strings.
pub open spec fn string_views(v: Seq<String>) -> Seq<Seq<char>> {
    Seq::new(v.len(), |i: int| v[i]@)
}

/// Decide what follows an attempt of a coercion of an R value of type
/// `rtype`, given the records of the attempts that failed before it
/// (`attempts`) and the attempt's outcome (`last`). Attempts go: the value
/// as it is, then R's coercion to each primitive target in order; the
/// first success wins. A failure is recorded (its label, then its error);
/// after the last target fails, the error lists every record.
pub fn coerce_step(rtype: Rtype, attempts: &mut Vec<String>, last: Result<(), String>) -> (r:
    CoerceStep)
    requires
        old(attempts)@.len() <= 4,
    ensures
        last is Ok ==> r is Done && final(attempts)@ == old(attempts)@,
        last matches Err(e) ==> {
            let n = old(attempts)@.len() as int;
            &&& final(attempts)@.len() == n + 1
            &&& final(attempts)@.take(n) == old(attempts)@
            &&& final(attempts)@[n]@ == attempt_label(n) + ": "@ + e@
            &&& n < 4 ==> r == CoerceStep::Coerce(target_code(n))
            &&& n == 4 ==> (r matches CoerceStep::Fail(Error::Other(m)) && m@ == failure_text(
                rtype,
                string_views(final(attempts)@),
            ))
        },
{
    match last {
        Ok(()) => CoerceStep::Done,
        Err(e) => {
            let n: usize = attempts.len();
            let targets = primitive_targets();
            let label: &str = if n == 0 {
                "original"
            } else {
                targets[n - 1].1
            };
            let record = attempt_text(label, e.as_str());
            attempts.push(record);
            if n < 4 {
                CoerceStep::Coerce(targets[n].0)
            } else {
                let err = coercion_failure(rtype, attempts);
                assert(string_views(attempts@) =~= Seq::new(
                    attempts@.len(),
                    |i: int| attempts@[i]@,
                ));
                CoerceStep::Fail(err)
            }
        },
    }
}

} // verus!
