//! rlang-style condition messages.
pub use crate::conditions::{format_cnd_message, format_warn_message};
use vstd::prelude::*;

verus! {

/// The label of a call, for the prefix of an error message: the name of the
/// function that the caller's `sys.call()` calls, in backticks and with
/// parentheses. `None` where R gave no such name (no call, or a call whose
/// head does not deparse to one string).
pub fn call_label(name: Option<&str>) -> (r: Option<String>)
    ensures
        match name {
            Some(n) => r matches Some(l) && l@ == "`"@ + n@ + "()`"@,
            None => r is None,
        },
{
    match name {
        Some(n) => {
            let mut l = String::from_str("`");
            l.append(n);
            l.append("()`");
            Some(l)
        },
        None => None,
    }
}

} // verus!
