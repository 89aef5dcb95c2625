//! Small string utilities shared by the other modules.
use vstd::prelude::*;
use vstd::string::StringExecFns;

verus! {

/// A fresh string holding `head` followed by `tail`.
pub fn joined(head: &str, tail: &str) -> (r: String)
    ensures
        r@ == head@ + tail@,
{
    let mut r = head.to_owned();
    r.append(tail);
    r
}

} // verus!
