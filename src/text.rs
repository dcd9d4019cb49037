//! Joining strings for the messages that the screens show.
use vstd::prelude::*;
use vstd::string::StringExecFns;

verus! {

/// The two strings one after the other.
pub(crate) fn concat(a: &str, b: &str) -> (r: String)
    ensures
        r@ == a@ + b@,
{
    let mut r = <String as StringExecFns>::from_str(a);
    r.append(b);
    r
}

} // verus!
