//! The system's secure random source.

use vstd::prelude::*;

verus! {

/// Calls `getrandom::getrandom` on the bytes of `dest` and hands back its
/// outcome, a failure as the numeric code of `getrandom`'s error. The call
/// keeps the length; which bytes it writes is left open, and on `Err` so is
/// whether it wrote any.
#[verifier::external_body]
pub(crate) fn fill_random(dest: &mut Vec<u8>) -> (outcome: Result<(), u32>)
    ensures
        final(dest)@.len() == old(dest)@.len(),
{
    getrandom::getrandom(dest.as_mut_slice()).map_err(|e| e.code().get())
}

} // verus!
