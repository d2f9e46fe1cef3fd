//! The single source of randomness for enemy selection and battle dice.
//! Every draw goes through one trusted wrapper; all decision logic that
//! consumes a draw is verified for every value the wrapper may return.

use vstd::prelude::*;

verus! {

/// Relies on rand's `Rng::gen_range` over the process-local generator
/// returned by `rand::thread_rng`: a draw from the half-open range
/// `0..bound` is uniform over it and always below `bound`; the call
/// panics only on an empty range, which the precondition rules out.
#[verifier::external_body]
pub fn random_below(bound: u32) -> (r: u32)
    requires
        bound > 0,
    ensures
        r < bound,
{
    rand::Rng::gen_range(&mut rand::thread_rng(), 0..bound)
}

} // verus!
