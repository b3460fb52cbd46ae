//! The source of secrets.

use rand::Rng;
use vstd::prelude::*;

verus! {

/// Draws a number between `low` and `high`, both included, from the
/// generator that `rand` keeps for the running thread.
///
/// This is `rand::Rng::gen_range` on the closed range `low..=high`, called on
/// `rand::thread_rng()`. It is trusted, not verified. The contract claims
/// that the number drawn lies in the range that was asked for: the sampling
/// code of `rand` adds to `low` an offset smaller than the size of the
/// range. An empty range makes `gen_range` panic, so the contract rules it
/// out. Nothing is claimed about which number comes out, and two draws may
/// differ. If the operating system cannot seed the generator, `thread_rng`
/// panics; the process cannot go on then.
#[verifier::external_body]
pub(crate) fn random_in_range(low: u32, high: u32) -> (n: u32)
    requires
        low <= high,
    ensures
        low <= n <= high,
{
    rand::thread_rng().gen_range(low..=high)
}

} // verus!
