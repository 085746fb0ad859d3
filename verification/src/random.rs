//! The random source. Randomness comes from the `rand` crate; nothing is
//! proved of it, and what is assumed of it is stated here.

use vstd::prelude::*;

verus! {

/// `rand::rngs::StdRng`, the random source that the simulation draws from.
/// The verifier sees nothing inside it.
#[verifier::external_type_specification]
#[verifier::external_body]
pub struct ExStdRng(rand::rngs::StdRng);

/// Draws a number from `low..=high`.
///
/// Calls `rand::Rng::gen_range` with the inclusive range. Assumed of it, and
/// not proved: the number it hands back lies in the range. The range must
/// not be empty, since `gen_range` panics on an empty one. Which number
/// comes back is left open: two draws from one range may differ.
#[verifier::external_body]
pub(crate) fn draw(rng: &mut rand::rngs::StdRng, low: u64, high: u64) -> (n: u64)
    requires
        low <= high,
    ensures
        low <= n <= high,
{
    rand::Rng::gen_range(rng, low..=high)
}

} // verus!
