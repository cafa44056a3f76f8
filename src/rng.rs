//! The draws that the trace generator makes from a seeded random source.

use rand::rngs::StdRng;
use rand::Rng;
use vstd::prelude::*;

verus! {

#[verifier::external_type_specification]
#[verifier::external_body]
pub struct ExStdRng(StdRng);

/// Relies on rand's `Rng::gen_ratio`: a flag that is true with probability
/// `numerator / denominator`; always false for a zero numerator and always
/// true when the numerator equals the denominator. It panics on a zero
/// denominator or a numerator above it.
#[verifier::external_body]
pub(crate) fn draw_flag(rng: &mut StdRng, numerator: u32, denominator: u32) -> (r: bool)
    requires
        0 < denominator,
        numerator <= denominator,
    ensures
        numerator == 0 ==> !r,
        numerator == denominator ==> r,
{
    rng.gen_ratio(numerator, denominator)
}

/// Relies on rand's `Rng::gen_range` over `low..high`: a value in that
/// half-open range. It panics on an empty range.
#[verifier::external_body]
pub(crate) fn draw_below(rng: &mut StdRng, low: u64, high: u64) -> (r: u64)
    requires
        low < high,
    ensures
        low <= r < high,
{
    rng.gen_range(low..high)
}

} // verus!
