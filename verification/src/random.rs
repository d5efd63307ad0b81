//! Random draws, taken from the `rand` crate's per-thread generator.
//!
//! A draw can be any value of its range, so the contracts here state the
//! range and no more. The generator seeds itself from the operating system
//! on a thread's first draw and stops the program if that fails.

use vstd::prelude::*;
use rand::Rng;

verus! {

/// `Rng::gen_range` over the half-open range `low..high`: some value that is
/// at least `low` and less than `high`. An empty range is not accepted.
#[verifier::external_body]
pub(crate) fn random_in(low: i64, high: i64) -> (r: i64)
    requires
        low < high,
    ensures
        low <= r < high,
{
    rand::thread_rng().gen_range(low..high)
}

/// `Rng::gen_ratio`: true with a chance of `numerator` in `denominator`. The
/// answer is fixed only at the two ends, where the chance is none or all.
#[verifier::external_body]
pub(crate) fn random_ratio(numerator: u32, denominator: u32) -> (r: bool)
    requires
        0 < denominator,
        numerator <= denominator,
    ensures
        numerator == 0 ==> !r,
        numerator == denominator ==> r,
{
    rand::thread_rng().gen_ratio(numerator, denominator)
}

/// `Rng::gen` for a byte: any of the 256 values.
#[verifier::external_body]
pub(crate) fn random_byte() -> (r: u8) {
    rand::thread_rng().gen()
}

} // verus!
