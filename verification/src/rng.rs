//! The random source.
//!
//! Nothing is promised of a draw beyond the interval it lies in, so every
//! function that draws also exists in a form that takes the draw as an
//! argument.

use rand::seq::SliceRandom;
use rand::Rng;
use vstd::prelude::*;

verus! {

/// Draws from the half-open interval `[lo, hi)` with `rand`'s thread-local
/// generator (`Rng::gen_range`).
///
/// Trusted: the result lies in the interval. `gen_range` panics on an empty
/// interval, which `requires` leaves out.
#[verifier::external_body]
pub(crate) fn gen_range(lo: i64, hi: i64) -> (drawn: i64)
    requires
        lo < hi,
    ensures
        lo <= drawn < hi,
{
    rand::thread_rng().gen_range(lo..hi)
}

/// Draws `true` with probability `numerator / denominator` with `rand`'s
/// thread-local generator (`Rng::gen_ratio`).
///
/// Trusted: `gen_ratio` returns for every ratio that is at most one; nothing
/// is claimed of the outcome.
#[verifier::external_body]
pub(crate) fn gen_ratio(numerator: u32, denominator: u32) -> (drawn: bool)
    requires
        0 < denominator,
        numerator <= denominator,
{
    rand::thread_rng().gen_ratio(numerator, denominator)
}

/// Picks one of `options` with `rand`'s thread-local generator
/// (`SliceRandom::choose`).
///
/// Trusted: the result is one of the options, and there is none only where
/// there are no options.
#[verifier::external_body]
pub(crate) fn pick(options: &[i64]) -> (chosen: Option<i64>)
    ensures
        options@.len() == 0 ==> chosen is None,
        options@.len() > 0 ==> chosen is Some && options@.contains(chosen->0),
{
    options.choose(&mut rand::thread_rng()).copied()
}

} // verus!
