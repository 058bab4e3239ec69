//! The one pair of constants first-order antiderivative antialiasing lives or
//! dies by, and the rule that ties them together.
//!
//! Near a turning point the antialiasing quotient divides a difference of
//! two nearly equal antiderivatives by a nearly zero step, so an error `r`
//! in `F₀` reaches the output amplified by roughly `2·r·|F₀|/|Δu|`. Steps
//! closer together than a threshold therefore take the midpoint instead,
//! and **the threshold and the antiderivative's precision are one decision,
//! not two**: the threshold must be at least the square root of the
//! antiderivative's relative error. Get the pairing wrong and the
//! antialiasing collapses silently — the transfer curve stays right, the
//! sound stays saturated, nothing crashes, and the alias floor drops by
//! forty decibels.
//!
//! Both constants are reciprocals of whole numbers, so they are kept here as
//! those whole numbers and the rule is proved exactly rather than in
//! floating point: the threshold is `1/MIN_STEP_INVERSE` and the claimed
//! relative error is `1/F0_RELATIVE_ERROR_INVERSE`.

use vstd::prelude::*;

verus! {

/// The ill-conditioning threshold is `1/100`: steps closer together than
/// this take the midpoint instead of the quotient.
pub const MIN_STEP_INVERSE: u64 = 100;

/// The relative error every antiderivative is claimed to carry is `1e−15`:
/// each is a closed form evaluated in double precision, so a few units in
/// the last place is the honest figure. Lower this if the antiderivative
/// ever becomes a table, and [`MIN_STEP_INVERSE`] has to fall with it.
pub const F0_RELATIVE_ERROR_INVERSE: u64 = 1_000_000_000_000_000;

/// The largest threshold this build allows is also `1/100`: a threshold
/// large against the signal degenerates to plain midpoint sampling, and a
/// fixed `0.01` is safe for any signal above about −40 dBFS.
pub const LARGEST_STEP_INVERSE: u64 = 100;

/// **The threshold and the antiderivative's precision are paired.** The
/// threshold squared is at least the antiderivative's relative error,
/// `(1/100)² ≥ 1e−15`, and the threshold is no larger than `1/100`.
pub proof fn lemma_threshold_clears_the_antiderivative_error()
    ensures
        (MIN_STEP_INVERSE as int) * (MIN_STEP_INVERSE as int) <= F0_RELATIVE_ERROR_INVERSE as int,
        MIN_STEP_INVERSE >= LARGEST_STEP_INVERSE,
{
}

} // verus!
