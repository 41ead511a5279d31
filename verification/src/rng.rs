//! The one point where the simulation draws randomness: spawn positions,
//! spawn-timer resets, the wander-behaviour dice and the hit-sound pick.

use vstd::prelude::*;

verus! {

/// Relies on macroquad::rand::gen_range (quad-rand's `RandomRange` for
/// `i32`): it computes `low + (high - low) * u` in f64 with `u` drawn
/// in `[0, 1)` and casts the rounded sum to `i32`. The rounding can
/// reach `high` itself when `high` nears `i32::MAX`, so the bounds are
/// promised only for small magnitudes: with `high <= 1_000_000` (well
/// under 2^20) the sum stays strictly below `high` — the product is at
/// most `(high - low) * (1 - 2^-32)` and an ulp at that magnitude is
/// far smaller than the `(high - low) * 2^-32` gap — so the cast lands
/// in `[low, high)`.
#[verifier::external_body]
pub(crate) fn gen_range_i32(low: i32, high: i32) -> (r: i32)
    requires
        0 <= low < high <= 1_000_000,
    ensures
        low <= r < high,
{
    macroquad::rand::gen_range(low, high)
}

} // verus!
