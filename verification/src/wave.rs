//! A fixed-point sine wave for the vertical-bob wander behaviour. The
//! phase is measured in centiradians, so one full wave is 628 phase
//! steps; the amplitude is 240 subunits (15 pixels). The half-wave is a
//! rational approximation of the sine arch (16x(p-x) / (5p^2 - 4x(p-x))
//! with p = 314), exact in integer arithmetic.

use vstd::prelude::*;

verus! {

/// Phase steps in one full wave (two pi in centiradians).
pub const WAVE_PERIOD: i32 = 628;

/// Phase steps in half a wave (pi in centiradians).
pub const WAVE_HALF: i32 = 314;

/// Peak vertical offset of the bob, in subunits (15 pixels).
pub const BOB_AMPLITUDE: i32 = 240;

/// The rising arch of the wave, scaled to the bob amplitude, for a
/// phase `x` in `[0, 314)`.
pub open spec fn wave_half_spec(x: int) -> int {
    (240 * (16 * (x * (314 - x)))) / (492_980 - 4 * (x * (314 - x)))
}

/// The full wave: the arch, then its mirror image below the axis.
pub open spec fn wave_spec(dt: int) -> int {
    if dt < 314 {
        wave_half_spec(dt)
    } else {
        -wave_half_spec(dt - 314)
    }
}

fn wave_half(x: i32) -> (r: i32)
    requires
        0 <= x < 314,
    ensures
        r == wave_half_spec(x as int),
        0 <= r <= BOB_AMPLITUDE,
{
    proof {
        let xi = x as int;
        assert(0 <= xi * (314 - xi) <= 24_649) by (nonlinear_arith)
            requires
                0 <= xi < 314,
        ;
    }
    let p: u64 = (x as u64) * ((314 - x) as u64);
    let num: u64 = 3_840 * p;
    let den: u64 = 492_980 - 4 * p;
    let r: u64 = num / den;
    proof {
        let pi = p as int;
        let ni = num as int;
        let di = den as int;
        assert(ni == 240 * (16 * pi));
        assert(ni <= 240 * di) by (nonlinear_arith)
            requires
                ni == 3_840 * pi,
                di == 492_980 - 4 * pi,
                0 <= pi <= 24_649,
        ;
        assert(ni / di <= (240 * di) / di) by (nonlinear_arith)
            requires
                1 <= di,
                ni <= 240 * di,
                0 <= ni,
        ;
        assert((240 * di) / di == 240) by (nonlinear_arith)
            requires
                1 <= di,
        ;
    }
    r as i32
}

/// The wave offset at phase `dt`, in subunits.
pub fn wave(dt: i32) -> (r: i32)
    requires
        0 <= dt < WAVE_PERIOD,
    ensures
        r == wave_spec(dt as int),
        crate::geom::abs_spec(r as int) <= BOB_AMPLITUDE,
{
    if dt < WAVE_HALF {
        wave_half(dt)
    } else {
        -wave_half(dt - WAVE_HALF)
    }
}

} // verus!
