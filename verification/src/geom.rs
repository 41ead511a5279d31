//! Axis-aligned geometry and the small pieces of integer arithmetic the
//! physics step needs: rectangle overlap, clamping, sign/magnitude scaling
//! and an integer square root for normalising knockback directions.

use vstd::prelude::*;

verus! {

/// A 2D point or velocity in subunits.
#[derive(Copy, Clone, Debug, PartialEq, Eq, Structural)]
pub struct Vec2 {
    pub x: i32,
    pub y: i32,
}

/// An axis-aligned rectangle: offset plus size, in subunits.
#[derive(Copy, Clone, Debug, PartialEq, Eq, Structural)]
pub struct Rect {
    pub x: i32,
    pub y: i32,
    pub w: i32,
    pub h: i32,
}

/// Inclusive axis-aligned overlap: rectangles that merely touch count as
/// overlapping on both axes.
pub open spec fn rects_overlap(a: Rect, b: Rect) -> bool {
    a.x <= b.x + b.w && b.x <= a.x + a.w && a.y <= b.y + b.h && b.y <= a.y + a.h
}

impl Rect {
    /// Inclusive rectangle intersection test.
    pub fn overlaps(&self, other: &Rect) -> (r: bool)
        ensures
            r == rects_overlap(*self, *other),
    {
        (self.x as i64) <= (other.x as i64) + (other.w as i64)
            && (other.x as i64) <= (self.x as i64) + (self.w as i64)
            && (self.y as i64) <= (other.y as i64) + (other.h as i64)
            && (other.y as i64) <= (self.y as i64) + (self.h as i64)
    }
}

/// An actor's collision box placed in the world: the local offset+size
/// box shifted by the actor position and a displacement `(dx, dy)`.
pub open spec fn world_box_spec(pos: Vec2, cbox: Rect, dx: int, dy: int) -> Rect {
    Rect {
        x: (pos.x + cbox.x + dx) as i32,
        y: (pos.y + cbox.y + dy) as i32,
        w: cbox.w,
        h: cbox.h,
    }
}

pub open spec fn clamp_spec(v: int, lo: int, hi: int) -> int {
    if v < lo {
        lo
    } else if v > hi {
        hi
    } else {
        v
    }
}

/// Clamps `v` into `[lo, hi]`.
pub fn clamp_i32(v: i32, lo: i32, hi: i32) -> (r: i32)
    requires
        lo <= hi,
    ensures
        r == clamp_spec(v as int, lo as int, hi as int),
{
    if v < lo {
        lo
    } else if v > hi {
        hi
    } else {
        v
    }
}

pub open spec fn abs_spec(v: int) -> int {
    if v < 0 {
        -v
    } else {
        v
    }
}

pub open spec fn sign_spec(v: int) -> int {
    if v < 0 {
        -1int
    } else if v > 0 {
        1int
    } else {
        0int
    }
}

/// `v` scaled by `num / den`, rounding the magnitude down and keeping the
/// sign, as a float multiplication by a factor below one would.
pub open spec fn scale_frac_spec(v: int, num: int, den: int) -> int {
    sign_spec(v) * ((abs_spec(v) * num) / den)
}

/// Multiplies `v` by the fraction `num / den`, truncating toward zero.
pub fn scale_frac(v: i32, num: i32, den: i32) -> (r: i32)
    requires
        1 <= num,
        num <= den,
        den <= 1_000,
    ensures
        r == scale_frac_spec(v as int, num as int, den as int),
        abs_spec(r as int) <= abs_spec(v as int),
{
    let mag: u64 = if v < 0 {
        (-(v as i64)) as u64
    } else {
        v as u64
    };
    assert(mag <= 0x8000_0000);
    assert(mag * (num as u64) <= 0x8000_0000u64 * 1_000u64) by (nonlinear_arith)
        requires
            mag <= 0x8000_0000u64,
            0 <= num <= 1_000,
    ;
    let scaled: u64 = (mag * (num as u64)) / (den as u64);
    proof {
        let m = mag as int;
        let n = num as int;
        let d = den as int;
        assert(m * n <= m * d) by (nonlinear_arith)
            requires
                n <= d,
                0 <= m,
                0 <= n,
        ;
        assert((m * d) / d == m) by (nonlinear_arith)
            requires
                1 <= d,
                0 <= m,
        ;
        assert((m * n) / d <= (m * d) / d) by (nonlinear_arith)
            requires
                1 <= d,
                m * n <= m * d,
        ;
    }
    assert(scaled <= mag);
    if v < 0 {
        (-(scaled as i64)) as i32
    } else {
        scaled as i32
    }
}

/// Largest `r` with `r * r <= n`.
pub open spec fn sqrt_floor(n: nat) -> nat
    decreases n,
{
    if n == 0 {
        0
    } else {
        let r = sqrt_floor((n - 1) as nat);
        if (r + 1) * (r + 1) <= n {
            r + 1
        } else {
            r
        }
    }
}

pub proof fn lemma_sqrt_floor_bounds(n: nat)
    ensures
        sqrt_floor(n) * sqrt_floor(n) <= n,
        n < (sqrt_floor(n) + 1) * (sqrt_floor(n) + 1),
    decreases n,
{
    let s = sqrt_floor(n);
    if n == 0 {
        assert(s == 0);
        assert(s * s <= n && n < (s + 1) * (s + 1)) by (nonlinear_arith)
            requires
                s == 0,
                n == 0,
        ;
    } else {
        lemma_sqrt_floor_bounds((n - 1) as nat);
        let r = sqrt_floor((n - 1) as nat);
        assert(r * r <= n - 1 && n - 1 < (r + 1) * (r + 1));
        if (r + 1) * (r + 1) <= n {
            assert(s == r + 1);
            assert(s * s <= n && n < (s + 1) * (s + 1)) by (nonlinear_arith)
                requires
                    s == r + 1,
                    0 <= r,
                    (r + 1) * (r + 1) <= n,
                    n - 1 < (r + 1) * (r + 1),
            ;
        } else {
            assert(s == r);
            assert(s * s <= n && n < (s + 1) * (s + 1)) by (nonlinear_arith)
                requires
                    s == r,
                    0 <= r,
                    1 <= n,
                    r * r <= n - 1,
                    !((r + 1) * (r + 1) <= n),
            ;
        }
    }
}

pub proof fn lemma_sqrt_floor_unique(n: nat, r: nat)
    requires
        r * r <= n,
        n < (r + 1) * (r + 1),
    ensures
        r == sqrt_floor(n),
{
    lemma_sqrt_floor_bounds(n);
    let s = sqrt_floor(n);
    if r < s {
        assert((r + 1) * (r + 1) <= s * s) by (nonlinear_arith)
            requires
                0 <= r,
                r + 1 <= s,
        ;
    } else if s < r {
        assert((s + 1) * (s + 1) <= r * r) by (nonlinear_arith)
            requires
                0 <= s,
                s + 1 <= r,
        ;
    }
}

/// Binary-search integer square root.
pub fn isqrt_u64(n: u64) -> (r: u64)
    ensures
        r == sqrt_floor(n as nat),
{
    let mut lo: u64 = 0;
    let mut hi: u64 = 4_294_967_296;
    assert((n as int) < 4_294_967_296int * 4_294_967_296int);
    while lo + 1 < hi
        invariant
            lo < hi,
            hi <= 4_294_967_296,
            (lo as int) * (lo as int) <= n as int,
            (n as int) < (hi as int) * (hi as int),
        decreases hi - lo,
    {
        let mid = lo + (hi - lo) / 2;
        assert(mid < 4_294_967_296);
        assert(mid * mid <= 0xFFFF_FFFFu64 * 0xFFFF_FFFFu64) by (nonlinear_arith)
            requires
                mid <= 0xFFFF_FFFFu64,
        ;
        if mid * mid <= n {
            lo = mid;
        } else {
            hi = mid;
        }
    }
    proof {
        lemma_sqrt_floor_unique(n as nat, lo as nat);
    }
    lo
}

/// One velocity component of a fixed-magnitude push away from an offset
/// `d`, where `len` is the length of the whole offset vector: the
/// component magnitude is scaled by `|d| / len` and the sign reversed.
pub open spec fn knock_component_spec(d: int, len: int) -> int {
    let m = (crate::KNOCKBACK_SPEED * abs_spec(d)) / len;
    if d > 0 {
        -m
    } else if d < 0 {
        m
    } else {
        0
    }
}

/// Velocity after a body bump: a push of fixed magnitude directed away
/// from an offset `(dx, dy)`, or the old velocity `v` when the offset is
/// zero and no direction exists.
pub open spec fn knockback_spec(dx: int, dy: int, v: Vec2) -> Vec2 {
    let len = sqrt_floor((dx * dx + dy * dy) as nat) as int;
    if len == 0 {
        v
    } else {
        Vec2 { x: knock_component_spec(dx, len) as i32, y: knock_component_spec(dy, len) as i32 }
    }
}

proof fn lemma_component_le_len(d: int, dd: int, len: nat)
    requires
        d * d <= dd,
        len == sqrt_floor(dd as nat),
        0 <= dd,
    ensures
        abs_spec(d) <= len,
{
    lemma_sqrt_floor_bounds(dd as nat);
    let a = abs_spec(d);
    assert(a * a == d * d) by (nonlinear_arith)
        requires
            a == d || a == -d,
    ;
    if a > len {
        assert((len + 1) * (len + 1) <= a * a) by (nonlinear_arith)
            requires
                0 <= len,
                len + 1 <= a,
        ;
    }
}

fn knock_component(d: i32, len: u64) -> (r: i32)
    requires
        1 <= len,
        abs_spec(d as int) <= len,
    ensures
        r == knock_component_spec(d as int, len as int),
        abs_spec(r as int) <= crate::KNOCKBACK_SPEED,
{
    let mag: u64 = if d < 0 {
        (-(d as i64)) as u64
    } else {
        d as u64
    };
    let scaled: u64 = (128u64 * mag) / len;
    proof {
        let m = mag as int;
        let l = len as int;
        assert(128 * m <= 128 * l) by (nonlinear_arith)
            requires
                m <= l,
        ;
        assert((128 * l) / l == 128) by (nonlinear_arith)
            requires
                1 <= l,
        ;
        assert((128 * m) / l <= (128 * l) / l) by (nonlinear_arith)
            requires
                1 <= l,
                128 * m <= 128 * l,
        ;
        assert(crate::KNOCKBACK_SPEED == 128);
        assert(mag == abs_spec(d as int));
        assert(scaled == (128 * abs_spec(d as int)) / (len as int));
        assert(scaled <= 128);
    }
    if d < 0 {
        scaled as i32
    } else if d > 0 {
        -(scaled as i32)
    } else {
        0
    }
}

/// The fixed-magnitude bump applied to the player when a hostile body
/// overlaps it: pushed away from the enemy at `(dx, dy)` relative offset.
pub fn knockback(dx: i32, dy: i32, v: Vec2) -> (r: Vec2)
    ensures
        r == knockback_spec(dx as int, dy as int, v),
        r == v || (abs_spec(r.x as int) <= crate::KNOCKBACK_SPEED && abs_spec(r.y as int)
            <= crate::KNOCKBACK_SPEED),
{
    let dx64 = dx as i64;
    let dy64 = dy as i64;
    proof {
        assert(dx64 * dx64 <= 0x8000_0000i64 * 0x8000_0000i64 && 0 <= dx64 * dx64)
            by (nonlinear_arith)
            requires
                -0x8000_0000i64 <= dx64 <= 0x8000_0000i64,
        ;
        assert(dy64 * dy64 <= 0x8000_0000i64 * 0x8000_0000i64 && 0 <= dy64 * dy64)
            by (nonlinear_arith)
            requires
                -0x8000_0000i64 <= dy64 <= 0x8000_0000i64,
        ;
    }
    let dd: u64 = ((dx64 * dx64) as u64) + ((dy64 * dy64) as u64);
    let len = isqrt_u64(dd);
    if len == 0 {
        v
    } else {
        proof {
            lemma_component_le_len(dx as int, dd as int, len as nat);
            lemma_component_le_len(dy as int, dd as int, len as nat);
        }
        Vec2 { x: knock_component(dx, len), y: knock_component(dy, len) }
    }
}

} // verus!
