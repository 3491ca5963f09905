//! Integer trigonometry on tenth-of-a-degree angles.
//!
//! Sine and cosine are rational approximations returning milli-units in
//! `[-1000, 1000]`; they are the library's own fixed-point replacements for
//! transcendental functions, exact enough for steering and thrust.

use vstd::prelude::*;
use crate::fixed::Vec2;
use crate::{MILLI, ROT_BOUND, TURN_FULL, TURN_HALF, TURN_QUARTER};

verus! {

/// Sine over the first half turn (`a` in `[0, 1800]` tenth-degrees),
/// in milli-units: `16000·u / (16_200_000 − 4·u)` with `u = a·(1800 − a)`.
pub open spec fn sin_half_turn(a: int) -> int {
    (16000 * (a * (1800 - a))) / (16_200_000 - 4 * (a * (1800 - a)))
}

/// Sine of a normalized angle (`a` in `[0, 3600)`), in milli-units.
pub open spec fn sin_milli(a: int) -> int {
    if a <= 1800 {
        sin_half_turn(a)
    } else {
        -sin_half_turn(a - 1800)
    }
}

/// Cosine of a normalized angle (`a` in `[0, 3600)`), in milli-units.
pub open spec fn cos_milli(a: int) -> int {
    sin_milli((a + 900) % 3600)
}

/// A rotation reduced to `[0, 3600)` tenth-degrees.
pub open spec fn angle_norm(rot: int) -> int {
    rot % 3600
}

/// Unit direction vector of a rotation, scaled by `MILLI`.
pub open spec fn spec_dir(rot: int) -> Vec2 {
    Vec2 { x: cos_milli(angle_norm(rot)) as i64, y: sin_milli(angle_norm(rot)) as i64 }
}

/// Sine over `[0, 1800]` tenth-degrees, in milli-units.
pub fn sin_first_half(a: i64) -> (r: i64)
    requires
        0 <= a <= 1800,
    ensures
        r == sin_half_turn(a as int),
        0 <= r <= 1000,
{
    proof {
        assert(0 <= a * (1800 - a) <= 810_000) by (nonlinear_arith)
            requires
                0 <= a <= 1800,
        ;
    }
    let u: i64 = a * (1800 - a);
    let den: i64 = 16_200_000 - 4 * u;
    let q: i64 = (16000 * u) / den;
    proof {
        vstd::arithmetic::div_mod::lemma_fundamental_div_mod(16000 * u as int, den as int);
        vstd::arithmetic::div_mod::lemma_remainder_lower(16000 * u as int, den as int);
        vstd::arithmetic::div_mod::lemma_remainder_upper(16000 * u as int, den as int);
        assert(0 <= q <= 1000) by (nonlinear_arith)
            requires
                0 <= u <= 810_000,
                den == 16_200_000 - 4 * u,
                16000 * (u as int) == den * ((16000 * (u as int)) / (den as int)) + (16000 * (
                u as int)) % (den as int),
                0 <= (16000 * (u as int)) % (den as int) < den,
                q == (16000 * (u as int)) / (den as int),
                den > 0,
        ;
    }
    q
}

/// Sine of a normalized angle, in milli-units.
pub fn sin_fx(a: i64) -> (r: i64)
    requires
        0 <= a < TURN_FULL,
    ensures
        r == sin_milli(a as int),
        -1000 <= r <= 1000,
{
    if a <= TURN_HALF {
        sin_first_half(a)
    } else {
        -sin_first_half(a - TURN_HALF)
    }
}

/// Cosine of a normalized angle, in milli-units.
pub fn cos_fx(a: i64) -> (r: i64)
    requires
        0 <= a < TURN_FULL,
    ensures
        r == cos_milli(a as int),
        -1000 <= r <= 1000,
{
    let b: i64 = (a + TURN_QUARTER) % TURN_FULL;
    sin_fx(b)
}

/// Reduce an accumulated rotation to `[0, 3600)`.
pub fn normalize_angle(rot: i64) -> (r: i64)
    requires
        -ROT_BOUND <= rot <= ROT_BOUND,
    ensures
        r == angle_norm(rot as int),
        0 <= r < TURN_FULL,
{
    let shifted: i64 = rot + ROT_BOUND;
    let r: i64 = shifted % TURN_FULL;
    proof {
        vstd::arithmetic::div_mod::lemma_mod_multiples_vanish(
            277_777_777_778int,
            rot as int,
            3600int,
        );
        assert(3600int * 277_777_777_778int + rot == shifted);
    }
    r
}

/// Unit direction vector of a rotation, scaled by `MILLI`.
pub fn dir_of(rot: i64) -> (r: Vec2)
    requires
        -ROT_BOUND <= rot <= ROT_BOUND,
    ensures
        r == spec_dir(rot as int),
        -MILLI <= r.x <= MILLI,
        -MILLI <= r.y <= MILLI,
{
    let a: i64 = normalize_angle(rot);
    Vec2 { x: cos_fx(a), y: sin_fx(a) }
}

} // verus!
