//! Fixed-point plane geometry: vectors in milli-pixels, scaling by integer
//! ratios, and an integer square root for magnitude computations.

use vstd::prelude::*;

verus! {

/// A plane vector in milli-pixel units.
#[derive(Clone, Copy, PartialEq, Eq, Structural, Debug)]
pub struct Vec2 {
    pub x: i64,
    pub y: i64,
}

/// Squared magnitude of a vector, as a mathematical integer.
pub open spec fn mag2(v: Vec2) -> int {
    v.x * v.x + v.y * v.y
}

/// Both components within `b` in absolute value.
pub open spec fn in_box(v: Vec2, b: int) -> bool {
    -b <= v.x <= b && -b <= v.y <= b
}

/// `v` scaled by the ratio `num / den`, rounding the magnitude down
/// (truncation toward zero, so scaling never grows the absolute value
/// beyond the exact ratio).
pub open spec fn spec_scale(v: int, num: int, den: int) -> int {
    if v >= 0 {
        (v * num) / den
    } else {
        -((-v * num) / den)
    }
}

/// `x` clamped into `[-bound, bound]`.
pub open spec fn spec_clamp(x: int, bound: int) -> int {
    if x < -bound {
        -bound
    } else if x > bound {
        bound
    } else {
        x
    }
}

/// Scale a coordinate by `num / den`, truncating toward zero.
pub fn scale_mag(v: i64, num: i64, den: i64) -> (r: i64)
    requires
        -4_000_000_000_000 <= v <= 4_000_000_000_000,
        0 <= num,
        0 < den,
        v * num <= i64::MAX,
        -(v * num) <= i64::MAX,
    ensures
        r == spec_scale(v as int, num as int, den as int),
        v >= 0 ==> 0 <= r,
        v <= 0 ==> r <= 0,
        v >= 0 ==> den * r <= v * num && v * num < den * (r + 1),
        v < 0 ==> den * (-r) <= (-v) * num && (-v) * num < den * ((-r) + 1),
        num <= den ==> (if v >= 0 { r <= v } else { v <= r }),
{
    if v >= 0 {
        let p: i64 = v * num;
        let q: i64 = p / den;
        proof {
            vstd::arithmetic::div_mod::lemma_fundamental_div_mod(p as int, den as int);
            vstd::arithmetic::div_mod::lemma_remainder_upper(p as int, den as int);
            vstd::arithmetic::div_mod::lemma_remainder_lower(p as int, den as int);
            assert(den * q <= p && p < den * (q + 1)) by (nonlinear_arith)
                requires
                    den > 0,
                    p >= 0,
                    p == den * (p / den) + p % den,
                    0 <= p % den < den,
                    q == p / den,
            ;
            if num <= den {
                assert(q <= v) by (nonlinear_arith)
                    requires
                        den > 0,
                        v >= 0,
                        0 <= num <= den,
                        p == v * num,
                        den * q <= p,
                ;
            }
        }
        q
    } else {
        proof {
            assert((-v) * num == -(v * num)) by (nonlinear_arith);
        }
        let p: i64 = (-v) * num;
        let q: i64 = p / den;
        proof {
            vstd::arithmetic::div_mod::lemma_fundamental_div_mod(p as int, den as int);
            vstd::arithmetic::div_mod::lemma_remainder_upper(p as int, den as int);
            vstd::arithmetic::div_mod::lemma_remainder_lower(p as int, den as int);
            assert(den * q <= p && p < den * (q + 1)) by (nonlinear_arith)
                requires
                    den > 0,
                    p >= 0,
                    p == den * (p / den) + p % den,
                    0 <= p % den < den,
                    q == p / den,
            ;
            if num <= den {
                assert(q <= -v) by (nonlinear_arith)
                    requires
                        den > 0,
                        -v >= 0,
                        0 <= num <= den,
                        p == (-v) * num,
                        den * q <= p,
                ;
            }
        }
        -q
    }
}

/// A coordinate no larger than the denominator scales to no more than the
/// numerator.
pub proof fn lemma_scale_within(v: int, num: int, den: int)
    requires
        -den <= v <= den,
        0 <= num,
        0 < den,
    ensures
        -num <= spec_scale(v, num, den) <= num,
{
    if v >= 0 {
        let p = v * num;
        vstd::arithmetic::div_mod::lemma_fundamental_div_mod(p, den);
        vstd::arithmetic::div_mod::lemma_remainder_lower(p, den);
        vstd::arithmetic::div_mod::lemma_remainder_upper(p, den);
        assert(0 <= p / den <= num) by (nonlinear_arith)
            requires
                p == v * num,
                0 <= v <= den,
                0 <= num,
                0 < den,
                p == den * (p / den) + p % den,
                0 <= p % den < den,
        ;
    } else {
        let p = (-v) * num;
        vstd::arithmetic::div_mod::lemma_fundamental_div_mod(p, den);
        vstd::arithmetic::div_mod::lemma_remainder_lower(p, den);
        vstd::arithmetic::div_mod::lemma_remainder_upper(p, den);
        assert(0 <= p / den <= num) by (nonlinear_arith)
            requires
                p == (-v) * num,
                0 <= -v <= den,
                0 <= num,
                0 < den,
                p == den * (p / den) + p % den,
                0 <= p % den < den,
        ;
    }
}

/// `a + b`, clamped into `[-bound, bound]`.
pub fn add_clamped(a: i64, b: i64, bound: i64) -> (r: i64)
    requires
        0 < bound,
        -4_000_000_000_000_000_000 <= a <= 4_000_000_000_000_000_000,
        -4_000_000_000_000_000_000 <= b <= 4_000_000_000_000_000_000,
    ensures
        r == spec_clamp(a + b, bound as int),
        -bound <= r <= bound,
        -bound <= a + b <= bound ==> r == a + b,
{
    let s: i64 = a + b;
    if s < -bound {
        -bound
    } else if s > bound {
        bound
    } else {
        s
    }
}

/// Smallest non-negative integer whose square is at least `n`.
pub fn ceil_sqrt(n: i64) -> (r: i64)
    requires
        0 <= n <= 8_000_000_000_000_000_000,
    ensures
        0 <= r <= 2_900_000_000,
        r * r >= n,
        r > 0 ==> (r - 1) * (r - 1) < n,
        n > 0 ==> r > 0,
{
    let mut lo: i64 = 0;
    let mut hi: i64 = 2_900_000_000;
    proof {
        assert(2_900_000_000i64 * 2_900_000_000i64 >= n) by (nonlinear_arith)
            requires
                n <= 8_000_000_000_000_000_000,
        ;
    }
    while lo < hi
        invariant
            0 <= lo <= hi <= 2_900_000_000,
            hi * hi >= n,
            lo > 0 ==> (lo - 1) * (lo - 1) < n,
        decreases hi - lo,
    {
        let mid: i64 = lo + (hi - lo) / 2;
        proof {
            assert(mid * mid <= 8_410_000_000_000_000_000) by (nonlinear_arith)
                requires
                    0 <= mid <= 2_900_000_000,
            ;
        }
        let sq: i64 = mid * mid;
        if sq >= n {
            hi = mid;
        } else {
            lo = mid + 1;
        }
    }
    lo
}

} // verus!
