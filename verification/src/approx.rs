//! The model's elementary functions, in exact fixed point.
//!
//! The model defines its own square root (integer square root of the
//! rescaled argument), its own sine (a rational approximation over degrees
//! that is exact at the pole), and its own exponential (a binomial base
//! raised to the 1024th power by repeated squaring).  Each is an exact,
//! deterministic function of its argument.

use vstd::prelude::*;
use crate::fixed::{SCALE, fp_mul, fp_div, fp_mul_spec, fp_div_spec};
use crate::fixed::{lemma_fp_mul_bound, lemma_fp_mul_lower, lemma_fp_div_lower};

verus! {

/// `r` is the integer square root of `x`: the largest integer whose square
/// does not exceed `x`.
pub open spec fn is_isqrt(x: int, r: int) -> bool {
    &&& 0 <= r
    &&& r * r <= x
    &&& x < (r + 1) * (r + 1)
}

/// The integer square root is unique.
pub proof fn lemma_isqrt_unique(x: int, r1: int, r2: int) by (nonlinear_arith)
    requires
        0 <= r1,
        r1 * r1 <= x,
        x < (r1 + 1) * (r1 + 1),
        0 <= r2,
        r2 * r2 <= x,
        x < (r2 + 1) * (r2 + 1),
    ensures
        r1 == r2,
{
}

/// Integer square root by bisection.
pub fn isqrt(x: u128) -> (r: u128)
    requires
        x < 18_446_744_073_709_551_616u128,
    ensures
        is_isqrt(x as int, r as int),
        r < 4_294_967_296,
{
    let mut lo: u128 = 0;
    let mut hi: u128 = 4_294_967_296;
    proof {
        assert((4_294_967_296int) * (4_294_967_296int) == 18_446_744_073_709_551_616int);
    }
    while lo + 1 < hi
        invariant
            lo < hi <= 4_294_967_296,
            (lo as int) * (lo as int) <= x as int,
            (x as int) < (hi as int) * (hi as int),
        decreases hi - lo,
    {
        let mid: u128 = lo + (hi - lo) / 2;
        proof {
            assert((mid as int) * (mid as int) <= 18_446_744_073_709_551_616int)
                by (nonlinear_arith)
                requires
                    0 <= mid as int <= 4_294_967_296int,
            ;
        }
        let sq: u128 = mid * mid;
        if sq <= x {
            lo = mid;
        } else {
            hi = mid;
        }
    }
    lo
}

/// The fixed-point square root: integer square root of the argument scaled
/// up once more, so that the result is again in fixed-point units.
pub open spec fn fp_sqrt_spec(x: int) -> int {
    choose|r: int| #[trigger] is_isqrt(x * (SCALE as int), r)
}

/// Fixed-point square root, exact per [`fp_sqrt_spec`].
pub fn sqrt_fp(x: i128) -> (r: i128)
    requires
        0 <= x <= 10_000_000_000,
    ensures
        r == fp_sqrt_spec(x as int),
        is_isqrt((x as int) * (SCALE as int), r as int),
        0 <= r <= 4_000_000_000,
{
    proof {
        assert((x as int) * (SCALE as int) <= 10_000_000_000_000_000_000int)
            by (nonlinear_arith)
            requires
                0 <= x as int <= 10_000_000_000int,
        ;
    }
    let xs: u128 = (x as u128) * (SCALE as u128);
    let q: u128 = isqrt(xs);
    proof {
        let target = (x as int) * (SCALE as int);
        assert(is_isqrt(target, q as int));
        assert(exists|rr: int| is_isqrt(target, rr));
        let c = choose|rr: int| is_isqrt(target, rr);
        lemma_isqrt_unique(target, c, q as int);
        assert(q as int <= 4_000_000_000) by (nonlinear_arith)
            requires
                (q as int) * (q as int) <= 10_000_000_000_000_000_000int,
                0 <= q as int,
        ;
    }
    q as i128
}

/// The model's sine over degrees, for a nonnegative angle: the rational
/// approximation `4 x (180 - x) / (40500 - x (180 - x))`, which is exact at
/// 0, 30, 90, 150 and 180 degrees.
pub open spec fn sin_deg_nonneg_spec(x: int) -> int {
    let p = fp_mul_spec(x, 180 * (SCALE as int) - x);
    fp_div_spec(4 * p, 40_500 * (SCALE as int) - p)
}

/// The model's sine over degrees, extended to negative angles as an odd
/// function.
pub open spec fn sin_deg_spec(x: int) -> int {
    if x >= 0 {
        sin_deg_nonneg_spec(x)
    } else {
        -sin_deg_nonneg_spec(-x)
    }
}

/// Shape of the sine's ingredients for a nonnegative angle: the parabola
/// peaks at the pole, and the quotient stays between zero and one.
pub proof fn lemma_sin_shape(m: int)
    requires
        0 <= m <= 90_000_000_000,
    ensures
        0 <= fp_mul_spec(m, 180 * (SCALE as int) - m) <= 8_100_000_000_000,
        0 <= sin_deg_nonneg_spec(m) <= SCALE as int,
        m == 0 ==> sin_deg_nonneg_spec(m) == 0,
{
    let p = fp_mul_spec(m, 180 * (SCALE as int) - m);
    if m == 0 {
        assert(0 * (180 * (SCALE as int)) == 0);
        vstd::arithmetic::div_mod::lemma_div_of0(SCALE as int);
        assert(p == 0);
        assert(0 * (SCALE as int) == 0);
        vstd::arithmetic::div_mod::lemma_div_of0(40_500 * (SCALE as int));
    }
    lemma_fp_mul_lower(m, 180 * (SCALE as int) - m, 0, 0);
    assert(m * (180 * (SCALE as int) - m) <= 8_100_000_000_000_000_000_000int)
        by (nonlinear_arith)
        requires
            0 <= m <= 90_000_000_000int,
    ;
    vstd::arithmetic::div_mod::lemma_div_is_ordered(
        m * (180 * (SCALE as int) - m),
        8_100_000_000_000_000_000_000int,
        SCALE as int,
    );
    let num = 4 * p;
    let den = 40_500 * (SCALE as int) - p;
    lemma_fp_div_lower(num, den, 0, 40_500 * (SCALE as int));
    vstd::arithmetic::div_mod::lemma_div_is_ordered(
        num * (SCALE as int),
        den * (SCALE as int),
        den,
    );
    vstd::arithmetic::div_mod::lemma_div_multiples_vanish(SCALE as int, den);
    assert((SCALE as int) * den == den * (SCALE as int));
}

/// The sine lies between minus one and one and carries the sign of its
/// argument.
pub proof fn lemma_sin_deg_bounds(x: int)
    requires
        -90_000_000_000 <= x <= 90_000_000_000,
    ensures
        -(SCALE as int) <= sin_deg_spec(x) <= SCALE as int,
        x >= 0 ==> sin_deg_spec(x) >= 0,
        x <= 0 ==> sin_deg_spec(x) <= 0,
{
    if x >= 0 {
        lemma_sin_shape(x);
    } else {
        lemma_sin_shape(-x);
    }
}

/// The model's sine, exact per [`sin_deg_spec`], bounded by one in
/// magnitude and carrying the sign of its argument.
pub fn sin_deg_fp(x: i128) -> (r: i128)
    requires
        -90 * SCALE <= x <= 90 * SCALE,
    ensures
        r == sin_deg_spec(x as int),
        -SCALE <= r <= SCALE,
        x >= 0 ==> r >= 0,
        x <= 0 ==> r <= 0,
{
    let m: i128 = if x < 0 { -x } else { x };
    proof {
        lemma_sin_shape(m as int);
    }
    let p: i128 = fp_mul(m, 180 * SCALE - m);
    let num: i128 = 4 * p;
    let den: i128 = 40_500 * SCALE - p;
    let s: i128 = fp_div(num, den);
    if x < 0 {
        -s
    } else {
        s
    }
}

/// Sine of an angle of at least one degree (and at most ninety) is well
/// clear of zero.
pub proof fn lemma_sin_deg_lower(x: int)
    requires
        (SCALE as int) <= x <= 90 * (SCALE as int),
    ensures
        sin_deg_spec(x) >= 8_000_000,
{
    let p = fp_mul_spec(x, 180 * (SCALE as int) - x);
    lemma_fp_mul_lower(x, 180 * (SCALE as int) - x, SCALE as int, 90_000_000_000int);
    assert((SCALE as int) * 90_000_000_000int == 90_000_000_000_000_000_000int)
        by (nonlinear_arith);
    lemma_fp_mul_bound(x, 180 * (SCALE as int) - x, 90_000_000_000int, 180_000_000_000int);
    assert(90_000_000_000int * 180_000_000_000int == 16_200_000_000_000_000_000_000int)
        by (nonlinear_arith);
    let den = 40_500 * (SCALE as int) - p;
    lemma_fp_div_lower(4 * p, den, 360_000_000_000int, 40_500_000_000_000int);
    assert(360_000_000_000int * (SCALE as int) == 360_000_000_000_000_000_000int)
        by (nonlinear_arith);
}

/// The model's sine is exactly one at the pole.
pub proof fn lemma_sin_pole()
    ensures
        sin_deg_spec(90 * (SCALE as int)) == SCALE as int,
{
    let x: int = 90 * (SCALE as int);
    assert(x * (180 * (SCALE as int) - x) == 8_100_000_000_000_000_000_000int)
        by (nonlinear_arith)
        requires
            x == 90_000_000_000int,
    ;
    assert(fp_mul_spec(x, 180 * (SCALE as int) - x) == 8_100_000_000_000int);
    assert(32_400_000_000_000int * (SCALE as int) == 32_400_000_000_000_000_000_000int)
        by (nonlinear_arith);
    assert(fp_div_spec(32_400_000_000_000int, 32_400_000_000_000int) == SCALE as int);
}

/// Division of a fixed-point value by plain 1024, rounded toward zero.
pub open spec fn div1024_spec(x: int) -> int {
    if x >= 0 {
        x / 1024
    } else {
        -((-x) / 1024)
    }
}

/// The model's exponential: `(1 + x/1024)` raised to the 1024th power by
/// ten squarings.
pub open spec fn exp_fp_spec(x: int) -> int {
    let t0 = (SCALE as int) + div1024_spec(x);
    let t1 = fp_mul_spec(t0, t0);
    let t2 = fp_mul_spec(t1, t1);
    let t3 = fp_mul_spec(t2, t2);
    let t4 = fp_mul_spec(t3, t3);
    let t5 = fp_mul_spec(t4, t4);
    let t6 = fp_mul_spec(t5, t5);
    let t7 = fp_mul_spec(t6, t6);
    let t8 = fp_mul_spec(t7, t7);
    let t9 = fp_mul_spec(t8, t8);
    fp_mul_spec(t9, t9)
}

/// The model's exponential, exact per [`exp_fp_spec`], for arguments
/// between minus two and a half and a twentieth.
pub fn exp_fp(x: i128) -> (r: i128)
    requires
        -2_500_000_000 <= x <= 50_000_000,
    ensures
        r == exp_fp_spec(x as int),
        0 <= r <= 1_100_000_000,
{
    let q: i128 = if x < 0 {
        -((((-x) as u128) / 1024) as i128)
    } else {
        (((x as u128) / 1024) as i128)
    };
    let t0: i128 = SCALE + q;
    let t1: i128 = fp_mul(t0, t0);
    proof {
        lemma_fp_mul_lower(t0 as int, t0 as int, 0, 0);
        lemma_fp_mul_bound(t0 as int, t0 as int, 1_000_048_829, 1_000_048_829);
    }
    let t2: i128 = fp_mul(t1, t1);
    proof {
        lemma_fp_mul_lower(t1 as int, t1 as int, 0, 0);
        lemma_fp_mul_bound(t1 as int, t1 as int, 1_000_100_000, 1_000_100_000);
    }
    let t3: i128 = fp_mul(t2, t2);
    proof {
        lemma_fp_mul_lower(t2 as int, t2 as int, 0, 0);
        lemma_fp_mul_bound(t2 as int, t2 as int, 1_000_210_000, 1_000_210_000);
    }
    let t4: i128 = fp_mul(t3, t3);
    proof {
        lemma_fp_mul_lower(t3 as int, t3 as int, 0, 0);
        lemma_fp_mul_bound(t3 as int, t3 as int, 1_000_430_000, 1_000_430_000);
    }
    let t5: i128 = fp_mul(t4, t4);
    proof {
        lemma_fp_mul_lower(t4 as int, t4 as int, 0, 0);
        lemma_fp_mul_bound(t4 as int, t4 as int, 1_000_870_000, 1_000_870_000);
    }
    let t6: i128 = fp_mul(t5, t5);
    proof {
        lemma_fp_mul_lower(t5 as int, t5 as int, 0, 0);
        lemma_fp_mul_bound(t5 as int, t5 as int, 1_001_750_000, 1_001_750_000);
    }
    let t7: i128 = fp_mul(t6, t6);
    proof {
        lemma_fp_mul_lower(t6 as int, t6 as int, 0, 0);
        lemma_fp_mul_bound(t6 as int, t6 as int, 1_003_510_000, 1_003_510_000);
    }
    let t8: i128 = fp_mul(t7, t7);
    proof {
        lemma_fp_mul_lower(t7 as int, t7 as int, 0, 0);
        lemma_fp_mul_bound(t7 as int, t7 as int, 1_007_040_000, 1_007_040_000);
    }
    let t9: i128 = fp_mul(t8, t8);
    proof {
        lemma_fp_mul_lower(t8 as int, t8 as int, 0, 0);
        lemma_fp_mul_bound(t8 as int, t8 as int, 1_014_130_000, 1_014_130_000);
    }
    let t10: i128 = fp_mul(t9, t9);
    proof {
        lemma_fp_mul_lower(t9 as int, t9 as int, 0, 0);
        lemma_fp_mul_bound(t9 as int, t9 as int, 1_028_460_000, 1_028_460_000);
    }
    t10
}

} // verus!
