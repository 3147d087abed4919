//! Nano-scale fixed-point arithmetic.
//!
//! A quantity is stored as an `i128` holding the value times [`SCALE`]
//! (one billion), so one unit is a billionth of the physical unit.
//! Multiplication and division rescale the mathematical result and round
//! it toward zero; both are exact functions of their arguments, which is
//! what makes the whole model deterministic.

use vstd::prelude::*;

verus! {

/// Number of fixed-point units per physical unit.
pub const SCALE: i128 = 1_000_000_000;

/// Largest operand magnitude the fixed-point operations accept.  The
/// product of two such magnitudes still fits comfortably in an `i128`.
pub const FP_LIMIT: i128 = 1_000_000_000_000_000_000;

/// Mathematical value of a fixed-point product: the integer product,
/// rescaled and rounded toward zero.
pub open spec fn fp_mul_spec(a: int, b: int) -> int {
    let p = a * b;
    if p >= 0 {
        p / (SCALE as int)
    } else {
        -((-p) / (SCALE as int))
    }
}

/// Mathematical value of a fixed-point quotient (divisor positive): the
/// scaled numerator over the divisor, rounded toward zero.
pub open spec fn fp_div_spec(a: int, b: int) -> int {
    let n = a * (SCALE as int);
    if n >= 0 {
        n / b
    } else {
        -((-n) / b)
    }
}

/// The magnitudes of two factors determine the magnitude of their product.
proof fn lemma_abs_mul(a: int, b: int, ma: int, mb: int) by (nonlinear_arith)
    requires
        ma == if a >= 0 { a } else { -a },
        mb == if b >= 0 { b } else { -b },
    ensures
        ma * mb == if a * b >= 0 { a * b } else { -(a * b) },
        ma * mb >= 0,
        ((a >= 0) == (b >= 0)) ==> a * b >= 0,
        ((a >= 0) != (b >= 0)) ==> a * b <= 0,
{
}

/// Bounds on two nonnegative factors bound their product.
proof fn lemma_mul_le(a: int, b: int, ba: int, bb: int) by (nonlinear_arith)
    requires
        0 <= a <= ba,
        0 <= b <= bb,
    ensures
        0 <= a * b <= ba * bb,
{
}

/// Lower bounds on two nonnegative factors bound their product from below.
proof fn lemma_mul_ge(a: int, b: int, la: int, lb: int) by (nonlinear_arith)
    requires
        a >= la >= 0,
        b >= lb >= 0,
    ensures
        a * b >= la * lb >= 0,
{
}

/// Magnitude bound for a fixed-point product, from magnitude bounds on the
/// factors.
pub proof fn lemma_fp_mul_bound(a: int, b: int, ba: int, bb: int)
    requires
        -ba <= a <= ba,
        -bb <= b <= bb,
    ensures
        -(ba * bb / (SCALE as int)) <= fp_mul_spec(a, b) <= ba * bb / (SCALE as int),
{
    let ma = if a >= 0 { a } else { -a };
    let mb = if b >= 0 { b } else { -b };
    lemma_abs_mul(a, b, ma, mb);
    lemma_mul_le(ma, mb, ba, bb);
    vstd::arithmetic::div_mod::lemma_div_is_ordered(ma * mb, ba * bb, SCALE as int);
    vstd::arithmetic::div_mod::lemma_div_pos_is_pos(ma * mb, SCALE as int);
}

/// Lower bound for a fixed-point product of nonnegative factors.
pub proof fn lemma_fp_mul_lower(a: int, b: int, la: int, lb: int)
    requires
        a >= la >= 0,
        b >= lb >= 0,
    ensures
        fp_mul_spec(a, b) >= la * lb / (SCALE as int) >= 0,
{
    lemma_mul_ge(a, b, la, lb);
    vstd::arithmetic::div_mod::lemma_div_is_ordered(la * lb, a * b, SCALE as int);
    vstd::arithmetic::div_mod::lemma_div_pos_is_pos(la * lb, SCALE as int);
}

/// Multiplying by one (that is, by `SCALE` units) changes nothing.
pub proof fn lemma_fp_mul_one(a: int)
    ensures
        fp_mul_spec(a, SCALE as int) == a,
{
    assert(a * (SCALE as int) == a * (SCALE as int));
    vstd::arithmetic::div_mod::lemma_div_multiples_vanish(a, SCALE as int);
    if a < 0 {
        assert(-(a * (SCALE as int)) == (-a) * (SCALE as int)) by (nonlinear_arith);
        vstd::arithmetic::div_mod::lemma_div_multiples_vanish(-a, SCALE as int);
    }
}

/// Negating one factor negates a fixed-point product.
pub proof fn lemma_fp_mul_neg(a: int, b: int)
    ensures
        fp_mul_spec(-a, b) == -fp_mul_spec(a, b),
{
    assert((-a) * b == -(a * b)) by (nonlinear_arith);
}

/// Negating the numerator negates a fixed-point quotient.
pub proof fn lemma_fp_div_neg(a: int, b: int)
    requires
        b >= 1,
    ensures
        fp_div_spec(-a, b) == -fp_div_spec(a, b),
{
    assert((-a) * (SCALE as int) == -(a * (SCALE as int))) by (nonlinear_arith);
    if a * (SCALE as int) == 0 {
        vstd::arithmetic::div_mod::lemma_div_of0(b);
    }
}

/// Magnitude bound for a fixed-point quotient, from a magnitude bound on
/// the numerator and a lower bound on the divisor.
pub proof fn lemma_fp_div_bound(a: int, b: int, ba: int, lb: int)
    requires
        -ba <= a <= ba,
        b >= lb >= 1,
    ensures
        -(ba * (SCALE as int) / lb) <= fp_div_spec(a, b) <= ba * (SCALE as int) / lb,
{
    let ma = if a >= 0 { a } else { -a };
    let n = ma * (SCALE as int);
    assert(n == if a * (SCALE as int) >= 0 { a * (SCALE as int) } else { -(a * (SCALE as int)) });
    vstd::arithmetic::div_mod::lemma_div_is_ordered_by_denominator(n, lb, b);
    vstd::arithmetic::div_mod::lemma_div_is_ordered(n, ba * (SCALE as int), lb);
    vstd::arithmetic::div_mod::lemma_div_pos_is_pos(n, b);
}

/// Lower bound for a fixed-point quotient of a nonnegative numerator, from
/// a lower bound on the numerator and an upper bound on the divisor.
pub proof fn lemma_fp_div_lower(a: int, b: int, la: int, ub: int)
    requires
        a >= la >= 0,
        1 <= b <= ub,
    ensures
        fp_div_spec(a, b) >= la * (SCALE as int) / ub >= 0,
{
    assert(a * (SCALE as int) >= la * (SCALE as int) >= 0);
    vstd::arithmetic::div_mod::lemma_div_is_ordered_by_denominator(la * (SCALE as int), b, ub);
    vstd::arithmetic::div_mod::lemma_div_is_ordered(la * (SCALE as int), a * (SCALE as int), b);
    vstd::arithmetic::div_mod::lemma_div_pos_is_pos(la * (SCALE as int), ub);
}

/// Upper bound for a fixed-point quotient whose numerator may be negative,
/// from an upper bound on the numerator and a lower bound on the divisor.
pub proof fn lemma_fp_div_upper(a: int, b: int, ua: int, lb: int)
    requires
        a <= ua,
        0 <= ua,
        b >= lb >= 1,
    ensures
        fp_div_spec(a, b) <= ua * (SCALE as int) / lb,
{
    if a >= 0 {
        lemma_fp_div_bound(a, b, ua, lb);
    } else {
        assert(-(a * (SCALE as int)) == (-a) * (SCALE as int));
        vstd::arithmetic::div_mod::lemma_div_pos_is_pos((-a) * (SCALE as int), b);
        vstd::arithmetic::div_mod::lemma_div_pos_is_pos(ua * (SCALE as int), lb);
    }
}

/// Fixed-point product, exact per [`fp_mul_spec`].
pub fn fp_mul(a: i128, b: i128) -> (r: i128)
    requires
        -FP_LIMIT <= a <= FP_LIMIT,
        -FP_LIMIT <= b <= FP_LIMIT,
    ensures
        r == fp_mul_spec(a as int, b as int),
{
    let neg: bool = (a < 0) != (b < 0);
    let ma: u128 = if a < 0 { (-a) as u128 } else { a as u128 };
    let mb: u128 = if b < 0 { (-b) as u128 } else { b as u128 };
    proof {
        lemma_abs_mul(a as int, b as int, ma as int, mb as int);
        lemma_mul_le(ma as int, mb as int, FP_LIMIT as int, FP_LIMIT as int);
        assert((FP_LIMIT as int) * (FP_LIMIT as int)
            == 1_000_000_000_000_000_000_000_000_000_000_000_000int);
    }
    let p: u128 = ma * mb;
    let q: u128 = p / (SCALE as u128);
    proof {
        vstd::arithmetic::div_mod::lemma_div_is_ordered(
            p as int,
            1_000_000_000_000_000_000_000_000_000_000_000_000int,
            SCALE as int,
        );
        vstd::arithmetic::div_mod::lemma_div_pos_is_pos(p as int, SCALE as int);
        assert(q <= 1_000_000_000_000_000_000_000_000_000int);
    }
    if neg {
        proof {
            assert(fp_mul_spec(a as int, b as int) == -(q as int));
        }
        -(q as i128)
    } else {
        proof {
            assert(fp_mul_spec(a as int, b as int) == q as int);
        }
        q as i128
    }
}

/// Fixed-point quotient (divisor in plain positive units), exact per
/// [`fp_div_spec`].
pub fn fp_div(a: i128, b: i128) -> (r: i128)
    requires
        -FP_LIMIT <= a <= FP_LIMIT,
        1 <= b <= FP_LIMIT,
    ensures
        r == fp_div_spec(a as int, b as int),
{
    let neg: bool = a < 0;
    let ma: u128 = if a < 0 { (-a) as u128 } else { a as u128 };
    let n: u128 = ma * (SCALE as u128);
    proof {
        assert((ma as int) * (SCALE as int) <= (FP_LIMIT as int) * (SCALE as int));
        if a < 0 {
            assert((-(a as int)) * (SCALE as int) == -((a as int) * (SCALE as int)));
        }
    }
    let q: u128 = n / (b as u128);
    proof {
        vstd::arithmetic::div_mod::lemma_div_is_ordered(
            n as int,
            (FP_LIMIT as int) * (SCALE as int),
            b as int,
        );
    }
    if neg {
        -(q as i128)
    } else {
        q as i128
    }
}

} // verus!
