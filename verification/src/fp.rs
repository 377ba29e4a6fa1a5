//! Fixed-point scalars: an `i64` holds a world quantity scaled by [`FP`].
//!
//! Multiplication of two fixed-point numbers produces a doubly scaled
//! product, which is brought back to scale by a division that truncates
//! toward zero, matching the behaviour of Rust's `/` on signed integers.

use vstd::prelude::*;

verus! {

/// Number of fixed-point steps per world unit.
pub const FP: i64 = 1024;

/// Magnitude bound on fixed-point inputs to the arithmetic helpers; products
/// of two such values stay well inside `i64`.
pub const FP_BOUND: i64 = 0x1000_0000;

/// Division truncating toward zero, as Rust's `/` computes it on signed
/// integers; `a / b` on `int` is Euclidean, so the negative case is adjusted.
pub open spec fn tdiv(a: int, b: int) -> int {
    if a >= 0 {
        a / b
    } else {
        -((-a) / b)
    }
}

/// Drop the extra scale factor from a doubly scaled product.
pub open spec fn fp_scale(a: int) -> int {
    tdiv(a, FP as int)
}

/// Product of two fixed-point numbers, rescaled.
pub open spec fn fpmul_spec(a: int, b: int) -> int {
    fp_scale(a * b)
}

/// Truncating division bounds: the quotient never exceeds the dividend in
/// magnitude, for a positive divisor.
pub proof fn lemma_tdiv_bounds(a: int, b: int)
    requires
        b >= 1,
    ensures
        a >= 0 ==> 0 <= tdiv(a, b) <= a,
        a < 0 ==> a <= tdiv(a, b) <= 0,
{
    if a >= 0 {
        vstd::arithmetic::div_mod::lemma_div_basics_4(a, b);
        vstd::arithmetic::div_mod::lemma_div_basics_5(a, b);
    } else {
        vstd::arithmetic::div_mod::lemma_div_basics_4(-a, b);
        vstd::arithmetic::div_mod::lemma_div_basics_5(-a, b);
    }
}

/// A dividend below `c` divisors in magnitude has a quotient below `c`.
pub proof fn lemma_tdiv_le(a: int, b: int, c: int)
    requires
        b >= 1,
        c >= 0,
        -(c * b) <= a <= c * b,
    ensures
        -c <= tdiv(a, b) <= c,
{
    vstd::arithmetic::div_mod::lemma_div_multiples_vanish(c, b);
    if a >= 0 {
        vstd::arithmetic::div_mod::lemma_div_basics_4(a, b);
        vstd::arithmetic::div_mod::lemma_div_is_ordered(a, b * c, b);
    } else {
        vstd::arithmetic::div_mod::lemma_div_basics_4(-a, b);
        vstd::arithmetic::div_mod::lemma_div_is_ordered(-a, b * c, b);
    }
}

/// Drop the extra scale factor from a doubly scaled product.
pub fn fp_scale_exec(a: i64) -> (r: i64)
    ensures
        r == fp_scale(a as int),
{
    proof {
        lemma_tdiv_bounds(a as int, FP as int);
    }
    a / FP
}

/// Product of two fixed-point numbers, truncated toward zero at scale.
pub fn fpmul(a: i64, b: i64) -> (r: i64)
    requires
        -FP_BOUND <= a <= FP_BOUND,
        -FP_BOUND <= b <= FP_BOUND,
    ensures
        r == fpmul_spec(a as int, b as int),
{
    assert(-0x1000_0000_0000_0000 <= a as int * b as int <= 0x1000_0000_0000_0000) by (nonlinear_arith)
        requires
            -FP_BOUND <= a <= FP_BOUND,
            -FP_BOUND <= b <= FP_BOUND,
    ;
    proof {
        lemma_tdiv_bounds(a as int * b as int, FP as int);
    }
    let p: i64 = a * b;
    p / FP
}

} // verus!
