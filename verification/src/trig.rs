//! Integer trigonometry over fixed-point angles.
//!
//! An angle is a fixed-point count of *turn steps*: [`TURN_STEPS`] steps make
//! one full turn, so a fixed-point angle of [`FULL_TURN`] is one revolution.
//! Sine and cosine are read from a quarter-wave table scaled by [`FP`]; the
//! whole-step index is the fixed-point angle truncated toward zero and then
//! reduced into `[0, TURN_STEPS)`.

use vstd::prelude::*;
use crate::fp::FP;
use crate::fp::tdiv;
use vstd::arithmetic::div_mod::lemma_fundamental_div_mod;
use vstd::arithmetic::div_mod::lemma_fundamental_div_mod_converse;

verus! {

/// Whole angle steps in one full turn.
pub const TURN_STEPS: i64 = 64;

/// One full turn as a fixed-point angle: `TURN_STEPS * FP`.
pub const FULL_TURN: i64 = 65536;

/// Sine of `k` steps scaled by `FP`, for the first quarter turn
/// (`0 <= k <= 16`); clamped to the endpoints outside that range.
pub open spec fn sin_table(k: int) -> int {
    if k <= 0 {
        0
    } else if k == 1 {
        100
    } else if k == 2 {
        200
    } else if k == 3 {
        297
    } else if k == 4 {
        392
    } else if k == 5 {
        483
    } else if k == 6 {
        569
    } else if k == 7 {
        650
    } else if k == 8 {
        724
    } else if k == 9 {
        792
    } else if k == 10 {
        851
    } else if k == 11 {
        903
    } else if k == 12 {
        946
    } else if k == 13 {
        980
    } else if k == 14 {
        1004
    } else if k == 15 {
        1019
    } else {
        1024
    }
}

/// Whole-step index of a fixed-point angle, in `[0, TURN_STEPS)`.
pub open spec fn step_of(a: int) -> int {
    tdiv(a, FP as int) % (TURN_STEPS as int)
}

/// Sine of `s` whole steps, scaled by `FP`; meaningful for `0 <= s < TURN_STEPS`.
pub open spec fn sin_step(s: int) -> int {
    if s <= 16 {
        sin_table(s)
    } else if s <= 32 {
        sin_table(32 - s)
    } else if s <= 48 {
        -sin_table(s - 32)
    } else {
        -sin_table(64 - s)
    }
}

/// Sine of a fixed-point angle, scaled by `FP`.
pub open spec fn sin_spec(a: int) -> int {
    sin_step(step_of(a))
}

/// Cosine of a fixed-point angle, scaled by `FP`: the sine a quarter turn ahead.
pub open spec fn cos_spec(a: int) -> int {
    sin_step((step_of(a) + 16) % 64)
}

/// Table lookup for the first quarter turn.
fn sin_table_at(k: i64) -> (r: i64)
    requires
        0 <= k <= 16,
    ensures
        r == sin_table(k as int),
        0 <= r <= FP,
{
    match k {
        0 => 0,
        1 => 100,
        2 => 200,
        3 => 297,
        4 => 392,
        5 => 483,
        6 => 569,
        7 => 650,
        8 => 724,
        9 => 792,
        10 => 851,
        11 => 903,
        12 => 946,
        13 => 980,
        14 => 1004,
        15 => 1019,
        _ => 1024,
    }
}

/// Truncated remainder of a negative number against the Euclidean one.
proof fn lemma_neg_mod64(t: int)
    requires
        t < 0,
    ensures
        (-t) % 64 == 0 ==> t % 64 == 0,
        (-t) % 64 > 0 ==> t % 64 == 64 - ((-t) % 64),
{
    let q = (-t) / 64;
    let r = (-t) % 64;
    lemma_fundamental_div_mod(-t, 64);
    if r == 0 {
        lemma_fundamental_div_mod_converse(t, 64, -q, 0);
    } else {
        lemma_fundamental_div_mod_converse(t, 64, -q - 1, 64 - r);
    }
}

/// Whole-step index of a fixed-point angle.
pub fn angle_step(a: i64) -> (s: i64)
    ensures
        s == step_of(a as int),
        0 <= s < TURN_STEPS,
{
    let t: i64 = a / FP;
    let m: i64 = t % TURN_STEPS;
    proof {
        if t < 0 {
            lemma_neg_mod64(t as int);
        }
    }
    if m < 0 {
        m + TURN_STEPS
    } else {
        m
    }
}

/// Sine at a whole-step index.
pub fn sin_at_step(s: i64) -> (r: i64)
    requires
        0 <= s < TURN_STEPS,
    ensures
        r == sin_step(s as int),
        -FP <= r <= FP,
{
    if s <= 16 {
        sin_table_at(s)
    } else if s <= 32 {
        sin_table_at(32 - s)
    } else if s <= 48 {
        let v = sin_table_at(s - 32);
        -v
    } else {
        let v = sin_table_at(64 - s);
        -v
    }
}

/// Sine of a fixed-point angle, scaled by `FP`.
pub fn sin_fp(a: i64) -> (r: i64)
    ensures
        r == sin_spec(a as int),
        -FP <= r <= FP,
{
    let s = angle_step(a);
    sin_at_step(s)
}

/// Cosine of a fixed-point angle, scaled by `FP`.
pub fn cos_fp(a: i64) -> (r: i64)
    ensures
        r == cos_spec(a as int),
        -FP <= r <= FP,
{
    let s = angle_step(a);
    sin_at_step((s + 16) % TURN_STEPS)
}

/// Sine and cosine stay within one fixed-point unit of magnitude.
pub proof fn lemma_trig_bounds(a: int)
    ensures
        -FP <= sin_spec(a) <= FP,
        -FP <= cos_spec(a) <= FP,
{
    assert forall|k: int| 0 <= #[trigger] sin_table(k) <= 1024 by {
    }
}

/// At angle zero the sine vanishes and the cosine is one.
pub proof fn lemma_trig_zero()
    ensures
        sin_spec(0) == 0,
        cos_spec(0) == FP,
{
}

/// Values already inside one turn are their own step remainder.
proof fn lemma_mod64_small(x: int)
    requires
        0 <= x < 64,
    ensures
        x % 64 == x,
{
    lemma_fundamental_div_mod_converse(x, 64, 0, x);
}

/// Values one turn further reduce by a whole turn.
proof fn lemma_mod64_shift(x: int)
    requires
        64 <= x < 128,
    ensures
        x % 64 == x - 64,
{
    lemma_fundamental_div_mod_converse(x, 64, 1, x - 64);
}

/// The sine is odd and the cosine even in the angle.
pub proof fn lemma_trig_neg(a: int)
    ensures
        sin_spec(-a) == -sin_spec(a),
        cos_spec(-a) == cos_spec(a),
{
    let t = tdiv(a, FP as int);
    assert(tdiv(-a, FP as int) == -t);
    let n = t % 64;
    let n2 = (-t) % 64;
    if t == 0 {
        assert(n == 0 && n2 == 0);
    } else if t > 0 {
        lemma_neg_mod64(-t);
    } else {
        lemma_neg_mod64(t);
    }
    if n == 0 {
        assert(n2 == 0);
        lemma_mod64_small(16);
    } else {
        assert(n2 == 64 - n);
        assert(0 < n < 64);
        if n < 48 {
            lemma_mod64_small(n + 16);
        } else {
            lemma_mod64_shift(n + 16);
        }
        if n <= 16 {
            lemma_mod64_shift(n2 + 16);
        } else {
            lemma_mod64_small(n2 + 16);
        }
    }
}

/// Squared table entries a quarter turn apart sum to the squared scale,
/// up to the rounding slack of the table.
proof fn lemma_sin_table_pair(k: int)
    requires
        0 <= k <= 16,
    ensures
        1047962 <= sin_table(k) * sin_table(k) + sin_table(16 - k) * sin_table(16 - k) <= 1049764,
{
    if k == 0 {
        assert(sin_table(0) == 0 && sin_table(16) == 1024);
    } else if k == 1 {
        assert(sin_table(1) == 100 && sin_table(15) == 1019);
    } else if k == 2 {
        assert(sin_table(2) == 200 && sin_table(14) == 1004);
    } else if k == 3 {
        assert(sin_table(3) == 297 && sin_table(13) == 980);
    } else if k == 4 {
        assert(sin_table(4) == 392 && sin_table(12) == 946);
    } else if k == 5 {
        assert(sin_table(5) == 483 && sin_table(11) == 903);
    } else if k == 6 {
        assert(sin_table(6) == 569 && sin_table(10) == 851);
    } else if k == 7 {
        assert(sin_table(7) == 650 && sin_table(9) == 792);
    } else if k == 8 {
        assert(sin_table(8) == 724);
    } else if k == 9 {
        assert(sin_table(9) == 792 && sin_table(7) == 650);
    } else if k == 10 {
        assert(sin_table(10) == 851 && sin_table(6) == 569);
    } else if k == 11 {
        assert(sin_table(11) == 903 && sin_table(5) == 483);
    } else if k == 12 {
        assert(sin_table(12) == 946 && sin_table(4) == 392);
    } else if k == 13 {
        assert(sin_table(13) == 980 && sin_table(3) == 297);
    } else if k == 14 {
        assert(sin_table(14) == 1004 && sin_table(2) == 200);
    } else if k == 15 {
        assert(sin_table(15) == 1019 && sin_table(1) == 100);
    } else {
        assert(sin_table(16) == 1024 && sin_table(0) == 0);
    }
}

/// Squaring forgets the sign.
pub proof fn lemma_square_neg(x: int)
    ensures
        (-x) * (-x) == x * x,
{
    assert((-x) * (-x) == x * x) by (nonlinear_arith);
}

/// The squared sine and cosine of any angle sum to the squared scale,
/// up to the rounding slack of the table.
pub proof fn lemma_trig_norm(a: int)
    ensures
        1047962 <= sin_spec(a) * sin_spec(a) + cos_spec(a) * cos_spec(a) <= 1049764,
{
    let n = step_of(a);
    assert(0 <= n < 64);
    let s = sin_step(n);
    let c = sin_step((n + 16) % 64);
    if n < 48 {
        lemma_mod64_small(n + 16);
    } else {
        lemma_mod64_shift(n + 16);
    }
    if n <= 16 {
        assert(s == sin_table(n) && c == sin_table(16 - n));
        lemma_sin_table_pair(n);
    } else if n <= 32 {
        assert(s == sin_table(32 - n) && c == -sin_table(n - 16));
        lemma_square_neg(sin_table(n - 16));
        lemma_sin_table_pair(n - 16);
    } else if n <= 48 {
        assert(s == -sin_table(n - 32));
        lemma_square_neg(sin_table(n - 32));
        if n < 48 {
            assert(c == -sin_table(48 - n));
            lemma_square_neg(sin_table(48 - n));
        } else {
            assert(c == sin_table(0));
        }
        lemma_sin_table_pair(n - 32);
    } else {
        assert(s == -sin_table(64 - n) && c == sin_table(n - 48));
        lemma_square_neg(sin_table(64 - n));
        lemma_sin_table_pair(n - 48);
    }
}

} // verus!
