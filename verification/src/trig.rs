//! Fixed-point circular functions on micro-radians.
//!
//! `sin_micro` evaluates a rational approximation of the sine (Bhaskara's
//! classical formula, `16 t (pi - t) / (5 pi^2 - 4 t (pi - t))` on `[0, pi]`,
//! extended to `[0, 2 pi)` by odd symmetry) entirely over integers. The
//! argument is an angle in micro-radians and the result is scaled by
//! `SCALE`, so `SCALE` stands for one. The approximation stays within
//! `[-SCALE, SCALE]` and attains its largest value at `HALF_PI_MICRO`; both
//! facts are proved below and carry the bound and phase properties of the
//! solar model.

use vstd::arithmetic::div_mod::lemma_div_is_ordered;
use vstd::arithmetic::div_mod::lemma_div_multiples_vanish_quotient;
use vstd::arithmetic::div_mod::lemma_div_pos_is_pos;
use vstd::arithmetic::div_mod::lemma_fundamental_div_mod_converse;
use vstd::arithmetic::div_mod::lemma_mod_division_less_than_divisor;
use vstd::arithmetic::div_mod::lemma_small_mod;
use vstd::arithmetic::div_mod::lemma_mod_bound;
use vstd::arithmetic::mul::lemma_mul_inequality;
use vstd::arithmetic::mul::lemma_mul_is_commutative;
use vstd::arithmetic::mul::lemma_mul_strictly_positive;
use vstd::arithmetic::div_mod::lemma_multiply_divide_le;
use vstd::prelude::*;

verus! {

/// One, in fixed point: every scaled quantity counts millionths.
pub const SCALE: u64 = 1_000_000;

/// The circle constant pi in micro-radians, rounded to the nearest integer.
pub const PI_MICRO: u64 = 3_141_593;

/// Half of `PI_MICRO`, rounded down; `PI_MICRO == 2 * HALF_PI_MICRO + 1`.
pub const HALF_PI_MICRO: u64 = 1_570_796;

/// A full turn, `2 * PI_MICRO`.
pub const TWO_PI_MICRO: u64 = 6_283_186;

/// `5 * pi^2` in micro-units: `5 * PI_MICRO * PI_MICRO / SCALE`, rounded down.
pub const SIN_DENOM: u64 = 49_348_032;

/// The largest value `sin_q` takes on `[0, PI_MICRO]`:
/// `HALF_PI_MICRO * (HALF_PI_MICRO + 1) / SCALE`, rounded down.
pub const Q_MAX: u64 = 2_467_401;

/// `HALF_PI_MICRO * (HALF_PI_MICRO + 1)`, the largest value of
/// `x * (PI_MICRO - x)` over the integers of `[0, PI_MICRO]`.
pub const PROD_MAX: u64 = 2_467_401_644_412;

/// The scaled quarter-turn product `x (pi - x)` of Bhaskara's formula.
pub open spec fn sin_q(x: int) -> int {
    (x * (PI_MICRO as int - x)) / (SCALE as int)
}

/// Bhaskara's approximation of the sine on `[0, PI_MICRO]`, scaled by `SCALE`.
pub open spec fn sin_half(x: int) -> int {
    let q: int = sin_q(x);
    (16 * q * (SCALE as int)) / (SIN_DENOM as int - 4 * q)
}

/// The scaled sine on `[0, TWO_PI_MICRO)`: odd extension of `sin_half`.
pub open spec fn sin_fp(x: int) -> int {
    if x <= PI_MICRO as int {
        sin_half(x)
    } else {
        -sin_half(x - PI_MICRO as int)
    }
}

/// The scaled cosine: the sine shifted by a quarter turn.
pub open spec fn cos_fp(x: int) -> int {
    sin_fp((x + HALF_PI_MICRO as int) % (TWO_PI_MICRO as int))
}

/// The largest value the scaled sine attains, `sin_half(HALF_PI_MICRO)`.
pub open spec fn sin_peak() -> int {
    sin_half(HALF_PI_MICRO as int)
}

/// On the integers of `[0, PI_MICRO]` the product `x (pi - x)` is
/// nonnegative and largest at `HALF_PI_MICRO`, where it equals `PROD_MAX`.
proof fn lemma_sin_prod_bounds(x: int)
    requires
        0 <= x <= PI_MICRO as int,
    ensures
        0 <= x * (PI_MICRO as int - x) <= PROD_MAX as int,
        HALF_PI_MICRO as int * (PI_MICRO as int - HALF_PI_MICRO as int) == PROD_MAX as int,
{
    let h: int = HALF_PI_MICRO as int;
    assert(x * (PI_MICRO as int - x) >= 0) by (nonlinear_arith)
        requires
            0 <= x <= PI_MICRO as int,
    ;
    assert(h * (h + 1) - x * ((2 * h + 1) - x) == (x - h) * (x - h - 1)) by (nonlinear_arith);
    if x <= h {
        assert((x - h) * (x - h - 1) >= 0) by (nonlinear_arith)
            requires
                x <= h,
        ;
    } else {
        assert((x - h) * (x - h - 1) >= 0) by (nonlinear_arith)
            requires
                x >= h + 1,
        ;
    }
}

/// `sin_q` is nonnegative on `[0, PI_MICRO]` and largest at the quarter
/// turn, where it equals `Q_MAX`.
pub proof fn lemma_sin_q_bounds(x: int)
    requires
        0 <= x <= PI_MICRO as int,
    ensures
        0 <= sin_q(x) <= Q_MAX as int,
        sin_q(HALF_PI_MICRO as int) == Q_MAX as int,
{
    let p: int = x * (PI_MICRO as int - x);
    lemma_sin_prod_bounds(x);
    lemma_sin_prod_bounds(HALF_PI_MICRO as int);
    lemma_div_pos_is_pos(p, SCALE as int);
    lemma_div_is_ordered(p, PROD_MAX as int, SCALE as int);
    lemma_fundamental_div_mod_converse(
        PROD_MAX as int,
        SCALE as int,
        Q_MAX as int,
        PROD_MAX as int - Q_MAX as int * SCALE as int,
    );
}

/// Quotients of nonnegative fractions are ordered as the cross products are.
proof fn lemma_div_frac_le(a1: int, b1: int, a2: int, b2: int)
    requires
        0 <= a1,
        0 <= a2,
        0 < b1,
        0 < b2,
        a1 * b2 <= a2 * b1,
    ensures
        a1 / b1 <= a2 / b2,
{
    lemma_div_multiples_vanish_quotient(b2, a1, b1);
    lemma_div_multiples_vanish_quotient(b1, a2, b2);
    lemma_mul_strictly_positive(b2, b1);
    lemma_mul_is_commutative(a1, b2);
    lemma_mul_is_commutative(a2, b1);
    lemma_mul_is_commutative(b2, b1);
    lemma_div_is_ordered(b2 * a1, b1 * a2, b2 * b1);
}

/// `sin_half` lies within `[0, sin_peak()]` on `[0, PI_MICRO]`, and the
/// peak itself does not exceed `SCALE`, one.
pub proof fn lemma_sin_half_bounds(x: int)
    requires
        0 <= x <= PI_MICRO as int,
    ensures
        0 <= sin_half(x) <= sin_peak(),
        sin_peak() <= SCALE as int,
{
    let sc: int = SCALE as int;
    let dd: int = SIN_DENOM as int;
    let q: int = sin_q(x);
    let qm: int = Q_MAX as int;
    lemma_sin_q_bounds(x);
    lemma_sin_q_bounds(HALF_PI_MICRO as int);
    let num: int = 16 * q * sc;
    let den: int = dd - 4 * q;
    let num_m: int = 16 * qm * sc;
    let den_m: int = dd - 4 * qm;
    lemma_div_pos_is_pos(num, den);
    assert(num * den_m <= num_m * den) by (nonlinear_arith)
        requires
            0 <= q <= qm,
            num == 16 * q * sc,
            den == dd - 4 * q,
            num_m == 16 * qm * sc,
            den_m == dd - 4 * qm,
            0 < sc,
            0 < dd,
    ;
    lemma_div_frac_le(num, den, num_m, den_m);
    lemma_mul_inequality(16 * qm, den_m, sc);
    lemma_multiply_divide_le(num_m, den_m, sc);
}

/// The scaled sine stays within `[-sin_peak(), sin_peak()]`, hence within
/// `[-SCALE, SCALE]`, over the whole turn.
pub proof fn lemma_sin_fp_bounds(x: int)
    requires
        0 <= x < TWO_PI_MICRO as int,
    ensures
        -sin_peak() <= sin_fp(x) <= sin_peak(),
        0 < sin_peak() <= SCALE as int,
{
    if x <= PI_MICRO as int {
        lemma_sin_half_bounds(x);
    } else {
        lemma_sin_half_bounds(x - PI_MICRO as int);
    }
    lemma_sin_half_bounds(HALF_PI_MICRO as int);
    lemma_sin_peak_value();
}

/// The peak of the scaled sine evaluates to 999_999: one, less the
/// millionth the fixed-point rounding gives away.
pub proof fn lemma_sin_peak_value()
    ensures
        sin_peak() == 999_999,
{
    lemma_sin_q_bounds(HALF_PI_MICRO as int);
    let num: int = 16 * (Q_MAX as int) * (SCALE as int);
    let den: int = SIN_DENOM as int - 4 * (Q_MAX as int);
    lemma_fundamental_div_mod_converse(num, den, 999_999, num - 999_999 * den);
}

/// The scaled cosine peaks at angle zero, where it equals `sin_peak()`.
pub proof fn lemma_cos_fp_peak(x: int)
    requires
        0 <= x,
    ensures
        -sin_peak() <= cos_fp(x) <= sin_peak(),
        cos_fp(0) == sin_peak(),
        0 < sin_peak() <= SCALE as int,
{
    let t: int = TWO_PI_MICRO as int;
    let y: int = (x + HALF_PI_MICRO as int) % t;
    lemma_mod_bound(x + HALF_PI_MICRO as int, t);
    lemma_sin_fp_bounds(y);
    lemma_small_mod(HALF_PI_MICRO as nat, TWO_PI_MICRO as nat);
    lemma_sin_half_bounds(HALF_PI_MICRO as int);
}

/// Evaluate `sin_half` on `[0, PI_MICRO]`.
fn sin_half_micro(x: u64) -> (r: u64)
    requires
        x <= PI_MICRO,
    ensures
        r == sin_half(x as int),
        r <= SCALE,
{
    proof {
        lemma_sin_prod_bounds(x as int);
        lemma_sin_q_bounds(x as int);
        lemma_sin_half_bounds(x as int);
    }
    let p: u64 = x * (PI_MICRO - x);
    let q: u64 = p / SCALE;
    let num: u64 = 16 * q * SCALE;
    let den: u64 = SIN_DENOM - 4 * q;
    num / den
}

/// Evaluate the scaled sine at an angle of `[0, TWO_PI_MICRO)` micro-radians.
pub fn sin_micro(x: u64) -> (r: i64)
    requires
        x < TWO_PI_MICRO,
    ensures
        r == sin_fp(x as int),
        -(SCALE as i64) <= r <= SCALE as i64,
{
    if x <= PI_MICRO {
        let m: u64 = sin_half_micro(x);
        m as i64
    } else {
        let m: u64 = sin_half_micro(x - PI_MICRO);
        -(m as i64)
    }
}

/// Evaluate the scaled cosine at an angle of `[0, TWO_PI_MICRO)` micro-radians.
pub fn cos_micro(x: u64) -> (r: i64)
    requires
        x < TWO_PI_MICRO,
    ensures
        r == cos_fp(x as int),
        -(SCALE as i64) <= r <= SCALE as i64,
{
    let y: u64 = (x + HALF_PI_MICRO) % TWO_PI_MICRO;
    proof {
        lemma_mod_division_less_than_divisor(x as int + HALF_PI_MICRO as int, TWO_PI_MICRO as int);
    }
    sin_micro(y)
}

} // verus!
