//! The solar position model: for a day of the orbital year, the Sun's
//! horizontal offset (equation of time, quartered into a display unit) and
//! vertical offset (solar declination), both in micro display-units.
//!
//! The model pairs an eccentricity amplitude of 9.655 with an obliquity
//! amplitude of 7.873 minutes and divides the year into 365.25 days; the
//! constants are named here so the configuration is visible rather than
//! buried in the formulas. Days are passed in micro-days, so fractional
//! days are exact inputs.

use crate::trig::SCALE;
use crate::trig::TWO_PI_MICRO;
use crate::trig::cos_fp;
use crate::trig::cos_micro;
use crate::trig::lemma_cos_fp_peak;
use crate::trig::lemma_sin_fp_bounds;
use crate::trig::sin_fp;
use crate::trig::sin_micro;
use vstd::arithmetic::div_mod::lemma_div_is_ordered;
use vstd::arithmetic::div_mod::lemma_div_nonincreasing;
use vstd::arithmetic::div_mod::lemma_div_pos_is_pos;
use vstd::arithmetic::div_mod::lemma_mod_add_multiples_vanish;
use vstd::arithmetic::div_mod::lemma_mod_division_less_than_divisor;
use vstd::arithmetic::div_mod::lemma_mod_self_0;
use vstd::arithmetic::div_mod::lemma_multiply_divide_le;
use vstd::arithmetic::div_mod::lemma_multiply_divide_lt;
use vstd::arithmetic::mul::lemma_mul_inequality;
use vstd::arithmetic::mul::lemma_mul_is_commutative;
use vstd::arithmetic::mul::lemma_mul_nonnegative;
use vstd::prelude::*;

verus! {

/// Whole days in the wrapped calendar year the path is sampled over.
pub const DAYS_PER_YEAR: u32 = 365;

/// One day, in micro-days.
pub const DAY_MICRO: u64 = 1_000_000;

/// The orbital year, 365.25 days, in micro-days.
pub const YEAR_MICRO: u64 = 365_250_000;

/// The approximate northern summer solstice, day 172, in micro-days.
pub const SOLSTICE_DAY_MICRO: u64 = 172_000_000;

/// Amplitude of the orbital-eccentricity sinusoid, 9.655 minutes scaled.
pub const ECCENTRICITY_AMPL_MICRO: i64 = 9_655_000;

/// Amplitude of the axial-obliquity sinusoid, 7.873 minutes scaled.
pub const OBLIQUITY_AMPL_MICRO: i64 = 7_873_000;

/// Phase of the obliquity sinusoid, 3.588 radians scaled, aligning its peak
/// with the solstice.
pub const OBLIQUITY_PHASE_MICRO: u64 = 3_588_000;

/// Earth's axial tilt, 23.44 degrees scaled: the swing of the declination.
pub const AXIAL_TILT_MICRO: i64 = 23_440_000;

/// The horizontal offset never exceeds a quarter of the two amplitudes:
/// `(ECCENTRICITY_AMPL_MICRO + OBLIQUITY_AMPL_MICRO) / 4`.
pub const HORIZONTAL_OFFSET_MAX: i64 = 4_382_000;

/// Division that rounds toward zero, the rounding the scaled products use.
pub open spec fn div_trunc(a: int, b: int) -> int {
    if a >= 0 {
        a / b
    } else {
        -((-a) / b)
    }
}

/// The angle swept since the year began: the day reduced into one orbital
/// year and turned into micro-radians of `[0, TWO_PI_MICRO)`.
pub open spec fn day_angle(day_micro: int) -> int {
    ((day_micro % (YEAR_MICRO as int)) * (TWO_PI_MICRO as int)) / (YEAR_MICRO as int)
}

/// The equation of time: the eccentricity sinusoid at twice the day angle
/// plus the phase-shifted obliquity sinusoid, quartered into display units.
pub open spec fn equation_of_time_spec(day_micro: int) -> int {
    let a: int = day_angle(day_micro);
    let ecc: int = div_trunc(
        (ECCENTRICITY_AMPL_MICRO as int) * sin_fp((2 * a) % (TWO_PI_MICRO as int)),
        SCALE as int,
    );
    let obl: int = div_trunc(
        (OBLIQUITY_AMPL_MICRO as int) * sin_fp(
            (a + OBLIQUITY_PHASE_MICRO as int) % (TWO_PI_MICRO as int),
        ),
        SCALE as int,
    );
    div_trunc(ecc + obl, 4)
}

/// The solar declination: the axial tilt scaled by the cosine of the angle
/// since the summer solstice.
pub open spec fn solar_declination_spec(day_micro: int) -> int {
    let a: int = day_angle(day_micro);
    let off: int = (a + (TWO_PI_MICRO as int - day_angle(SOLSTICE_DAY_MICRO as int))) % (
    TWO_PI_MICRO as int);
    div_trunc((AXIAL_TILT_MICRO as int) * cos_fp(off), SCALE as int)
}

/// The day angle always lands in `[0, TWO_PI_MICRO)`.
pub proof fn lemma_day_angle_range(day_micro: int)
    ensures
        0 <= day_angle(day_micro) < TWO_PI_MICRO as int,
{
    let y: int = YEAR_MICRO as int;
    let t: int = TWO_PI_MICRO as int;
    let r: int = day_micro % y;
    lemma_mod_division_less_than_divisor(day_micro, y);
    lemma_mul_nonnegative(r, t);
    lemma_div_pos_is_pos(r * t, y);
    lemma_mul_inequality(r, y - 1, t);
    lemma_multiply_divide_lt(r * t, y, t);
}

/// Rounding toward zero keeps a symmetric bound: a numerator within
/// `[-m * b, m * b]` divides to a quotient within `[-m, m]`.
pub proof fn lemma_div_trunc_sym_bound(a: int, b: int, m: int)
    requires
        0 < b,
        0 <= m,
        -(m * b) <= a <= m * b,
    ensures
        -m <= div_trunc(a, b) <= m,
{
    lemma_mul_is_commutative(m, b);
    if a >= 0 {
        lemma_div_pos_is_pos(a, b);
        lemma_multiply_divide_le(a, b, m);
    } else {
        lemma_div_pos_is_pos(-a, b);
        lemma_multiply_divide_le(-a, b, m);
    }
}

/// Rounding toward zero is monotone in the numerator.
pub proof fn lemma_div_trunc_ordered(a: int, c: int, b: int)
    requires
        0 < b,
        a <= c,
    ensures
        div_trunc(a, b) <= div_trunc(c, b),
{
    if a >= 0 {
        lemma_div_is_ordered(a, c, b);
    } else if c >= 0 {
        lemma_div_pos_is_pos(-a, b);
        lemma_div_pos_is_pos(c, b);
    } else {
        lemma_div_is_ordered(-c, -a, b);
    }
}

/// Evaluate the day angle.
pub fn day_angle_micro(day_micro: u64) -> (a: u64)
    ensures
        a == day_angle(day_micro as int),
        a < TWO_PI_MICRO,
{
    proof {
        lemma_day_angle_range(day_micro as int);
        lemma_mul_inequality(
            (day_micro as int) % (YEAR_MICRO as int),
            YEAR_MICRO as int - 1,
            TWO_PI_MICRO as int,
        );
        lemma_mod_division_less_than_divisor(day_micro as int, YEAR_MICRO as int);
    }
    let r: u64 = day_micro % YEAR_MICRO;
    (r * TWO_PI_MICRO) / YEAR_MICRO
}

/// Divide rounding toward zero, for a positive divisor.
pub fn div_trunc_i64(a: i64, b: i64) -> (r: i64)
    requires
        b > 0,
        a > i64::MIN,
    ensures
        r == div_trunc(a as int, b as int),
{
    if a >= 0 {
        proof {
            lemma_div_pos_is_pos(a as int, b as int);
            lemma_div_nonincreasing(a as int, b as int);
        }
        ((a as u64) / (b as u64)) as i64
    } else {
        let n: u64 = (-a) as u64;
        proof {
            lemma_div_pos_is_pos(n as int, b as int);
            lemma_div_nonincreasing(n as int, b as int);
        }
        -((n / (b as u64)) as i64)
    }
}

/// The Sun's horizontal offset for a day, in micro display-units.
pub fn equation_of_time(day_micro: u64) -> (r: i64)
    ensures
        r == equation_of_time_spec(day_micro as int),
        -HORIZONTAL_OFFSET_MAX <= r <= HORIZONTAL_OFFSET_MAX,
{
    let a: u64 = day_angle_micro(day_micro);
    let ecc_arg: u64 = (2 * a) % TWO_PI_MICRO;
    let obl_arg: u64 = (a + OBLIQUITY_PHASE_MICRO) % TWO_PI_MICRO;
    proof {
        lemma_mod_division_less_than_divisor(2 * a as int, TWO_PI_MICRO as int);
        lemma_mod_division_less_than_divisor(
            a as int + OBLIQUITY_PHASE_MICRO as int,
            TWO_PI_MICRO as int,
        );
    }
    let s_ecc: i64 = sin_micro(ecc_arg);
    let s_obl: i64 = sin_micro(obl_arg);
    proof {
        lemma_div_trunc_sym_bound(
            ECCENTRICITY_AMPL_MICRO as int * s_ecc as int,
            SCALE as int,
            ECCENTRICITY_AMPL_MICRO as int,
        );
        lemma_div_trunc_sym_bound(
            OBLIQUITY_AMPL_MICRO as int * s_obl as int,
            SCALE as int,
            OBLIQUITY_AMPL_MICRO as int,
        );
    }
    let ecc: i64 = div_trunc_i64(ECCENTRICITY_AMPL_MICRO * s_ecc, SCALE as i64);
    let obl: i64 = div_trunc_i64(OBLIQUITY_AMPL_MICRO * s_obl, SCALE as i64);
    proof {
        lemma_div_trunc_sym_bound(ecc as int + obl as int, 4, HORIZONTAL_OFFSET_MAX as int);
    }
    div_trunc_i64(ecc + obl, 4)
}

/// The Sun's vertical offset for a day, in micro display-units.
pub fn solar_declination(day_micro: u64) -> (r: i64)
    ensures
        r == solar_declination_spec(day_micro as int),
        -AXIAL_TILT_MICRO <= r <= AXIAL_TILT_MICRO,
{
    let a: u64 = day_angle_micro(day_micro);
    let sa: u64 = day_angle_micro(SOLSTICE_DAY_MICRO);
    let off: u64 = (a + (TWO_PI_MICRO - sa)) % TWO_PI_MICRO;
    proof {
        lemma_mod_division_less_than_divisor(
            a as int + (TWO_PI_MICRO as int - sa as int),
            TWO_PI_MICRO as int,
        );
    }
    let c: i64 = cos_micro(off);
    proof {
        lemma_div_trunc_sym_bound(
            AXIAL_TILT_MICRO as int * c as int,
            SCALE as int,
            AXIAL_TILT_MICRO as int,
        );
    }
    div_trunc_i64(AXIAL_TILT_MICRO * c, SCALE as i64)
}

/// Both offsets for a day: the horizontal equation of time and the vertical
/// declination, in micro display-units.
pub fn position_for_day(day_micro: u64) -> (r: (i64, i64))
    ensures
        r.0 == equation_of_time_spec(day_micro as int),
        r.1 == solar_declination_spec(day_micro as int),
        -HORIZONTAL_OFFSET_MAX <= r.0 <= HORIZONTAL_OFFSET_MAX,
        -AXIAL_TILT_MICRO <= r.1 <= AXIAL_TILT_MICRO,
{
    (equation_of_time(day_micro), solar_declination(day_micro))
}

/// One day's sample of the Sun's apparent position: the two angular offsets
/// in micro display-units and the day of year they belong to.
pub struct SunSample {
    pub horizontal_offset: i64,
    pub vertical_offset: i64,
    pub day: u32,
}

/// Sample the model once per whole day, in day order: the year's path.
/// The path always holds exactly `DAYS_PER_YEAR` samples, the sample at
/// index `i` belongs to day `i`, and its offsets are the model's values for
/// that day.
pub fn build_year_path() -> (path: Vec<SunSample>)
    ensures
        path@.len() == DAYS_PER_YEAR,
        forall|i: int|
            0 <= i < DAYS_PER_YEAR ==> {
                &&& (#[trigger] path@[i]).day == i
                &&& path@[i].horizontal_offset == equation_of_time_spec(i * DAY_MICRO as int)
                &&& path@[i].vertical_offset == solar_declination_spec(i * DAY_MICRO as int)
                &&& -HORIZONTAL_OFFSET_MAX <= path@[i].horizontal_offset <= HORIZONTAL_OFFSET_MAX
                &&& -AXIAL_TILT_MICRO <= path@[i].vertical_offset <= AXIAL_TILT_MICRO
            },
{
    let mut path: Vec<SunSample> = Vec::new();
    let mut day: u32 = 0;
    while day < DAYS_PER_YEAR
        invariant
            day <= DAYS_PER_YEAR,
            path@.len() == day,
            forall|i: int|
                0 <= i < day ==> {
                    &&& (#[trigger] path@[i]).day == i
                    &&& path@[i].horizontal_offset == equation_of_time_spec(i * DAY_MICRO as int)
                    &&& path@[i].vertical_offset == solar_declination_spec(i * DAY_MICRO as int)
                    &&& -HORIZONTAL_OFFSET_MAX <= path@[i].horizontal_offset
                        <= HORIZONTAL_OFFSET_MAX
                    &&& -AXIAL_TILT_MICRO <= path@[i].vertical_offset <= AXIAL_TILT_MICRO
                },
        decreases DAYS_PER_YEAR - day,
    {
        let pos: (i64, i64) = position_for_day((day as u64) * DAY_MICRO);
        path.push(SunSample { horizontal_offset: pos.0, vertical_offset: pos.1, day });
        day = day + 1;
    }
    path
}

/// For every day of the year the vertical offset stays within the axial
/// tilt: the declination never swings past plus or minus 23.44 degrees.
pub proof fn lemma_declination_bounded(day_micro: int)
    requires
        0 <= day_micro < DAYS_PER_YEAR as int * DAY_MICRO as int,
    ensures
        -(AXIAL_TILT_MICRO as int) <= solar_declination_spec(day_micro) <= AXIAL_TILT_MICRO as int,
{
    let t: int = TWO_PI_MICRO as int;
    let a: int = day_angle(day_micro);
    let sa: int = day_angle(SOLSTICE_DAY_MICRO as int);
    lemma_day_angle_range(day_micro);
    lemma_day_angle_range(SOLSTICE_DAY_MICRO as int);
    let off: int = (a + (t - sa)) % t;
    lemma_mod_division_less_than_divisor(a + (t - sa), t);
    lemma_cos_fp_peak(off);
    lemma_div_trunc_sym_bound(
        (AXIAL_TILT_MICRO as int) * cos_fp(off),
        SCALE as int,
        AXIAL_TILT_MICRO as int,
    );
}

/// Over the whole year the vertical offset is largest at the summer
/// solstice, day 172, where it reaches 23.439976 display units — the axial
/// tilt, less what the fixed-point rounding gives away.
pub proof fn lemma_declination_max_at_solstice(day_micro: int)
    requires
        0 <= day_micro < DAYS_PER_YEAR as int * DAY_MICRO as int,
    ensures
        solar_declination_spec(day_micro) <= solar_declination_spec(SOLSTICE_DAY_MICRO as int),
        solar_declination_spec(SOLSTICE_DAY_MICRO as int) == 23_439_976,
{
    let t: int = TWO_PI_MICRO as int;
    let a: int = day_angle(day_micro);
    let sa: int = day_angle(SOLSTICE_DAY_MICRO as int);
    lemma_day_angle_range(day_micro);
    lemma_day_angle_range(SOLSTICE_DAY_MICRO as int);
    let off: int = (a + (t - sa)) % t;
    lemma_mod_division_less_than_divisor(a + (t - sa), t);
    lemma_mod_self_0(t);
    lemma_cos_fp_peak(off);
    lemma_cos_fp_peak(0);
    lemma_div_trunc_ordered(
        (AXIAL_TILT_MICRO as int) * cos_fp(off),
        (AXIAL_TILT_MICRO as int) * cos_fp(0),
        SCALE as int,
    );
    crate::trig::lemma_sin_peak_value();
    vstd::arithmetic::div_mod::lemma_fundamental_div_mod_converse(
        (AXIAL_TILT_MICRO as int) * 999_999,
        SCALE as int,
        23_439_976,
        560_000,
    );
}

/// The model is periodic in the orbital year: a day and the same day one
/// full 365.25-day year later give the same pair of offsets, exactly.
pub proof fn lemma_position_periodic(day_micro: int)
    requires
        0 <= day_micro,
    ensures
        equation_of_time_spec(day_micro + YEAR_MICRO as int) == equation_of_time_spec(day_micro),
        solar_declination_spec(day_micro + YEAR_MICRO as int) == solar_declination_spec(day_micro),
{
    let y: int = YEAR_MICRO as int;
    lemma_mod_add_multiples_vanish(day_micro, y);
    assert(day_angle(day_micro + y) == day_angle(day_micro));
}

/// For every day of the year the horizontal offset stays within a quarter
/// of the summed sinusoid amplitudes.
pub proof fn lemma_equation_of_time_bounded(day_micro: int)
    requires
        0 <= day_micro,
    ensures
        -(HORIZONTAL_OFFSET_MAX as int) <= equation_of_time_spec(day_micro)
            <= HORIZONTAL_OFFSET_MAX as int,
{
    let t: int = TWO_PI_MICRO as int;
    let a: int = day_angle(day_micro);
    lemma_day_angle_range(day_micro);
    lemma_mod_division_less_than_divisor(2 * a, t);
    lemma_mod_division_less_than_divisor(a + OBLIQUITY_PHASE_MICRO as int, t);
    lemma_sin_fp_bounds((2 * a) % t);
    lemma_sin_fp_bounds((a + OBLIQUITY_PHASE_MICRO as int) % t);
    let ecc: int = div_trunc(
        (ECCENTRICITY_AMPL_MICRO as int) * sin_fp((2 * a) % t),
        SCALE as int,
    );
    let obl: int = div_trunc(
        (OBLIQUITY_AMPL_MICRO as int) * sin_fp((a + OBLIQUITY_PHASE_MICRO as int) % t),
        SCALE as int,
    );
    lemma_div_trunc_sym_bound(
        (ECCENTRICITY_AMPL_MICRO as int) * sin_fp((2 * a) % t),
        SCALE as int,
        ECCENTRICITY_AMPL_MICRO as int,
    );
    lemma_div_trunc_sym_bound(
        (OBLIQUITY_AMPL_MICRO as int) * sin_fp((a + OBLIQUITY_PHASE_MICRO as int) % t),
        SCALE as int,
        OBLIQUITY_AMPL_MICRO as int,
    );
    lemma_div_trunc_sym_bound(ecc + obl, 4, HORIZONTAL_OFFSET_MAX as int);
}

} // verus!
