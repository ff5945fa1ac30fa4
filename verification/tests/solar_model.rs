use analemma::solar::AXIAL_TILT_MICRO;
use analemma::solar::DAY_MICRO;
use analemma::solar::HORIZONTAL_OFFSET_MAX;
use analemma::solar::YEAR_MICRO;
use analemma::solar::build_year_path;
use analemma::solar::equation_of_time;
use analemma::solar::position_for_day;
use analemma::solar::solar_declination;
use analemma::trig::cos_micro;
use analemma::trig::sin_micro;

#[test]
fn sine_hits_its_landmarks() {
    assert_eq!(sin_micro(0), 0);
    assert_eq!(sin_micro(1_570_796), 999_999);
    assert_eq!(sin_micro(3_141_593), 0);
    assert_eq!(sin_micro(3_141_593 + 1_570_796), -999_999);
    assert_eq!(cos_micro(0), 999_999);
}

#[test]
fn sine_tracks_the_real_sine() {
    for step in 0..629 {
        let x: u64 = step * 10_000;
        let approx = sin_micro(x) as f64 / 1e6;
        let real = (x as f64 / 1e6).sin();
        assert!(
            (approx - real).abs() < 0.005,
            "sine off at {x}: {approx} vs {real}"
        );
    }
}

#[test]
fn declination_bounded_by_axial_tilt_all_year() {
    for day in 0..365u64 {
        let v = solar_declination(day * DAY_MICRO);
        assert!(-AXIAL_TILT_MICRO <= v && v <= AXIAL_TILT_MICRO, "day {day}");
    }
}

#[test]
fn equation_of_time_bounded_all_year() {
    for day in 0..365u64 {
        let h = equation_of_time(day * DAY_MICRO);
        assert!(
            -HORIZONTAL_OFFSET_MAX <= h && h <= HORIZONTAL_OFFSET_MAX,
            "day {day}"
        );
    }
}

#[test]
fn declination_peaks_at_summer_solstice() {
    let at_solstice = solar_declination(172 * DAY_MICRO);
    assert_eq!(at_solstice, 23_439_976);
    for day in 0..365u64 {
        assert!(solar_declination(day * DAY_MICRO) <= at_solstice, "day {day}");
    }
}

#[test]
fn declination_bottoms_out_near_winter_solstice() {
    let mut argmin: u64 = 0;
    let mut least: i64 = i64::MAX;
    for day in 0..365u64 {
        let v = solar_declination(day * DAY_MICRO);
        if v < least {
            least = v;
            argmin = day;
        }
    }
    assert_eq!(argmin, 355);
    assert_eq!(least, -23_439_484);
}

#[test]
fn position_is_periodic_in_the_orbital_year() {
    for day_micro in [0, 1, 999_999, 5_000_000, 172_000_000, 364_999_999] {
        assert_eq!(position_for_day(day_micro), position_for_day(day_micro + YEAR_MICRO));
        assert_eq!(
            position_for_day(day_micro),
            position_for_day(day_micro + 3 * YEAR_MICRO)
        );
    }
}

#[test]
fn exact_positions_for_key_days() {
    assert_eq!(position_for_day(0), (-850_772, -23_044_614));
    assert_eq!(equation_of_time(266 * DAY_MICRO), 2_528_054);
    assert_eq!(solar_declination(355 * DAY_MICRO), -23_439_484);
    assert_eq!(position_for_day(136 * DAY_MICRO), (-3_099_919, 19_056_110));
}

#[test]
fn offsets_track_the_real_formulas() {
    let tau = std::f64::consts::PI * 2.0;
    for day in 0..365u64 {
        let (h, v) = position_for_day(day * DAY_MICRO);
        let angle = day as f64 / 365.25 * tau;
        let real_h = (9.655 * (2.0 * angle).sin() + 7.873 * (angle + 3.588).sin()) / 4.0;
        let real_v = 23.44 * (angle - 172.0 / 365.25 * tau).cos();
        assert!((h as f64 / 1e6 - real_h).abs() < 0.05, "day {day}");
        assert!((v as f64 / 1e6 - real_v).abs() < 0.05, "day {day}");
    }
}

#[test]
fn year_path_has_one_sample_per_day_in_order() {
    let path = build_year_path();
    assert_eq!(path.len(), 365);
    for (i, sample) in path.iter().enumerate() {
        assert_eq!(sample.day, i as u32);
        let (h, v) = position_for_day(i as u64 * DAY_MICRO);
        assert_eq!(sample.horizontal_offset, h);
        assert_eq!(sample.vertical_offset, v);
    }
}
