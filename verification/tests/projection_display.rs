use analemma::animation::AnimationState;
use analemma::projector::AnalemmaProjector;
use analemma::projector::ColourMilli;
use analemma::projector::SeasonBand;
use analemma::projector::Viewport;
use analemma::projector::current_sun_position;
use analemma::projector::named_day_positions;
use analemma::projector::path_segments;
use analemma::projector::season_band;
use analemma::projector::season_colour;
use analemma::projector::sky_gradient_band;
use analemma::solar::SunSample;
use analemma::solar::build_year_path;

fn default_projector() -> AnalemmaProjector {
    AnalemmaProjector::new(
        Viewport { width: 540_000_000, height: 960_000_000 },
        15,
        8,
    )
}

#[test]
fn project_places_the_solstice_sample_exactly() {
    let projector = default_projector();
    let sample = SunSample { horizontal_offset: 0, vertical_offset: 23_440_000, day: 172 };
    let point = projector.project(&sample);
    assert_eq!(point.x, 270_000_000);
    assert_eq!(point.y, 292_480_000);
}

#[test]
fn doubling_a_scale_doubles_the_displacement() {
    let viewport = Viewport { width: 540_000_000, height: 960_000_000 };
    let base = AnalemmaProjector::new(viewport, 15, 8);
    let doubled = AnalemmaProjector::new(viewport, 30, 16);
    let path = build_year_path();
    for sample in &path {
        let p1 = base.project(sample);
        let p2 = doubled.project(sample);
        assert_eq!(p2.x - 270_000_000, 2 * (p1.x - 270_000_000));
        assert_eq!(p2.y - 480_000_000, 2 * (p1.y - 480_000_000));
    }
}

#[test]
fn season_bands_split_the_year_at_the_documented_days() {
    assert_eq!(season_band(0), SeasonBand::WinterToSpring);
    assert_eq!(season_band(79), SeasonBand::WinterToSpring);
    assert_eq!(season_band(80), SeasonBand::SpringToSummer);
    assert_eq!(season_band(171), SeasonBand::SpringToSummer);
    assert_eq!(season_band(172), SeasonBand::SummerToAutumn);
    assert_eq!(season_band(265), SeasonBand::SummerToAutumn);
    assert_eq!(season_band(266), SeasonBand::AutumnToWinter);
    assert_eq!(season_band(364), SeasonBand::AutumnToWinter);
}

#[test]
fn season_colours_match_the_bands() {
    assert_eq!(
        season_colour(0),
        ColourMilli { red: 400, green: 400, blue: 1000, alpha: 1000 }
    );
    assert_eq!(
        season_colour(100),
        ColourMilli { red: 500, green: 1000, blue: 500, alpha: 1000 }
    );
    assert_eq!(
        season_colour(200),
        ColourMilli { red: 1000, green: 800, blue: 300, alpha: 1000 }
    );
    assert_eq!(
        season_colour(300),
        ColourMilli { red: 1000, green: 500, blue: 200, alpha: 1000 }
    );
}

#[test]
fn path_segments_close_the_figure_eight() {
    let projector = default_projector();
    let path = build_year_path();
    let segments = path_segments(&path, &projector);
    assert_eq!(segments.len(), 365);
    for i in 0..365 {
        let next = (i + 1) % 365;
        assert_eq!(segments[i].to, segments[next].from);
        assert_eq!(segments[i].colour, season_colour(i as u32));
    }
    assert_eq!(segments[364].to, segments[0].from);
}

#[test]
fn current_sun_position_reads_the_marked_day() {
    let projector = default_projector();
    let path = build_year_path();
    let marker = current_sun_position(&path, 136, &projector);
    assert_eq!(marker, Some(projector.project(&path[136])));
    assert_eq!(current_sun_position(&path, 365, &projector), None);
    assert_eq!(current_sun_position(&path, 400, &projector), None);
}

#[test]
fn named_days_carry_their_labels_and_positions() {
    let projector = default_projector();
    let path = build_year_path();
    let marks = named_day_positions(&path, &projector);
    assert_eq!(marks.len(), 4);
    let expected = [
        (80usize, "Vernal Equinox"),
        (172, "Summer Solstice"),
        (266, "Autumnal Equinox"),
        (355, "Winter Solstice"),
    ];
    for (mark, (day, label)) in marks.iter().zip(expected.iter()) {
        assert_eq!(mark.0, projector.project(&path[*day]));
        assert_eq!(mark.1, *label);
    }
}

#[test]
fn sky_gradient_interpolates_between_its_ends() {
    let bottom = sky_gradient_band(0, 100, 960_000_000);
    assert_eq!(bottom.colour, ColourMilli { red: 530, green: 810, blue: 920, alpha: 1000 });
    assert_eq!(bottom.top, 0);
    assert_eq!(bottom.height, 9_600_000);
    let top = sky_gradient_band(99, 100, 960_000_000);
    assert_eq!(top.colour, ColourMilli { red: 870, green: 950, blue: 1000, alpha: 1000 });
    assert_eq!(top.top, 950_400_000);
    let middle = sky_gradient_band(50, 100, 960_000_000);
    assert_eq!(middle.colour.red, 530 + 340 * 50 / 99);
}

#[test]
fn advance_wraps_at_the_year_boundary() {
    let mut state = AnimationState::new(364, 1000);
    state.advance(60_000);
    assert_eq!(state.current_day, 0);
    assert_eq!(state.speed_milli, 1000);
}

#[test]
fn advance_truncates_partial_days_and_keeps_speed() {
    let mut state = AnimationState::new(10, 1000);
    state.advance(59_999);
    assert_eq!(state.current_day, 10);
    state.advance(120_000);
    assert_eq!(state.current_day, 12);
    let mut still = AnimationState::new(42, 0);
    still.advance(1_000_000_000);
    assert_eq!(still.current_day, 42);
}

#[test]
fn advance_covers_many_years_without_losing_the_wrap() {
    let mut state = AnimationState::new(0, 2000);
    state.advance(365 * 60_000);
    assert_eq!(state.current_day, (2 * 365) % 365);
    let mut fast = AnimationState::new(100, 3000);
    fast.advance(400 * 60_000);
    assert_eq!(fast.current_day, (100 + 3 * 400) % 365);
}
