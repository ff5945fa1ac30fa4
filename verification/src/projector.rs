//! The analemma projector: turns the model's angular offsets into screen
//! coordinates, and picks the display colours the host draws with.
//!
//! Coordinates are micro-pixels. The projection places a sample relative to
//! the viewport's centre, scaling the horizontal offset by
//! `horizontal_scale` and the vertical one by `vertical_scale`, with the
//! vertical axis inverted so a rising declination moves the point up the
//! screen. The scales are whole multipliers, so the projection is exactly
//! affine in them. Colours are given per-mille, in `[0, 1000]` a channel.

use crate::solar::DAYS_PER_YEAR;
use crate::solar::SunSample;
use vstd::prelude::*;

verus! {

/// The widest viewport dimension the projector accepts, in micro-pixels
/// (four million pixels).
pub const VIEWPORT_DIM_MAX: i64 = 4_000_000_000_000;

/// The largest scale factor the projector accepts.
pub const PROJECTION_SCALE_MAX: i64 = 1_000_000;

/// The largest offset magnitude `project` accepts, in micro display-units;
/// the model's offsets stay far inside it.

pub const SAMPLE_OFFSET_MAX: i64 = 1_000_000_000_000;

/// The horizontal scale that fits the path into the default display.
pub const DEFAULT_HORIZONTAL_SCALE: i64 = 15;

/// The vertical scale that fits the path into the default display.
pub const DEFAULT_VERTICAL_SCALE: i64 = 8;

/// A point on the screen, in micro-pixels.
#[derive(Clone, Copy, Debug, PartialEq, Eq, Structural)]
pub struct ScreenPoint {
    pub x: i64,
    pub y: i64,
}

/// The drawing area, in micro-pixels.
#[derive(Clone, Copy, Debug, PartialEq, Eq, Structural)]
pub struct Viewport {
    pub width: i64,
    pub height: i64,
}

/// An RGBA colour with per-mille channels: 1000 stands for full intensity.
#[derive(Clone, Copy, Debug, PartialEq, Eq, Structural)]
pub struct ColourMilli {
    pub red: u16,
    pub green: u16,
    pub blue: u16,
    pub alpha: u16,
}

/// The quarter of the year a day falls in, named by the seasons it spans;
/// a display label with no physical meaning.
#[derive(Clone, Copy, Debug, PartialEq, Eq, Structural)]
pub enum SeasonBand {
    WinterToSpring,
    SpringToSummer,
    SummerToAutumn,
    AutumnToWinter,
}

/// The projector: the viewport projected into and the two scale factors,
/// fixed at construction.
#[derive(Clone, Copy, Debug, PartialEq, Eq, Structural)]
pub struct AnalemmaProjector {
    pub viewport: Viewport,
    pub horizontal_scale: i64,
    pub vertical_scale: i64,
}

/// The season band a day of year falls in: four contiguous ranges split at
/// days 80, 172 and 266.
pub open spec fn season_band_spec(day: int) -> SeasonBand {
    if day < 80 {
        SeasonBand::WinterToSpring
    } else if day < 172 {
        SeasonBand::SpringToSummer
    } else if day < 266 {
        SeasonBand::SummerToAutumn
    } else {
        SeasonBand::AutumnToWinter
    }
}

/// The display colour of a season band.
pub open spec fn band_colour_spec(band: SeasonBand) -> ColourMilli {
    match band {
        SeasonBand::WinterToSpring => ColourMilli { red: 400, green: 400, blue: 1000, alpha: 1000 },
        SeasonBand::SpringToSummer => ColourMilli { red: 500, green: 1000, blue: 500, alpha: 1000 },
        SeasonBand::SummerToAutumn => ColourMilli { red: 1000, green: 800, blue: 300, alpha: 1000 },
        SeasonBand::AutumnToWinter => ColourMilli { red: 1000, green: 500, blue: 200, alpha: 1000 },
    }
}

/// Classify a day of year into its season band.
pub fn season_band(day: u32) -> (band: SeasonBand)
    requires
        day < DAYS_PER_YEAR,
    ensures
        band == season_band_spec(day as int),
{
    if day < 80 {
        SeasonBand::WinterToSpring
    } else if day < 172 {
        SeasonBand::SpringToSummer
    } else if day < 266 {
        SeasonBand::SummerToAutumn
    } else {
        SeasonBand::AutumnToWinter
    }
}

/// The colour the path is drawn with on a day of year.
pub fn season_colour(day: u32) -> (colour: ColourMilli)
    requires
        day < DAYS_PER_YEAR,
    ensures
        colour == band_colour_spec(season_band_spec(day as int)),
{
    match season_band(day) {
        SeasonBand::WinterToSpring => ColourMilli { red: 400, green: 400, blue: 1000, alpha: 1000 },
        SeasonBand::SpringToSummer => ColourMilli { red: 500, green: 1000, blue: 500, alpha: 1000 },
        SeasonBand::SummerToAutumn => ColourMilli { red: 1000, green: 800, blue: 300, alpha: 1000 },
        SeasonBand::AutumnToWinter => ColourMilli { red: 1000, green: 500, blue: 200, alpha: 1000 },
    }
}

/// An offset within `SAMPLE_OFFSET_MAX`, scaled by at most
/// `PROJECTION_SCALE_MAX`, stays well inside the machine range.
proof fn lemma_scaled_offset_in_range(offset: int, scale: int)
    requires
        -SAMPLE_OFFSET_MAX <= offset <= SAMPLE_OFFSET_MAX,
        0 <= scale <= PROJECTION_SCALE_MAX,
    ensures
        -(SAMPLE_OFFSET_MAX as int * PROJECTION_SCALE_MAX as int) <= offset * scale
            <= SAMPLE_OFFSET_MAX as int * PROJECTION_SCALE_MAX as int,
{
    assert(-(SAMPLE_OFFSET_MAX as int * PROJECTION_SCALE_MAX as int) <= offset * scale
        <= SAMPLE_OFFSET_MAX as int * PROJECTION_SCALE_MAX as int) by (nonlinear_arith)
        requires
            -SAMPLE_OFFSET_MAX <= offset <= SAMPLE_OFFSET_MAX,
            0 <= scale <= PROJECTION_SCALE_MAX,
    ;
}

impl AnalemmaProjector {
    /// A projector is well formed when its viewport and scales lie within
    /// the machine bounds the projection arithmetic needs.
    pub open spec fn wf(self) -> bool {
        &&& 0 <= self.viewport.width <= VIEWPORT_DIM_MAX
        &&& 0 <= self.viewport.height <= VIEWPORT_DIM_MAX
        &&& 0 <= self.horizontal_scale <= PROJECTION_SCALE_MAX
        &&& 0 <= self.vertical_scale <= PROJECTION_SCALE_MAX
    }

    /// Build a projector for a viewport and a pair of scales.
    pub fn new(viewport: Viewport, horizontal_scale: i64, vertical_scale: i64) -> (p: Self)
        requires
            0 <= viewport.width <= VIEWPORT_DIM_MAX,
            0 <= viewport.height <= VIEWPORT_DIM_MAX,
            0 <= horizontal_scale <= PROJECTION_SCALE_MAX,
            0 <= vertical_scale <= PROJECTION_SCALE_MAX,
        ensures
            p == (AnalemmaProjector { viewport, horizontal_scale, vertical_scale }),
            p.wf(),
    {
        AnalemmaProjector { viewport, horizontal_scale, vertical_scale }
    }

    /// The horizontal centre of the viewport.
    pub open spec fn centre_x(self) -> int {
        self.viewport.width as int / 2
    }

    /// The vertical centre of the viewport.
    pub open spec fn centre_y(self) -> int {
        self.viewport.height as int / 2
    }

    /// Where a horizontal offset lands: right of centre by the scaled offset.
    pub open spec fn project_x_spec(self, horizontal_offset: int) -> int {
        self.centre_x() + horizontal_offset * self.horizontal_scale as int
    }

    /// Where a vertical offset lands: above centre by the scaled offset.
    pub open spec fn project_y_spec(self, vertical_offset: int) -> int {
        self.centre_y() - vertical_offset * self.vertical_scale as int
    }

    /// Project one sample onto the screen.
    pub fn project(&self, sample: &SunSample) -> (point: ScreenPoint)
        requires
            self.wf(),
            -SAMPLE_OFFSET_MAX <= sample.horizontal_offset <= SAMPLE_OFFSET_MAX,
            -SAMPLE_OFFSET_MAX <= sample.vertical_offset <= SAMPLE_OFFSET_MAX,
        ensures
            point.x == self.project_x_spec(sample.horizontal_offset as int),
            point.y == self.project_y_spec(sample.vertical_offset as int),
    {
        proof {
            lemma_scaled_offset_in_range(
                sample.horizontal_offset as int,
                self.horizontal_scale as int,
            );
            lemma_scaled_offset_in_range(sample.vertical_offset as int, self.vertical_scale as int);
        }
        let centre_x: i64 = ((self.viewport.width as u64) / 2) as i64;
        let centre_y: i64 = ((self.viewport.height as u64) / 2) as i64;
        let x: i64 = centre_x + sample.horizontal_offset * self.horizontal_scale;
        let y: i64 = centre_y - sample.vertical_offset * self.vertical_scale;
        ScreenPoint { x, y }
    }
}

/// One segment of the drawn path: its two endpoints and the season colour
/// it is drawn with.
#[derive(Clone, Copy, Debug, PartialEq, Eq, Structural)]
pub struct PathSegment {
    pub from: ScreenPoint,
    pub to: ScreenPoint,
    pub colour: ColourMilli,
}

/// One horizontal band of the sky gradient: its colour, its top edge and
/// its height in micro-pixels.
#[derive(Clone, Copy, Debug, PartialEq, Eq, Structural)]
pub struct GradientBand {
    pub colour: ColourMilli,
    pub top: i64,
    pub height: i64,
}

/// The band count the default display splits its sky gradient into.
pub const SKY_GRADIENT_STEPS: u32 = 100;

/// The most bands a sky gradient may be split into.
pub const SKY_GRADIENT_STEPS_MAX: u32 = 1_000_000;

/// The samples a projector can place: every offset within
/// `SAMPLE_OFFSET_MAX` in magnitude.
pub open spec fn offsets_in_range(path: Seq<SunSample>) -> bool {
    forall|i: int|
        0 <= i < path.len() ==> {
            &&& -SAMPLE_OFFSET_MAX <= (#[trigger] path[i]).horizontal_offset <= SAMPLE_OFFSET_MAX
            &&& -SAMPLE_OFFSET_MAX <= path[i].vertical_offset <= SAMPLE_OFFSET_MAX
        }
}

/// Project the whole year path into drawable segments: segment `i` runs
/// from day `i`'s projected sample to day `(i + 1) % 365`'s, closing the
/// figure back onto day zero, and is coloured by day `i`'s season band.
pub fn path_segments(path: &Vec<SunSample>, projector: &AnalemmaProjector) -> (segments: Vec<
    PathSegment,
>)
    requires
        projector.wf(),
        path@.len() == DAYS_PER_YEAR,
        offsets_in_range(path@),
        forall|i: int| 0 <= i < path@.len() ==> (#[trigger] path@[i]).day == i,
    ensures
        segments@.len() == DAYS_PER_YEAR,
        forall|i: int|
            0 <= i < DAYS_PER_YEAR ==> {
                let next = (i + 1) % (DAYS_PER_YEAR as int);
                &&& (#[trigger] segments@[i]).from.x == projector.project_x_spec(
                    path@[i].horizontal_offset as int,
                )
                &&& segments@[i].from.y == projector.project_y_spec(
                    path@[i].vertical_offset as int,
                )
                &&& segments@[i].to.x == projector.project_x_spec(
                    path@[next].horizontal_offset as int,
                )
                &&& segments@[i].to.y == projector.project_y_spec(
                    path@[next].vertical_offset as int,
                )
                &&& segments@[i].colour == band_colour_spec(season_band_spec(i))
            },
{
    let mut segments: Vec<PathSegment> = Vec::new();
    let mut day: usize = 0;
    while day < DAYS_PER_YEAR as usize
        invariant
            projector.wf(),
            path@.len() == DAYS_PER_YEAR,
            offsets_in_range(path@),
            forall|i: int| 0 <= i < path@.len() ==> (#[trigger] path@[i]).day == i,
            day <= DAYS_PER_YEAR,
            segments@.len() == day,
            forall|i: int|
                0 <= i < day ==> {
                    let next = (i + 1) % (DAYS_PER_YEAR as int);
                    &&& (#[trigger] segments@[i]).from.x == projector.project_x_spec(
                        path@[i].horizontal_offset as int,
                    )
                    &&& segments@[i].from.y == projector.project_y_spec(
                        path@[i].vertical_offset as int,
                    )
                    &&& segments@[i].to.x == projector.project_x_spec(
                        path@[next].horizontal_offset as int,
                    )
                    &&& segments@[i].to.y == projector.project_y_spec(
                        path@[next].vertical_offset as int,
                    )
                    &&& segments@[i].colour == band_colour_spec(season_band_spec(i))
                },
        decreases DAYS_PER_YEAR - day,
    {
        let next: usize = if day + 1 == DAYS_PER_YEAR as usize {
            0
        } else {
            day + 1
        };
        proof {
            if day + 1 < DAYS_PER_YEAR {
                vstd::arithmetic::div_mod::lemma_small_mod(
                    (day + 1) as nat,
                    DAYS_PER_YEAR as nat,
                );
            } else {
                vstd::arithmetic::div_mod::lemma_mod_self_0(DAYS_PER_YEAR as int);
            }
        }
        let from: ScreenPoint = projector.project(&path[day]);
        let to: ScreenPoint = projector.project(&path[next]);
        let colour: ColourMilli = season_colour(path[day].day);
        segments.push(PathSegment { from, to, colour });
        day = day + 1;
    }
    segments
}

/// The marker for the animated current day: the projected sample of that
/// day, or nothing when the day falls outside the path.
pub fn current_sun_position(
    path: &Vec<SunSample>,
    current_day: u32,
    projector: &AnalemmaProjector,
) -> (point: Option<ScreenPoint>)
    requires
        projector.wf(),
        offsets_in_range(path@),
    ensures
        current_day < path@.len() ==> {
            &&& point is Some
            &&& point->0.x == projector.project_x_spec(
                path@[current_day as int].horizontal_offset as int,
            )
            &&& point->0.y == projector.project_y_spec(
                path@[current_day as int].vertical_offset as int,
            )
        },
        current_day >= path@.len() ==> point is None,
{
    if (current_day as usize) < path.len() {
        Some(projector.project(&path[current_day as usize]))
    } else {
        None
    }
}

/// The four labelled calendar days the display annotates: the equinoxes and
/// solstices, at days 80, 172, 266 and 355 of the path.
pub fn named_day_positions(path: &Vec<SunSample>, projector: &AnalemmaProjector) -> (marks: Vec<
    (ScreenPoint, &'static str),
>)
    requires
        projector.wf(),
        path@.len() == DAYS_PER_YEAR,
        offsets_in_range(path@),
    ensures
        marks@.len() == 4,
        marks@[0].0.x == projector.project_x_spec(path@[80].horizontal_offset as int),
        marks@[0].0.y == projector.project_y_spec(path@[80].vertical_offset as int),
        marks@[0].1@ == "Vernal Equinox"@,
        marks@[1].0.x == projector.project_x_spec(path@[172].horizontal_offset as int),
        marks@[1].0.y == projector.project_y_spec(path@[172].vertical_offset as int),
        marks@[1].1@ == "Summer Solstice"@,
        marks@[2].0.x == projector.project_x_spec(path@[266].horizontal_offset as int),
        marks@[2].0.y == projector.project_y_spec(path@[266].vertical_offset as int),
        marks@[2].1@ == "Autumnal Equinox"@,
        marks@[3].0.x == projector.project_x_spec(path@[355].horizontal_offset as int),
        marks@[3].0.y == projector.project_y_spec(path@[355].vertical_offset as int),
        marks@[3].1@ == "Winter Solstice"@,
{
    let mut marks: Vec<(ScreenPoint, &'static str)> = Vec::new();
    marks.push((projector.project(&path[80]), "Vernal Equinox"));
    marks.push((projector.project(&path[172]), "Summer Solstice"));
    marks.push((projector.project(&path[266]), "Autumnal Equinox"));
    marks.push((projector.project(&path[355]), "Winter Solstice"));
    marks
}

/// One band of the vertical sky gradient: colour channels interpolated
/// linearly from the band index, geometry an even split of the height.
pub fn sky_gradient_band(index: u32, steps: u32, viewport_height: i64) -> (band: GradientBand)
    requires
        2 <= steps <= SKY_GRADIENT_STEPS_MAX,
        index < steps,
        0 <= viewport_height <= VIEWPORT_DIM_MAX,
    ensures
        band.colour.red == 530 + (340 * index as int) / (steps - 1) as int,
        band.colour.green == 810 + (140 * index as int) / (steps - 1) as int,
        band.colour.blue == 920 + (80 * index as int) / (steps - 1) as int,
        band.colour.alpha == 1000,
        band.height == viewport_height as int / steps as int,
        band.top == index as int * (viewport_height as int / steps as int),
{
    let denom: u64 = (steps - 1) as u64;
    proof {
        vstd::arithmetic::div_mod::lemma_multiply_divide_le(
            340 * index as int,
            denom as int,
            340,
        );
        vstd::arithmetic::div_mod::lemma_multiply_divide_le(
            140 * index as int,
            denom as int,
            140,
        );
        vstd::arithmetic::div_mod::lemma_multiply_divide_le(80 * index as int, denom as int, 80);
        vstd::arithmetic::div_mod::lemma_div_pos_is_pos(340 * index as int, denom as int);
        vstd::arithmetic::div_mod::lemma_div_pos_is_pos(140 * index as int, denom as int);
        vstd::arithmetic::div_mod::lemma_div_pos_is_pos(80 * index as int, denom as int);
    }
    let red: u16 = 530 + ((340 * index as u64) / denom) as u16;
    let green: u16 = 810 + ((140 * index as u64) / denom) as u16;
    let blue: u16 = 920 + ((80 * index as u64) / denom) as u16;
    let colour: ColourMilli = ColourMilli { red, green, blue, alpha: 1000 };
    let step_height: u64 = (viewport_height as u64) / (steps as u64);
    proof {
        vstd::arithmetic::div_mod::lemma_div_nonincreasing(
            viewport_height as int,
            steps as int,
        );
        vstd::arithmetic::div_mod::lemma_div_pos_is_pos(viewport_height as int, steps as int);
        lemma_band_top_in_range(index as int, step_height as int);
    }
    let top: i64 = ((index as u64) * step_height) as i64;
    GradientBand { colour, top, height: step_height as i64 }
}

/// A band index times an even step of the viewport stays well inside the
/// machine range.
proof fn lemma_band_top_in_range(index: int, step_height: int)
    requires
        0 <= index < SKY_GRADIENT_STEPS_MAX,
        0 <= step_height <= VIEWPORT_DIM_MAX,
    ensures
        0 <= index * step_height <= SKY_GRADIENT_STEPS_MAX as int * VIEWPORT_DIM_MAX as int,
{
    assert(0 <= index * step_height <= SKY_GRADIENT_STEPS_MAX as int * VIEWPORT_DIM_MAX as int)
        by (nonlinear_arith)
        requires
            0 <= index < SKY_GRADIENT_STEPS_MAX,
            0 <= step_height <= VIEWPORT_DIM_MAX,
    ;
}

/// Doubling the horizontal scale doubles every projected point's horizontal
/// displacement from the viewport centre, the sample held fixed; and so for
/// the vertical scale and displacement.
pub proof fn lemma_project_affine_in_scale(
    base: AnalemmaProjector,
    doubled: AnalemmaProjector,
    horizontal_offset: int,
    vertical_offset: int,
)
    requires
        doubled.viewport == base.viewport,
        doubled.horizontal_scale == 2 * base.horizontal_scale,
        doubled.vertical_scale == 2 * base.vertical_scale,
    ensures
        doubled.project_x_spec(horizontal_offset) - doubled.centre_x() == 2 * (
        base.project_x_spec(horizontal_offset) - base.centre_x()),
        doubled.project_y_spec(vertical_offset) - doubled.centre_y() == 2 * (
        base.project_y_spec(vertical_offset) - base.centre_y()),
{
    assert(horizontal_offset * (2 * base.horizontal_scale as int) == 2 * (horizontal_offset
        * base.horizontal_scale as int)) by (nonlinear_arith);
    assert(vertical_offset * (2 * base.vertical_scale as int) == 2 * (vertical_offset
        * base.vertical_scale as int)) by (nonlinear_arith);
}

} // verus!
