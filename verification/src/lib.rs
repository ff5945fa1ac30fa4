//! A verified model of the analemma: the figure-eight path traced by the
//! Sun's apparent position in the sky over one year.
//!
//! All quantities are held in fixed point, scaled by one million
//! ("micro-units"): angles in micro-radians, days in micro-days, angular
//! offsets in micro display-units and screen coordinates in micro-pixels.
//! The sinusoids behind the equation of time and the solar declination are
//! rough display approximations to begin with, so an explicit rational
//! approximation of the sine over integers serves the purpose and lets every
//! result be pinned down exactly.

pub mod animation;
pub mod projector;
pub mod solar;
pub mod trig;
