//! The one mutable piece of the simulation: the animation day counter.
//!
//! `advance` moves the counter by `speed * elapsed / 60` days — one
//! simulated day per real-time minute at unit speed — truncated to whole
//! days and wrapped modulo the year, exactly as the ensures clause states.
//! Elapsed time is counted in milliseconds and speed in thousandths, so the
//! day a tick yields is a pure function of the integers handed in.

use crate::solar::DAYS_PER_YEAR;
use vstd::prelude::*;

verus! {

/// A speed of one simulated day per real-time minute.
pub const DEFAULT_SPEED_MILLI: u32 = 1_000;

/// The day the animation starts on.
pub const DEFAULT_START_DAY: u32 = 136;

/// Milliseconds per real-time minute: the divisor that ties speed, elapsed
/// time and simulated days together.
pub const MILLIS_PER_DAY_AT_UNIT_SPEED: u64 = 60_000_000;

/// The animation counter: the day of year currently marked, and the speed
/// at which it advances, in thousandths of a day per real-time minute.
pub struct AnimationState {
    pub current_day: u32,
    pub speed_milli: u32,
}

/// The day `advance` yields from a state and an elapsed time: the whole
/// days earned at the given speed, added to the current day and wrapped
/// modulo the year.
pub open spec fn advanced_day(current_day: int, speed_milli: int, elapsed_millis: int) -> int {
    (current_day + (speed_milli * elapsed_millis) / (MILLIS_PER_DAY_AT_UNIT_SPEED as int)) % (
    DAYS_PER_YEAR as int)
}

impl AnimationState {
    /// The counter always holds a valid day of year.
    pub open spec fn wf(self) -> bool {
        self.current_day < DAYS_PER_YEAR
    }

    /// Start the animation on a given day, at a given speed.
    pub fn new(start_day: u32, speed_milli: u32) -> (s: Self)
        requires
            start_day < DAYS_PER_YEAR,
        ensures
            s.current_day == start_day,
            s.speed_milli == speed_milli,
            s.wf(),
    {
        AnimationState { current_day: start_day, speed_milli }
    }

    /// One animation tick: move the day counter by the whole days earned
    /// during `elapsed_millis`, wrapping at the year boundary. The speed is
    /// left as it was, and the counter stays a valid day of year.
    pub fn advance(&mut self, elapsed_millis: u64)
        requires
            old(self).wf(),
        ensures
            final(self).current_day == advanced_day(
                old(self).current_day as int,
                old(self).speed_milli as int,
                elapsed_millis as int,
            ),
            final(self).speed_milli == old(self).speed_milli,
            final(self).wf(),
    {
        proof {
            vstd::arithmetic::mul::lemma_mul_upper_bound(
                self.speed_milli as int,
                u32::MAX as int,
                elapsed_millis as int,
                u64::MAX as int,
            );
        }
        let earned: u128 = (self.speed_milli as u128 * elapsed_millis as u128) / (
        MILLIS_PER_DAY_AT_UNIT_SPEED as u128);
        let wrapped: u128 = (self.current_day as u128 + earned) % (DAYS_PER_YEAR as u128);
        self.current_day = wrapped as u32;
    }
}

} // verus!
