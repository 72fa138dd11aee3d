//! Conversion between the device's linear brightness levels and percentages.
//!
//! A level is the unit the display speaks: an integer from `MIN_BRIGHTNESS` to
//! `MAX_BRIGHTNESS`. A percentage is what a person sets: an integer from 0 to
//! `MAX_PERCENT`. Going from a level to a percentage truncates, so several
//! levels share one percentage; going from a percentage to a level and back
//! gives the percentage again.

use vstd::prelude::*;
use crate::constants::{
    BRIGHTNESS_RANGE, LEVELS_PER_PERCENT, MAX_BRIGHTNESS, MAX_PERCENT, MIN_BRIGHTNESS,
};

verus! {

/// `value` pulled into the closed range from `low` to `high`.
pub open spec fn clamp(value: int, low: int, high: int) -> int {
    if value < low {
        low
    } else if value > high {
        high
    } else {
        value
    }
}

/// The percentage of a level: the level's distance from the minimum, as a
/// share of the range in hundredths, rounded down. A level outside the
/// device's range is not pulled into it first; the result only stops at the
/// bounds of a byte, 0 and 255.
pub open spec fn spec_level_to_percent(level: int) -> int {
    clamp((level - MIN_BRIGHTNESS) * MAX_PERCENT / (BRIGHTNESS_RANGE as int), 0, u8::MAX as int)
}

/// The level of a percentage: that many hundredths of the range above the
/// minimum, pulled into the device's range.
pub open spec fn spec_percent_to_level(percent: int) -> int {
    clamp(
        percent * BRIGHTNESS_RANGE / (MAX_PERCENT as int) + MIN_BRIGHTNESS,
        MIN_BRIGHTNESS as int,
        MAX_BRIGHTNESS as int,
    )
}

/// A percentage raised by `step`, stopping at `MAX_PERCENT`.
pub open spec fn spec_step_up(percent: int, step: int) -> int {
    if percent + step > MAX_PERCENT {
        MAX_PERCENT as int
    } else {
        percent + step
    }
}

/// A percentage lowered by `step`, stopping at 0.
pub open spec fn spec_step_down(percent: int, step: int) -> int {
    if percent - step < 0 {
        0
    } else {
        percent - step
    }
}

/// Converts a brightness level reported by the device to a percentage.
///
/// Every `u32` is accepted. A level below the minimum gives 0, and a level so
/// far above the maximum that its percentage exceeds 255 gives 255.
pub fn level_to_percent(level: u32) -> (percent: u8)
    ensures
        percent as int == spec_level_to_percent(level as int),
        MIN_BRIGHTNESS <= level <= MAX_BRIGHTNESS ==> percent <= MAX_PERCENT,
{
    if level <= MIN_BRIGHTNESS {
        return 0;
    }
    let above: u64 = (level - MIN_BRIGHTNESS) as u64;
    let scale: u64 = MAX_PERCENT as u64;
    assert(above * scale == above * 100);
    let hundredths: u64 = above * scale / (BRIGHTNESS_RANGE as u64);
    if hundredths > u8::MAX as u64 {
        u8::MAX
    } else {
        hundredths as u8
    }
}

/// Converts a percentage to the brightness level to send to the device.
///
/// Every `i32` is accepted, so that a caller may hand over the result of
/// arithmetic that left the range from 0 to 100: the level is always one the
/// device accepts.
pub fn percent_to_level(percent: i32) -> (level: u32)
    ensures
        level as int == spec_percent_to_level(percent as int),
        MIN_BRIGHTNESS <= level <= MAX_BRIGHTNESS,
{
    if percent <= 0 {
        MIN_BRIGHTNESS
    } else if percent >= MAX_PERCENT as i32 {
        MAX_BRIGHTNESS
    } else {
        (percent as u32) * LEVELS_PER_PERCENT + MIN_BRIGHTNESS
    }
}

/// Pulls a percentage into the range from 0 to `MAX_PERCENT`: the percentage
/// that the display shows once it was sent the level of `percent`.
pub fn clamp_percent(percent: i32) -> (clamped: u8)
    ensures
        clamped as int == clamp(percent as int, 0, MAX_PERCENT as int),
        clamped as int == spec_level_to_percent(spec_percent_to_level(percent as int)),
{
    if percent <= 0 {
        0
    } else if percent >= MAX_PERCENT as i32 {
        MAX_PERCENT
    } else {
        percent as u8
    }
}

/// Raises a percentage by `step` percentage points, stopping at `MAX_PERCENT`.
pub fn step_up(percent: u8, step: u8) -> (raised: u8)
    ensures
        raised as int == spec_step_up(percent as int, step as int),
        raised <= MAX_PERCENT,
{
    let sum: u16 = percent as u16 + step as u16;
    if sum > MAX_PERCENT as u16 {
        MAX_PERCENT
    } else {
        sum as u8
    }
}

/// Lowers a percentage by `step` percentage points, stopping at 0.
pub fn step_down(percent: u8, step: u8) -> (lowered: u8)
    ensures
        lowered as int == spec_step_down(percent as int, step as int),
        lowered <= percent,
{
    if step >= percent {
        0
    } else {
        percent - step
    }
}

/// A percentage from 0 to 100 survives the way to a level and back unchanged.
pub proof fn lemma_percent_round_trip(percent: int)
    requires
        0 <= percent <= MAX_PERCENT,
    ensures
        spec_level_to_percent(spec_percent_to_level(percent)) == percent,
{
}

/// Any percentage, taken to a level and back, comes out pulled into the range
/// from 0 to 100: what lies above reads back as 100, what lies below as 0.
pub proof fn lemma_percent_round_trip_clamps(percent: int)
    ensures
        spec_level_to_percent(spec_percent_to_level(percent)) == clamp(
            percent,
            0,
            MAX_PERCENT as int,
        ),
{
}

/// Every level within the device's range has a percentage from 0 to 100.
pub proof fn lemma_level_to_percent_in_range(level: int)
    requires
        MIN_BRIGHTNESS <= level <= MAX_BRIGHTNESS,
    ensures
        0 <= spec_level_to_percent(level) <= MAX_PERCENT,
        spec_level_to_percent(level) == (level - MIN_BRIGHTNESS) * MAX_PERCENT / (
        BRIGHTNESS_RANGE as int),
{
}

/// Every percentage, in range or not, has a level within the device's range.
pub proof fn lemma_percent_to_level_in_range(percent: int)
    ensures
        MIN_BRIGHTNESS <= spec_percent_to_level(percent) <= MAX_BRIGHTNESS,
{
}

/// Within the range from 0 to 100 the level rises by a fixed amount with each
/// percentage point.
pub proof fn lemma_percent_to_level_linear(percent: int)
    requires
        0 <= percent <= MAX_PERCENT,
    ensures
        spec_percent_to_level(percent) == MIN_BRIGHTNESS + percent * LEVELS_PER_PERCENT,
{
}

/// A brighter level never has a lower percentage.
pub proof fn lemma_level_to_percent_monotonic(lower: int, higher: int)
    requires
        lower <= higher,
    ensures
        spec_level_to_percent(lower) <= spec_level_to_percent(higher),
{
}

/// A higher percentage never has a dimmer level.
pub proof fn lemma_percent_to_level_monotonic(lower: int, higher: int)
    requires
        lower <= higher,
    ensures
        spec_percent_to_level(lower) <= spec_percent_to_level(higher),
{
}

/// Taking a level within the device's range to its percentage and back loses
/// less than one percentage point: the result is at most the level, and less
/// than a hundredth of the range below it.
pub proof fn lemma_level_round_trip_truncates(level: int)
    requires
        MIN_BRIGHTNESS <= level <= MAX_BRIGHTNESS,
    ensures
        spec_percent_to_level(spec_level_to_percent(level)) <= level,
        level < spec_percent_to_level(spec_level_to_percent(level)) + LEVELS_PER_PERCENT,
{
}

} // verus!
