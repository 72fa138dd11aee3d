//! The fixed identity and brightness range of the supported display model.

use vstd::prelude::*;

verus! {

/// Identifier of the feature report that carries the brightness.
pub const REPORT_ID: u8 = 1;

/// Size in bytes of the brightness feature report, for reads and for writes.
pub const REPORT_SIZE: usize = 7;

/// Lowest brightness level, in the device's linear units.
pub const MIN_BRIGHTNESS: u32 = 400;

/// Highest brightness level, in the device's linear units.
pub const MAX_BRIGHTNESS: u32 = 60000;

/// Width of the brightness range.
pub const BRIGHTNESS_RANGE: u32 = 59600;

/// Highest brightness percentage.
pub const MAX_PERCENT: u8 = 100;

/// Brightness levels to one percentage point: a hundredth of the range.
pub const LEVELS_PER_PERCENT: u32 = 596;

/// How many displays, from the first on, can be controlled one by one by
/// their place in the display order.
pub const INDIVIDUAL_SLOTS: usize = 4;

/// USB vendor id of the supported display.
pub const SD_VENDOR_ID: u16 = 0x05ac;

/// USB product id of the supported display.
pub const SD_PRODUCT_ID: u16 = 0x1114;

/// Number of the HID interface that answers brightness reports.
pub const SD_INTERFACE_NR: i32 = 7;

/// The constants of the brightness scale agree with each other: the range
/// spans the levels from the lowest to the highest, and divides into as many
/// equal steps as there are percentage points.
pub proof fn lemma_brightness_scale()
    ensures
        MIN_BRIGHTNESS < MAX_BRIGHTNESS,
        BRIGHTNESS_RANGE == MAX_BRIGHTNESS - MIN_BRIGHTNESS,
        BRIGHTNESS_RANGE == MAX_PERCENT * LEVELS_PER_PERCENT,
{
}

} // verus!
