//! Screen-brightness decisions; the devices themselves are driven by the caller.
use vstd::prelude::*;

verus! {

/// The brightness reported when no device gave a reading, in percent.
pub const DEFAULT_BRIGHTNESS: u32 = 50;

/// The brightness, in percent, to set for a requested `percent`: values above
/// 100 are capped at 100.
pub fn brightness_target(percent: u8) -> (r: u32)
    ensures
        r == if percent > 100 { 100 } else { percent as u32 },
{
    if percent > 100 {
        100
    } else {
        percent as u32
    }
}

/// The brightness to report from the devices' readings, in percent: the first
/// device's, or `DEFAULT_BRIGHTNESS` when there is no device.
pub fn reported_brightness(readings: &Vec<u32>) -> (r: u32)
    ensures
        r == if readings@.len() == 0 { DEFAULT_BRIGHTNESS } else { readings@[0] },
{
    if readings.len() == 0 {
        DEFAULT_BRIGHTNESS
    } else {
        readings[0]
    }
}

} // verus!
