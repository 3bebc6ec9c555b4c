use vstd::prelude::*;
use crate::types::{Brightness, DeciOhm, MilliSecond, MilliVolt, MilliWatt, Progress, Second, Time};

verus! {

pub const SCREEN_WIDTH: u32 = 128;
pub const SCREEN_HEIGHT: u32 = 64;

/// Inclusive bounds that the editors keep the puff limit in.
pub const LIMIT_MIN: Second = 1;
pub const LIMIT_MAX: Second = 5;
/// Inclusive bounds that the editors keep the coil resistance in.
pub const RESISTANCE_MIN: DeciOhm = 1;
pub const RESISTANCE_MAX: DeciOhm = 255;
/// Inclusive bounds of the user brightness level.
pub const BRIGHTNESS_MIN: Brightness = 0;
pub const BRIGHTNESS_MAX: Brightness = 4;
/// Bounds of the raw contrast value sent to the display.
pub const BRIGHTNESS_RAW_MIN: Brightness = 1;
pub const BRIGHTNESS_RAW_MAX: Brightness = 255;

pub const PROGRESS_STEP: Progress = 3;
pub const PROGRESS_MIN: Progress = 0;
pub const PROGRESS_MAX: Progress = 255;
pub const SECOND: Time = 1000;
pub const DECI_SECOND: Time = 100;
pub const PROGRESS_WIDTH: u32 = 86;
pub const PROGRESS_OFFSET: i32 = 21;
pub const BATTERY_PERIOD: MilliSecond = 60000;
pub const SCREENSAVER_TIMEOUT: MilliSecond = 10000;
pub const IDLE_PERIOD: MilliSecond = 10;
pub const SLEEP_PERIOD: MilliSecond = 1000;
pub const VOLTS_MAX: MilliVolt = 4200;
pub const VOLTS_MIN: MilliVolt = 3500;
pub const VOLTS_FULL: MilliVolt = 4200;
pub const VOLT: MilliVolt = 1000;
pub const WATT: MilliWatt = 1000;

/// A puff longer than this counts as one puff.
pub const PUFF_THRESHOLD: Time = 300;
/// Pixels of header progress bar per progress unit step.
pub const PUFF_PROGRESS_STEP: Progress = 3;

pub const HEADER_HEIGHT: u32 = 16;
pub const HEADER_OFFSET: i32 = 18;
pub const HEADER_WIDTH: u32 = 92;

pub const STORAGE_START: u32 = 0;
pub const STORAGE_END: u32 = 0x20000;

} // verus!
