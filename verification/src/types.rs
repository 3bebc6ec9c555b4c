use vstd::prelude::*;

verus! {

pub type DeciOhm = u8;
pub type Second = u8;
pub type DeciSecond = u32;
pub type MilliSecond = u64;
pub type MilliWatt = u32;
pub type MilliVolt = u16;
pub type Percent = u8;
pub type Duty = u16;
pub type Progress = u8;
pub type Brightness = u8;
pub type PuffCount = u32;
/// Milliseconds since the timer started.
pub type Time = u64;

} // verus!
