use vstd::prelude::*;
use crate::device::charge_status::ChargeStatus;
use crate::types::MilliVolt;

verus! {

#[derive(Clone, Copy, PartialEq, Eq, Structural, Debug)]
pub struct Battery {
    pub status: ChargeStatus,
    /// Voltage measured without load.
    pub idle: Option<MilliVolt>,
    /// Voltage measured under load.
    pub load: Option<MilliVolt>,
    /// The idle voltage of a full battery, when known; the battery widgets
    /// use it in place of `VOLTS_FULL`. None of the library's steps sets it.
    pub full: Option<MilliVolt>,
}

impl Default for Battery {
    fn default() -> (r: Self)
        ensures
            r == (Battery { status: ChargeStatus::Discharging, idle: None, load: None, full: None }),
    {
        Battery { status: ChargeStatus::default(), idle: None, load: None, full: None }
    }
}

impl Battery {
    pub fn is_full(&self) -> (r: bool)
        ensures
            r == (self.status == ChargeStatus::Full),
    {
        self.status == ChargeStatus::Full
    }
}

} // verus!
