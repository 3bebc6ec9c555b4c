use vstd::prelude::*;

verus! {

/// What the charger pins report.
#[derive(Clone, Copy, PartialEq, Eq, Structural, Debug)]
pub enum ChargeStatus {
    Discharging,
    Charging,
    Full,
    Reverse,
    /// An intermediate state, no battery, or contradicting pins.
    Unknown,
}

impl Default for ChargeStatus {
    fn default() -> (r: Self)
        ensures
            r == ChargeStatus::Discharging,
    {
        ChargeStatus::Discharging
    }
}

/// The status that the charger pins stand for: contradicting pins give
/// `Unknown`, then a full battery wins over charging, charging over reverse.
pub open spec fn status_of(charging: bool, full: bool, reverse: bool) -> ChargeStatus {
    if (charging && reverse) || (reverse && full) {
        ChargeStatus::Unknown
    } else if full {
        ChargeStatus::Full
    } else if charging {
        ChargeStatus::Charging
    } else if reverse {
        ChargeStatus::Reverse
    } else {
        ChargeStatus::Discharging
    }
}

impl ChargeStatus {
    /// Whether the device runs on external power in this status.
    pub open spec fn powered(self) -> bool {
        self == ChargeStatus::Charging || self == ChargeStatus::Full
    }

    pub fn pick(charging: bool, full: bool, reverse: bool) -> (r: ChargeStatus)
        ensures
            r == status_of(charging, full, reverse),
    {
        if charging && reverse || reverse && full {
            return ChargeStatus::Unknown;
        }
        match (charging, full, reverse) {
            (_, true, _) => ChargeStatus::Full,
            (true, _, _) => ChargeStatus::Charging,
            (_, _, true) => ChargeStatus::Reverse,
            _ => ChargeStatus::Discharging,
        }
    }

    pub fn is_powered(&self) -> (r: bool)
        ensures
            r == self.powered(),
    {
        match self {
            ChargeStatus::Unknown | ChargeStatus::Reverse | ChargeStatus::Discharging => false,
            ChargeStatus::Charging | ChargeStatus::Full => true,
        }
    }
}

/// The picked status is powered exactly when the charger charges or reports
/// full, and the reverse pin is not set.
pub proof fn law_pick_powered(charging: bool, full: bool, reverse: bool)
    ensures
        status_of(charging, full, reverse).powered() <==> ((charging || full) && !reverse),
{
}

/// `Unknown` comes only from a reverse pin together with another pin.
pub proof fn law_pick_unknown(charging: bool, full: bool, reverse: bool)
    ensures
        status_of(charging, full, reverse) == ChargeStatus::Unknown <==> (reverse && (charging || full)),
{
}

} // verus!
