use vstd::prelude::*;
use crate::data::battery::Battery;
use crate::data::power::Power;
use crate::device::charge_status::ChargeStatus;
use crate::device::ui::power_and_limit::Edit;
use crate::types::{Brightness, DeciOhm, DeciSecond, MilliVolt, MilliWatt, Percent, PuffCount, Second};
use crate::values::{VOLTS_FULL, VOLTS_MIN, WATT};

verus! {

/// One widget row of the screen, as data.
#[derive(Clone, Copy, PartialEq, Eq, Structural, Debug)]
#[allow(inconsistent_fields)]
pub enum Widget {
    Blank,
    PowerAndLimit { power: Power, limit: Second, edit: Edit },
    ResistanceAndWatt { resistance: DeciOhm, mw: Option<MilliWatt>, power: Power, edit: bool },
    Statusbar { total: DeciSecond, battery: Battery },
    Brightness { brightness: Brightness, focused: bool },
    PuffCoil { duration: DeciSecond, reset: bool },
    PuffCount { count: PuffCount, reset: bool },
    PuffTotal { duration: DeciSecond, reset: bool },
    BatteryIdle(Option<MilliVolt>),
    BatteryLoad(Option<MilliVolt>),
    BatteryFull(Option<MilliVolt>),
}

/// A duration in tenths of a second split into `h:m's.t"` parts.
#[derive(Clone, Copy, PartialEq, Eq, Structural, Debug)]
pub struct TimeParts {
    pub hours: u32,
    pub minutes: u32,
    pub seconds: u32,
    pub tenths: u32,
}

/// Splits a duration for display: whole hours, then minutes and seconds
/// below 60, then tenths.
pub fn time_parts(time: DeciSecond) -> (r: TimeParts)
    ensures
        r.tenths == time % 10,
        r.seconds == (time / 10) % 60,
        r.minutes == (time / 600) % 60,
        r.hours == time / 36000,
{
    let mut tmp = time;
    let ds = tmp % 10;
    tmp /= 10;
    let s = tmp % 60;
    tmp /= 60;
    let m = tmp % 60;
    let h = tmp / 60;
    assert(time / 10 / 60 == time / 600) by (nonlinear_arith);
    assert(time / 600 / 60 == time / 36000) by (nonlinear_arith);
    TimeParts { hours: h, minutes: m, seconds: s, tenths: ds }
}

/// The parts put back together give the duration, and each part below
/// hours stays within its unit.
pub proof fn law_time_parts(time: DeciSecond)
    ensures
        (time / 36000) * 36000 + ((time / 600) % 60) * 600 + ((time / 10) % 60) * 10 + time % 10
            == time,
        (time / 600) % 60 < 60,
        (time / 10) % 60 < 60,
        time % 10 < 10,
{
    assert((time / 36000) * 36000 + ((time / 600) % 60) * 600 + ((time / 10) % 60) * 10 + time % 10
        == time) by (nonlinear_arith);
}

/// The power level's share of `mw`, in whole watts rounded half up.
pub open spec fn watts_of(mw: MilliWatt, power: Power) -> int {
    let share = mw * power.percent() / 100;
    share / (WATT as int) + if share % (WATT as int) >= (WATT as int) / 2 { 1int } else { 0int }
}

/// The watts shown on the resistance row: the power level's share of the
/// coil power, rounded to whole watts; nothing when the power is unknown.
pub fn watts(mw: Option<MilliWatt>, power: Power) -> (r: Option<u32>)
    requires
        mw matches Some(m) ==> m * power.percent() <= u32::MAX,
    ensures
        r == (match mw {
            Some(m) => Some(watts_of(m, power) as u32),
            None => None::<u32>,
        }),
{
    let mut mw = match mw {
        Some(mw) => mw,
        None => return None,
    };
    let percents = power.value() as MilliWatt;
    mw = mw * percents / 100;
    let mut watts = mw / WATT;
    if (mw % WATT) >= (WATT / 2) {
        watts += 1;
    }
    Some(watts)
}

/// Battery charge in percent between `VOLTS_MIN` and `full`, capped at 100.
pub open spec fn level_percent(mv: MilliVolt, full: MilliVolt) -> Percent {
    let p = (mv - VOLTS_MIN) * 100 / (full - VOLTS_MIN);
    if p > 100 { 100 } else { p as Percent }
}

pub fn battery_level(mv: MilliVolt, full: MilliVolt) -> (r: Percent)
    requires
        mv >= VOLTS_MIN,
        full > VOLTS_MIN,
    ensures
        r == level_percent(mv, full),
{
    let percents = (mv - VOLTS_MIN) as u32 * 100 / (full - VOLTS_MIN) as u32;
    if percents > 100 {
        100
    } else {
        percents as Percent
    }
}

#[derive(Clone, Copy, PartialEq, Eq, Structural, Debug)]
pub enum BatteryIcon {
    Empty,
    One,
    Charging,
    Charged,
    Reverse,
    Warning,
}

/// The text inside the battery symbol.
#[derive(Clone, Copy, PartialEq, Eq, Structural, Debug)]
pub enum BatteryAmount {
    /// No text.
    Blank,
    /// `?`: the level is not known.
    Unknown,
    /// `00` next to a `1`: the battery is at 100 %.
    Hundred,
    Percent(Percent),
}

/// How the status bar draws the battery.
#[derive(Clone, Copy, PartialEq, Eq, Structural, Debug)]
pub struct BatteryBadge {
    pub icon: BatteryIcon,
    pub amount: BatteryAmount,
    /// Whether the battery outline is filled.
    pub filled: bool,
}

/// The full-battery voltage the status bar measures against.
pub open spec fn badge_full(battery: Battery) -> MilliVolt {
    match battery.full {
        Some(f) => f,
        None => VOLTS_FULL,
    }
}

/// What the status bar draws for a battery: while discharging, the level
/// against the last full voltage (`?` when no idle voltage is known);
/// otherwise an icon for the charger state, filled when full.
pub open spec fn badge_of(battery: Battery) -> BatteryBadge {
    let level = match battery.idle {
        Some(idle) => Some(level_percent(idle, badge_full(battery))),
        None => None::<Percent>,
    };
    BatteryBadge {
        icon: match battery.status {
            ChargeStatus::Discharging => if level == Some(100u8) {
                BatteryIcon::One
            } else {
                BatteryIcon::Empty
            },
            ChargeStatus::Charging => BatteryIcon::Charging,
            ChargeStatus::Full => BatteryIcon::Charged,
            ChargeStatus::Reverse => BatteryIcon::Reverse,
            ChargeStatus::Unknown => BatteryIcon::Warning,
        },
        amount: match battery.status {
            ChargeStatus::Discharging => match level {
                None => BatteryAmount::Unknown,
                Some(v) => if v == 100 {
                    BatteryAmount::Hundred
                } else {
                    BatteryAmount::Percent(v)
                },
            },
            _ => BatteryAmount::Blank,
        },
        filled: battery.status == ChargeStatus::Full,
    }
}

/// The full-battery voltage the status bar measures against.
pub fn badge_full_mv(battery: &Battery) -> (r: MilliVolt)
    ensures
        r == badge_full(*battery),
{
    match battery.full {
        Some(f) => f,
        None => VOLTS_FULL,
    }
}

pub fn battery_badge(battery: &Battery) -> (r: BatteryBadge)
    requires
        battery.idle matches Some(idle) ==> idle >= VOLTS_MIN && badge_full(*battery) > VOLTS_MIN,
    ensures
        r == badge_of(*battery),
{
    let full = match battery.full {
        Some(f) => f,
        None => VOLTS_FULL,
    };
    let level = match battery.idle {
        Some(idle) => Some(battery_level(idle, full)),
        None => None,
    };
    let icon = match battery.status {
        ChargeStatus::Discharging => match level {
            Some(100) => BatteryIcon::One,
            _ => BatteryIcon::Empty,
        },
        ChargeStatus::Charging => BatteryIcon::Charging,
        ChargeStatus::Full => BatteryIcon::Charged,
        ChargeStatus::Reverse => BatteryIcon::Reverse,
        ChargeStatus::Unknown => BatteryIcon::Warning,
    };
    let amount = match battery.status {
        ChargeStatus::Discharging => match level {
            None => BatteryAmount::Unknown,
            Some(100) => BatteryAmount::Hundred,
            Some(value) => BatteryAmount::Percent(value),
        },
        _ => BatteryAmount::Blank,
    };
    let filled = match battery.status {
        ChargeStatus::Full => true,
        _ => false,
    };
    BatteryBadge { icon, amount, filled }
}

/// The battery badge's icon tells the charger's states apart: the charging
/// icon exactly while charging, the charged icon exactly when full, the
/// reverse icon exactly on reversed polarity, the warning exactly when the
/// state is unknown, and a plain battery exactly while discharging.
pub proof fn law_badge_tells_charger_states(b: Battery)
    ensures
        (badge_of(b).icon == BatteryIcon::Charging) == (b.status == ChargeStatus::Charging),
        (badge_of(b).icon == BatteryIcon::Charged) == (b.status == ChargeStatus::Full),
        (badge_of(b).icon == BatteryIcon::Reverse) == (b.status == ChargeStatus::Reverse),
        (badge_of(b).icon == BatteryIcon::Warning) == (b.status == ChargeStatus::Unknown),
        (badge_of(b).icon == BatteryIcon::Empty || badge_of(b).icon == BatteryIcon::One)
            == (b.status == ChargeStatus::Discharging),
{
}

} // verus!
