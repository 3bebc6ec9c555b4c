use vstd::prelude::*;
use crate::data::power::Power;
use crate::types::{Brightness, DeciOhm, Duty, MilliVolt, MilliWatt, Second};
use crate::values::{BRIGHTNESS_MAX, BRIGHTNESS_RAW_MAX, BRIGHTNESS_RAW_MIN, VOLTS_FULL, VOLTS_MAX};

verus! {

/// The largest PWM duty value.
pub const MAX_DUTY: Duty = 0x7fff;

/// User settings kept in flash.
#[derive(Clone, Copy, PartialEq, Eq, Structural, Debug)]
pub struct Config {
    pub power: Power,
    /// Longest puff, in seconds.
    pub limit: Second,
    /// Coil resistance, in tenths of an ohm.
    pub resistance: DeciOhm,
    /// User brightness level.
    pub brightness: u8,
    /// Idle voltage of a full battery.
    pub battery_full: MilliVolt,
}

/// Power that `mv` drives through `resistance` tenths of an ohm, in mW:
/// `mv² / (100 · resistance)` rounded down (mV²/dΩ is 10⁻⁵ W).
pub open spec fn power_mw(mv: MilliVolt, resistance: DeciOhm) -> int {
    (mv * mv) / (resistance as int) / 100
}

/// The raw display contrast for a brightness level: the level scaled from
/// `0..=BRIGHTNESS_MAX` onto `0..=BRIGHTNESS_RAW_MAX`, kept to 8 bits,
/// and raised to at least `BRIGHTNESS_RAW_MIN`.
pub open spec fn raw_brightness(level: u8) -> u8 {
    let raw = ((BRIGHTNESS_RAW_MAX as int * level as int / BRIGHTNESS_MAX as int) as u16) as u8;
    if raw < BRIGHTNESS_RAW_MIN { BRIGHTNESS_RAW_MIN } else { raw }
}

impl Default for Config {
    fn default() -> (r: Self)
        ensures
            r == (Config {
                power: Power::Medium,
                limit: 3,
                resistance: 12,
                brightness: 2,
                battery_full: VOLTS_MAX,
            }),
    {
        Self { power: Power::Medium, limit: 3, resistance: 12, brightness: 2, battery_full: VOLTS_MAX }
    }
}

impl Config {
    /// The power that the duty aims at, in mW: the full battery's power less
    /// what the load drop loses, scaled by the power level, and no more than
    /// the load voltage delivers.
    pub open spec fn duty_target(self, idle_mv: MilliVolt, load_mv: MilliVolt) -> int {
        let full = power_mw(VOLTS_FULL, self.resistance);
        let current = power_mw(load_mv, self.resistance);
        let drawdown = power_mw(idle_mv, self.resistance) - current;
        let wanted = (full - drawdown) * self.power.percent() / 100;
        if wanted < current { wanted } else { current }
    }

    /// Whether the duty arithmetic runs without a division by zero or a
    /// result out of `u32`: the coil has a resistance, the load voltage
    /// drives some power, no more than the idle voltage does, and the
    /// scaled target and the duty product fit.
    pub open spec fn duty_fits(self, idle_mv: MilliVolt, load_mv: MilliVolt) -> bool {
        &&& self.resistance > 0
        &&& power_mw(load_mv, self.resistance) > 0
        &&& power_mw(load_mv, self.resistance) <= power_mw(idle_mv, self.resistance)
        &&& power_mw(idle_mv, self.resistance) - power_mw(load_mv, self.resistance)
            <= power_mw(VOLTS_FULL, self.resistance)
        &&& (power_mw(VOLTS_FULL, self.resistance) - (power_mw(idle_mv, self.resistance)
            - power_mw(load_mv, self.resistance))) * self.power.percent() <= u32::MAX
        &&& MAX_DUTY as int * self.duty_target(idle_mv, load_mv) <= u32::MAX
    }

    /// Tells whether `target_duty` can run on these voltages.
    pub fn duty_computable(&self, idle_mv: MilliVolt, load_mv: MilliVolt) -> (r: bool)
        ensures
            r == self.duty_fits(idle_mv, load_mv),
    {
        if self.resistance == 0 {
            return false;
        }
        let full = self.milliwatts(VOLTS_FULL) as u64;
        let idle = self.milliwatts(idle_mv) as u64;
        let current = self.milliwatts(load_mv) as u64;
        if current == 0 || current > idle {
            return false;
        }
        let drawdown = idle - current;
        if drawdown > full {
            return false;
        }
        let percent = self.power.value() as u64;
        assert((full - drawdown) * percent <= 0xffff_ffffu64 * 255) by (nonlinear_arith)
            requires
                full - drawdown <= 0xffff_ffffu64,
                percent <= 255,
        ;
        let scaled = (full - drawdown) * percent;
        if scaled > u32::MAX as u64 {
            return false;
        }
        let wanted = scaled / 100;
        let target = if wanted < current { wanted } else { current };
        assert(MAX_DUTY as u64 * target <= 0x7fffu64 * 0xffff_ffffu64) by (nonlinear_arith)
            requires
                target <= 0xffff_ffffu64,
        ;
        MAX_DUTY as u64 * target <= u32::MAX as u64
    }

    pub fn milliwatts(&self, mv: MilliVolt) -> (r: MilliWatt)
        requires
            self.resistance > 0,
        ensures
            r == power_mw(mv, self.resistance),
    {
        let mv = mv as u32;
        let resistance = self.resistance as u32;
        assert(mv * mv <= 65535 * 65535) by (nonlinear_arith)
            requires
                mv <= 65535,
        ;
        return mv * mv / resistance / 100;
    }

    pub fn brightness(&self) -> (r: Brightness)
        ensures
            r == raw_brightness(self.brightness),
    {
        let level = self.brightness as u16;
        let level_max = BRIGHTNESS_MAX as u16;
        let raw_max = BRIGHTNESS_RAW_MAX as u16;
        assert(raw_max * level <= 255 * 255) by (nonlinear_arith)
            requires
                raw_max == 255,
                level <= 255,
        ;
        let raw = (raw_max * level / level_max) as Brightness;
        if raw < BRIGHTNESS_RAW_MIN {
            BRIGHTNESS_RAW_MIN
        } else {
            raw
        }
    }

    /// The duty cycle that delivers the configured share of a full battery's
    /// power, given the idle voltage and the voltage under load: the power
    /// lost to the load drop is taken off the full power, the result scaled
    /// by the power level, capped at what the load voltage delivers, and
    /// expressed as a share of `MAX_DUTY`.
    pub fn target_duty(&self, idle_mv: MilliVolt, load_mv: MilliVolt) -> (r: Duty)
        requires
            self.duty_fits(idle_mv, load_mv),
        ensures
            r as int == ((MAX_DUTY as int * self.duty_target(idle_mv, load_mv)
                / power_mw(load_mv, self.resistance)) as u16) as int,
    {
        let theoretical_max = self.milliwatts(VOLTS_FULL);
        let theoretical = self.milliwatts(idle_mv);
        let current = self.milliwatts(load_mv);
        let drawdown = theoretical - current;
        let percents = self.power.value() as MilliWatt;
        let mut target = (theoretical_max - drawdown) * percents / 100;
        if current < target {
            target = current;
        }
        (MAX_DUTY as u32 * target / current) as Duty
    }
}

} // verus!
