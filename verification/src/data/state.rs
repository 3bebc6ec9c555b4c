use vstd::prelude::*;
use crate::data::action::Action;
use crate::data::battery::Battery;
use crate::data::buttons::Buttons;
use crate::data::config::Config;
use crate::data::edit_settings::EditSettings;
use crate::data::mode::{idle_work, Mode};
use crate::data::power::Power;
use crate::data::reset_puffs::ResetPuffs;
use crate::data::stats::Stats;
use crate::device::charge_status::{status_of, ChargeStatus};
use crate::device::ui::widget::{battery_level, level_percent};
use crate::device::ui::Ui;
use crate::types::{DeciSecond, Duty, MilliVolt, Percent, Progress, Time};
use crate::values::{
    BRIGHTNESS_MAX, BRIGHTNESS_MIN, DECI_SECOND, LIMIT_MAX, LIMIT_MIN, PROGRESS_MAX,
    RESISTANCE_MAX, RESISTANCE_MIN, SECOND, VOLTS_MIN,
};

verus! {

/// Everything the device knows between two turns of its main loop.
pub struct State {
    pub mode: Mode,
    pub config: Config,
    pub stats: Stats,
    pub battery: Battery,
    /// The buttons as they were seen on the last turn.
    pub buttons: Buttons,
    /// The screen as it was last drawn.
    pub ui: Ui,
    /// Since when the touch sensor is held.
    pub touched: Option<Time>,
    /// The last settings edit, while it can be undone.
    pub last: Option<Action>,
    /// Heating time of the puff not yet added to the statistics, in ms.
    pub puff_duration: Time,
    /// Whether the current puff was already counted.
    pub puff_trigger: bool,
}

/// One step of a setting towards `max` or `min`, staying put at the bound
/// it moves towards.
pub open spec fn stepped(value: u8, min: u8, max: u8, increment: bool) -> u8 {
    if increment && value < max {
        (value + 1) as u8
    } else if !increment && value > min {
        (value - 1) as u8
    } else {
        value
    }
}

/// The first reset offer after `r`, in the order coil, count, total,
/// nothing, that is either nothing or a statistic that is not zero.
pub open spec fn next_offer(r: ResetPuffs, stats: Stats) -> ResetPuffs
    decreases offers_left(r),
{
    let n = r.successor();
    if n == ResetPuffs::Nothing || (n == ResetPuffs::Coil && stats.coil > 0) || (n
        == ResetPuffs::Count && stats.count > 0) || (n == ResetPuffs::Total && stats.total > 0) {
        n
    } else {
        next_offer(n, stats)
    }
}

/// How many steps of `successor` reach `Nothing`.
pub open spec fn offers_left(r: ResetPuffs) -> nat {
    match r {
        ResetPuffs::Nothing => 4,
        ResetPuffs::Coil => 3,
        ResetPuffs::Count => 2,
        ResetPuffs::Total => 1,
    }
}

/// Whole tenths of a second in `ms`, kept to 32 bits.
pub open spec fn whole_deciseconds(ms: Time) -> DeciSecond {
    (ms / DECI_SECOND) as DeciSecond
}

/// `ms` in tenths of a second, rounded half up.
pub open spec fn puff_deciseconds(ms: Time) -> int {
    whole_deciseconds(ms) + if ms % DECI_SECOND >= DECI_SECOND / 2 { 1int } else { 0int }
}

/// The mode a touch leads to: from work into the settings tab, through the
/// settings editors in turn, through the resets that have something to
/// reset; the battery tab stays.
pub open spec fn touched_mode(mode: Mode, stats: Stats) -> Mode {
    match mode {
        Mode::Work { .. } => Mode::Settings(EditSettings::Nothing),
        Mode::Settings(e) => Mode::Settings(e.following()),
        Mode::Puffs(r, _) => Mode::Puffs(next_offer(r, stats), None),
        Mode::Battery => Mode::Battery,
    }
}

/// The tab a button press moves to: settings, puffs and battery in a ring,
/// forwards when `next`; the work screen has no tabs.
pub open spec fn switched_mode(mode: Mode, next: bool) -> Mode {
    match mode {
        Mode::Settings(_) => if next { Mode::Puffs(ResetPuffs::Nothing, None) } else { Mode::Battery },
        Mode::Puffs(_, _) => if next { Mode::Battery } else { Mode::Settings(EditSettings::Nothing) },
        Mode::Battery => if next {
            Mode::Settings(EditSettings::Nothing)
        } else {
            Mode::Puffs(ResetPuffs::Nothing, None)
        },
        Mode::Work { .. } => mode,
    }
}

impl State {
    /// The state after a power edit: the new level and the edit to undo, if
    /// the level changed. The undo record is always an increment.
    pub open spec fn power_edited(self, increment: bool) -> State {
        let new = if increment { self.config.power.raised() } else { self.config.power.lowered() };
        if new != self.config.power {
            State {
                config: Config { power: new, ..self.config },
                last: Some(Action::Power(true)),
                ..self
            }
        } else {
            self
        }
    }

    pub open spec fn limit_edited(self, increment: bool) -> State {
        let new = stepped(self.config.limit, LIMIT_MIN, LIMIT_MAX, increment);
        if new != self.config.limit {
            State {
                config: Config { limit: new, ..self.config },
                last: Some(Action::Limit(increment)),
                ..self
            }
        } else {
            self
        }
    }

    pub open spec fn resistance_edited(self, increment: bool) -> State {
        let new = stepped(self.config.resistance, RESISTANCE_MIN, RESISTANCE_MAX, increment);
        if new != self.config.resistance {
            State {
                config: Config { resistance: new, ..self.config },
                last: Some(Action::Resistance(increment)),
                ..self
            }
        } else {
            self
        }
    }

    pub open spec fn brightness_edited(self, increment: bool) -> State {
        let new = stepped(self.config.brightness, BRIGHTNESS_MIN, BRIGHTNESS_MAX, increment);
        if new != self.config.brightness {
            State {
                config: Config { brightness: new, ..self.config },
                last: Some(Action::Brightness(increment)),
                ..self
            }
        } else {
            self
        }
    }

    /// The limit in milliseconds.
    pub open spec fn limit_in_ms(self) -> int {
        self.config.limit * SECOND
    }

    /// How far `duration` is into the limit, scaled to `0..=PROGRESS_MAX`.
    pub open spec fn progress_of(self, duration: Time) -> Progress {
        let p = duration * (PROGRESS_MAX as int) / self.limit_in_ms();
        if p < PROGRESS_MAX { p as Progress } else { PROGRESS_MAX }
    }

    pub fn with(config: Config, stats: Stats) -> (r: Self)
        ensures
            r.mode == idle_work(),
            r.config == config,
            r.stats == stats,
            r.battery == (Battery { status: ChargeStatus::Discharging, idle: None, load: None, full: None }),
            r.buttons == (Buttons { left: false, right: false }),
            r.ui == Ui::blank(),
            r.touched is None,
            r.last is None,
            r.puff_duration == 0,
            !r.puff_trigger,
    {
        Self {
            mode: Mode::default(),
            config,
            stats,
            battery: Battery::default(),
            buttons: Buttons::default(),
            ui: Ui::default(),
            touched: None,
            last: None,
            puff_duration: 0,
            puff_trigger: false,
        }
    }

    /// Whether the buttons are held as given.
    pub fn buttons(&self, left: bool, right: bool) -> (r: bool)
        ensures
            r == (self.buttons.left == left && self.buttons.right == right),
    {
        self.buttons.left == left && self.buttons.right == right
    }

    pub fn touched(&self) -> (r: bool)
        ensures
            r == self.touched is Some,
    {
        self.touched.is_some()
    }

    pub fn duty(&self) -> (r: Option<Duty>)
        ensures
            r == (match self.mode {
                Mode::Work { duty, .. } => duty,
                _ => None::<Duty>,
            }),
    {
        match self.mode {
            Mode::Work { duty, .. } => duty,
            _ => None,
        }
    }

    pub fn is_progress_zero(&self) -> (r: bool)
        ensures
            r == (match self.mode {
                Mode::Work { duration, .. } => duration == 0,
                _ => true,
            }),
    {
        match self.mode {
            Mode::Work { duration, .. } => duration == 0,
            _ => true,
        }
    }

    pub fn next_mode(&mut self)
        ensures
            *final(self) == (State { mode: touched_mode(old(self).mode, old(self).stats), ..*old(self) }),
    {
        self.mode = match self.mode {
            Mode::Work { .. } => Mode::settings(),
            Mode::Settings(EditSettings::Nothing) => Mode::Settings(EditSettings::Power),
            Mode::Settings(EditSettings::Power) => Mode::Settings(EditSettings::Limit),
            Mode::Settings(EditSettings::Limit) => Mode::Settings(EditSettings::Resistance),
            Mode::Settings(EditSettings::Resistance) => Mode::Settings(EditSettings::Brightness),
            Mode::Settings(EditSettings::Brightness) => Mode::settings(),
            Mode::Puffs(first, _) => {
                let mut reset = first;
                loop
                    invariant_except_break
                        next_offer(first, self.stats) == next_offer(reset, self.stats),
                    ensures
                        reset == next_offer(first, self.stats),
                    decreases offers_left(reset),
                {
                    reset = reset.next();
                    match reset {
                        ResetPuffs::Coil if self.stats.coil > 0 => break,
                        ResetPuffs::Count if self.stats.count > 0 => break,
                        ResetPuffs::Total if self.stats.total > 0 => break,
                        ResetPuffs::Nothing => break,
                        _ => continue,
                    }
                }
                Mode::Puffs(reset, None)
            },
            Mode::Battery => Mode::Battery,
        };
    }

    pub fn reset_mode(&mut self)
        ensures
            *final(self) == (State { mode: idle_work(), ..*old(self) }),
    {
        self.mode = Mode::default();
    }

    pub fn switch_tab(&mut self, next: bool)
        ensures
            *final(self) == (State { mode: switched_mode(old(self).mode, next), ..*old(self) }),
    {
        self.mode = match self.mode {
            Mode::Settings(..) => if next { Mode::puffs() } else { Mode::Battery },
            Mode::Puffs(..) => if next { Mode::Battery } else { Mode::settings() },
            Mode::Battery => if next { Mode::settings() } else { Mode::puffs() },
            Mode::Work { .. } => return,
        };
    }

    pub fn set_work_duration(&mut self, duration: Time, prev: Time, cool_down: bool)
        ensures
            *final(self) == (State {
                mode: match old(self).mode {
                    Mode::Work { start, duty, .. } => Mode::Work { duration, prev, cool_down, start, duty },
                    m => m,
                },
                ..*old(self)
            }),
    {
        match self.mode {
            Mode::Work { start, duty, .. } => {
                self.mode = Mode::Work { duration, prev, cool_down, start, duty };
            },
            _ => {},
        }
    }

    pub fn set_work_duty(&mut self, start: Option<Time>, duty: Option<Duty>)
        ensures
            *final(self) == (State {
                mode: match old(self).mode {
                    Mode::Work { duration, prev, cool_down, .. } => Mode::Work { duration, prev, cool_down, start, duty },
                    m => m,
                },
                ..*old(self)
            }),
    {
        match self.mode {
            Mode::Work { duration, prev, cool_down, .. } => {
                self.mode = Mode::Work { duration, prev, cool_down, start, duty };
            },
            _ => {},
        }
    }

    /// The current puff's heating time in tenths of a second, rounded.
    pub fn calc_puff_duration(&self) -> (r: DeciSecond)
        requires
            puff_deciseconds(self.puff_duration) <= u32::MAX,
        ensures
            r == puff_deciseconds(self.puff_duration),
    {
        let mut duration = (self.puff_duration / DECI_SECOND) as DeciSecond;
        let part = self.puff_duration % DECI_SECOND;
        if part >= DECI_SECOND / 2 {
            duration += 1
        }
        duration
    }

    /// Adds the current puff to the coil and total times and starts a new one.
    pub fn commit_puff_duration(&mut self)
        requires
            puff_deciseconds(old(self).puff_duration) <= u32::MAX,
            old(self).stats.coil + puff_deciseconds(old(self).puff_duration) <= u32::MAX,
            old(self).stats.total + puff_deciseconds(old(self).puff_duration) <= u32::MAX,
        ensures
            *final(self) == (State {
                stats: Stats {
                    coil: (old(self).stats.coil + puff_deciseconds(old(self).puff_duration)) as u32,
                    total: (old(self).stats.total + puff_deciseconds(old(self).puff_duration)) as u32,
                    ..old(self).stats
                },
                puff_duration: 0,
                ..*old(self)
            }),
    {
        self.stats.coil += self.calc_puff_duration();
        self.stats.total += self.calc_puff_duration();
        self.puff_duration = 0;
    }

    pub fn edit_power(&mut self, increment: bool)
        ensures
            *final(self) == old(self).power_edited(increment),
    {
        let new = match increment {
            true => self.config.power.inc(),
            false => self.config.power.dec(),
        };
        if new != self.config.power {
            self.config.power = new;
            self.last = Some(Action::Power(true));
        }
    }

    pub fn edit_limit(&mut self, increment: bool)
        ensures
            *final(self) == old(self).limit_edited(increment),
    {
        let limit = self.config.limit;
        let new = if increment && limit < LIMIT_MAX {
            limit + 1
        } else if !increment && limit > LIMIT_MIN {
            limit - 1
        } else {
            return ;
        };
        if new != self.config.limit {
            self.config.limit = new;
            self.last = Some(Action::Limit(increment));
        }
    }

    pub fn edit_resistance(&mut self, increment: bool)
        ensures
            *final(self) == old(self).resistance_edited(increment),
    {
        let resistance = self.config.resistance;
        let new = if increment && resistance < RESISTANCE_MAX {
            resistance + 1
        } else if !increment && resistance > RESISTANCE_MIN {
            resistance - 1
        } else {
            return ;
        };
        if new != self.config.resistance {
            self.config.resistance = new;
            self.last = Some(Action::Resistance(increment));
        }
    }

    pub fn edit_brightness(&mut self, increment: bool)
        ensures
            *final(self) == old(self).brightness_edited(increment),
    {
        let brightness = self.config.brightness;
        let new = if increment && brightness < BRIGHTNESS_MAX {
            brightness + 1
        } else if !increment && brightness > BRIGHTNESS_MIN {
            brightness - 1
        } else {
            return ;
        };
        if new != self.config.brightness {
            self.config.brightness = new;
            self.last = Some(Action::Brightness(increment));
        }
    }

    pub fn set_load_mv(&mut self, mv: MilliVolt)
        ensures
            *final(self) == (State { battery: Battery { load: Some(mv), ..old(self).battery }, ..*old(self) }),
    {
        self.battery.load = Some(mv);
    }

    /// Records the charger status read from its pins; says whether it changed.
    pub fn set_charge_status(&mut self, charging: bool, full: bool, reverse: bool) -> (r: bool)
        ensures
            r == (status_of(charging, full, reverse) != old(self).battery.status),
            *final(self) == (State {
                battery: Battery { status: status_of(charging, full, reverse), ..old(self).battery },
                ..*old(self)
            }),
    {
        let status = ChargeStatus::pick(charging, full, reverse);
        if status != self.battery.status {
            self.battery.status = status;
            true
        } else {
            false
        }
    }

    pub fn reset_battery_mv(&mut self)
        ensures
            *final(self) == (State { battery: Battery { idle: None, ..old(self).battery }, ..*old(self) }),
    {
        self.set_battery_idle(None);
    }

    pub fn set_battery_idle(&mut self, mv: Option<MilliVolt>)
        ensures
            *final(self) == (State { battery: Battery { idle: mv, ..old(self).battery }, ..*old(self) }),
    {
        self.battery.idle = mv;
    }

    pub fn set_pressed(&mut self, left: bool, right: bool)
        ensures
            *final(self) == (State { buttons: Buttons { left, right }, ..*old(self) }),
    {
        self.buttons.left = left;
        self.buttons.right = right;
    }

    /// Takes the idle voltage, when known, as the full-battery voltage.
    pub fn update_full_mv(&mut self)
        ensures
            *final(self) == (match old(self).battery.idle {
                Some(idle) => State { config: Config { battery_full: idle, ..old(self).config }, ..*old(self) },
                None => *old(self),
            }),
    {
        let full = match self.battery.idle {
            Some(idle) => idle,
            None => return ,
        };
        self.config.battery_full = full;
    }

    /// The battery level against the configured full voltage, when the idle
    /// voltage is known.
    pub fn get_battery_level(&mut self) -> (r: Option<Percent>)
        requires
            old(self).battery.idle matches Some(idle) ==> idle >= VOLTS_MIN
                && old(self).config.battery_full > VOLTS_MIN,
        ensures
            *final(self) == *old(self),
            r == (match old(self).battery.idle {
                Some(idle) => Some(level_percent(idle, old(self).config.battery_full)),
                None => None::<Percent>,
            }),
    {
        let full = self.config.battery_full;
        let now = match self.battery.idle {
            Some(idle) => idle,
            None => return None,
        };
        Some(battery_level(now, full))
    }

    pub fn limit_ms(&self) -> (r: Time)
        ensures
            r == self.limit_in_ms(),
    {
        self.config.limit as Time * SECOND
    }

    pub fn progress(&self, duration: Time) -> (r: Progress)
        requires
            self.config.limit > 0,
            duration * (PROGRESS_MAX as int) <= u64::MAX,
        ensures
            r == self.progress_of(duration),
    {
        let limit = self.limit_ms();
        let max = PROGRESS_MAX as Time;
        let p = duration * max / limit;
        if p < max {
            p as Progress
        } else {
            PROGRESS_MAX
        }
    }
}

/// The tab a mode belongs to, if it is not the work screen.
pub open spec fn tab_index(mode: Mode) -> int {
    match mode {
        Mode::Settings(_) => 0,
        Mode::Puffs(_, _) => 1,
        Mode::Battery => 2,
        Mode::Work { .. } => -1,
    }
}

/// The tabs form a ring: a step forwards moves to the next tab, a step back
/// undoes a step forwards, three steps come back to the same tab, and the
/// work screen has no tabs to switch.
pub proof fn law_tab_ring(mode: Mode, next: bool)
    ensures
        mode is Work ==> switched_mode(mode, next) == mode,
        !(mode is Work) ==> tab_index(switched_mode(mode, true)) == (tab_index(mode) + 1) % 3,
        !(mode is Work) ==> tab_index(switched_mode(switched_mode(mode, next), !next)) == tab_index(mode),
        !(mode is Work) ==> tab_index(
            switched_mode(switched_mode(switched_mode(mode, next), next), next),
        ) == tab_index(mode),
{
}

/// Touching in the settings tab walks through the four editors and back
/// to browsing.
pub proof fn law_settings_cycle(e: EditSettings, stats: Stats)
    ensures
        touched_mode(
            touched_mode(
                touched_mode(touched_mode(touched_mode(Mode::Settings(e), stats), stats), stats),
                stats,
            ),
            stats,
        ) == Mode::Settings(e),
        touched_mode(Mode::Settings(e), stats) != Mode::Settings(e),
{
}

/// Touching in the puffs tab offers only statistics that are not zero, and
/// offers nothing when all are zero.
pub proof fn law_next_offer(r: ResetPuffs, stats: Stats)
    ensures
        ({
            let n = next_offer(r, stats);
            &&& n == ResetPuffs::Coil ==> stats.coil > 0
            &&& n == ResetPuffs::Count ==> stats.count > 0
            &&& n == ResetPuffs::Total ==> stats.total > 0
        }),
        stats.coil == 0 && stats.count == 0 && stats.total == 0 ==> next_offer(r, stats) == ResetPuffs::Nothing,
    decreases offers_left(r),
{
    let n = r.successor();
    if !(n == ResetPuffs::Nothing || (n == ResetPuffs::Coil && stats.coil > 0) || (n == ResetPuffs::Count
        && stats.count > 0) || (n == ResetPuffs::Total && stats.total > 0)) {
        law_next_offer(n, stats);
    }
}

/// A touch in the puffs tab offers for reset the first statistic after the
/// current offer, in the order coil, count, total, that is not zero, and
/// goes back to no offer after the last one; no statistic that is not zero
/// is skipped.
pub proof fn law_touch_offers_in_order(r: ResetPuffs, p: Option<Progress>, stats: Stats)
    ensures
        ({
            let coil = stats.coil > 0;
            let count = stats.count > 0;
            let total = stats.total > 0;
            let n = touched_mode(Mode::Puffs(r, p), stats);
            &&& r == ResetPuffs::Nothing && coil ==> n == Mode::Puffs(ResetPuffs::Coil, None)
            &&& r == ResetPuffs::Nothing && !coil && count ==> n == Mode::Puffs(ResetPuffs::Count, None)
            &&& r == ResetPuffs::Nothing && !coil && !count && total ==> n == Mode::Puffs(ResetPuffs::Total, None)
            &&& r == ResetPuffs::Nothing && !coil && !count && !total ==> n == Mode::Puffs(ResetPuffs::Nothing, None)
            &&& r == ResetPuffs::Coil && count ==> n == Mode::Puffs(ResetPuffs::Count, None)
            &&& r == ResetPuffs::Coil && !count && total ==> n == Mode::Puffs(ResetPuffs::Total, None)
            &&& r == ResetPuffs::Coil && !count && !total ==> n == Mode::Puffs(ResetPuffs::Nothing, None)
            &&& r == ResetPuffs::Count && total ==> n == Mode::Puffs(ResetPuffs::Total, None)
            &&& r == ResetPuffs::Count && !total ==> n == Mode::Puffs(ResetPuffs::Nothing, None)
            &&& r == ResetPuffs::Total ==> n == Mode::Puffs(ResetPuffs::Nothing, None)
        }),
{
    reveal_with_fuel(next_offer, 4);
}

/// An editor keeps a setting that starts within its bounds within them.
pub proof fn law_steps_stay_in_range(value: u8, min: u8, max: u8, increment: bool)
    requires
        min <= value <= max,
    ensures
        min <= stepped(value, min, max, increment) <= max,
{
}

/// Stepping a setting within its bounds one way and back gives it back,
/// whenever the first step changed it.
pub proof fn law_step_back(value: u8, min: u8, max: u8, increment: bool)
    requires
        min <= value <= max,
        stepped(value, min, max, increment) != value,
    ensures
        stepped(stepped(value, min, max, increment), min, max, !increment) == value,
{
}

/// A puff's time in tenths of a second is its time in milliseconds rounded
/// to the nearest tenth, halves up, while it fits 32 bits.
pub proof fn law_puff_rounding(ms: Time)
    requires
        ms / DECI_SECOND < u32::MAX,
    ensures
        puff_deciseconds(ms) * 100 - 50 <= ms < puff_deciseconds(ms) * 100 + 50,
{
}

/// The progress of a puff stays within the bar, grows with the puff and
/// is full at the limit.
pub proof fn law_progress(s: State, a: Time, b: Time)
    requires
        s.config.limit > 0,
        a <= b,
    ensures
        s.progress_of(a) <= s.progress_of(b) <= PROGRESS_MAX,
        b >= s.limit_in_ms() ==> s.progress_of(b) == PROGRESS_MAX,
{
    assert(a * 255 / s.limit_in_ms() <= b * 255 / s.limit_in_ms()) by (nonlinear_arith)
        requires
            a <= b,
            s.limit_in_ms() > 0,
    ;
    if b >= s.limit_in_ms() {
        assert(b * 255 / s.limit_in_ms() >= 255) by (nonlinear_arith)
            requires
                b >= s.limit_in_ms(),
                s.limit_in_ms() > 0,
        ;
    }
}

/// The battery level never exceeds 100 and grows with the voltage.
pub proof fn law_level(a: MilliVolt, b: MilliVolt, full: MilliVolt)
    requires
        VOLTS_MIN <= a <= b,
        full > VOLTS_MIN,
    ensures
        level_percent(a, full) <= level_percent(b, full) <= 100,
        b >= full ==> level_percent(b, full) == 100,
{
    assert((a - VOLTS_MIN) * 100 / (full - VOLTS_MIN) <= (b - VOLTS_MIN) * 100 / (full - VOLTS_MIN))
        by (nonlinear_arith)
        requires
            VOLTS_MIN <= a <= b,
            full > VOLTS_MIN,
    ;
    if b >= full {
        assert((b - VOLTS_MIN) * 100 / (full - VOLTS_MIN) >= 100) by (nonlinear_arith)
            requires
                b >= full > VOLTS_MIN,
        ;
    }
}

} // verus!
