use vstd::prelude::*;
use crate::data::action::Action;
use crate::data::config::Config;
use crate::data::edit_settings::EditSettings;
use crate::data::mode::{idle_work, Mode};
use crate::data::reset_puffs::ResetPuffs;
use crate::data::state::{puff_deciseconds, State};
use crate::data::stats::Stats;
use crate::types::{Duty, MilliVolt, Time};
use crate::values::{BATTERY_PERIOD, PUFF_THRESHOLD, SCREENSAVER_TIMEOUT, SECOND};

verus! {

/// The duty cycle used while the load voltage is measured.
pub const TEST_DUTY: Duty = 0x4;
/// How long a load measurement runs, in ms.
pub const MEASURE_TIME: Time = 100;

/// Work with the battery voltmeter that a turn of the main loop asks for.
#[derive(Clone, Copy, PartialEq, Eq, Structural, Debug)]
pub enum Measure {
    Nothing,
    /// Connect the voltmeter and start a load measurement.
    Start,
    /// Abandon the running measurement.
    Stop,
    /// Read the measurement and hand it to `complete_measuring`.
    Finish,
}

impl State {
    /// The state after undoing the last edit, if there is one to undo.
    pub open spec fn reverted(self) -> State {
        match self.last {
            None => self,
            Some(Action::Power(i)) => State { last: None, ..self.power_edited(!i) },
            Some(Action::Limit(i)) => State { last: None, ..self.limit_edited(!i) },
            Some(Action::Resistance(i)) => State { last: None, ..self.resistance_edited(!i) },
            Some(Action::Brightness(i)) => State { last: None, ..self.brightness_edited(!i) },
        }
    }

    /// Whether the work screen is cooling down: the puff reached the limit,
    /// or it was cooling and is still running or pressed.
    pub open spec fn cooling(self, left: bool, right: bool, duration: Time, cool_down: bool) -> bool {
        duration >= self.limit_in_ms() || cool_down && (duration > 0 || left || right)
    }

    /// Whether a heating turn adds time: both buttons held now and on the
    /// previous turn, and not cooling.
    pub open spec fn heats(self, left: bool, right: bool, cool: bool) -> bool {
        !cool && left && right && self.buttons.left && self.buttons.right
    }

    /// Whether a turn winds the puff back.
    pub open spec fn winds_down(self, left: bool, right: bool, cool: bool) -> bool {
        cool || !left || !right
    }

    /// The puff's heating time after a turn at `now`: it grows by the time
    /// since `prev` while heating, shrinks by it (not below zero) while not
    /// pressed or cooling, and otherwise stays.
    pub open spec fn next_duration(self, left: bool, right: bool, now: Time, duration: Time, prev: Time, cool: bool) -> int {
        if self.winds_down(left, right, cool) {
            if now - prev < duration { duration - (now - prev) } else { 0 }
        } else if self.heats(left, right, cool) {
            duration + (now - prev)
        } else {
            duration as int
        }
    }

    /// The statistics after a turn: a puff that ends is added to the times,
    /// a puff that passes the threshold is counted once, and the count can
    /// happen again once the heating time is back at zero.
    pub open spec fn stats_committed(self, left: bool, right: bool, duration: Time) -> State {
        let s = if self.buttons.left && self.buttons.right && (!left || !right) {
            State {
                stats: Stats {
                    coil: (self.stats.coil + puff_deciseconds(self.puff_duration)) as u32,
                    total: (self.stats.total + puff_deciseconds(self.puff_duration)) as u32,
                    ..self.stats
                },
                puff_duration: 0,
                ..self
            }
        } else {
            self
        };
        if !s.puff_trigger && duration > PUFF_THRESHOLD {
            State { stats: Stats { count: (s.stats.count + 1) as u32, ..s.stats }, puff_trigger: true, ..s }
        } else if s.puff_trigger && duration == 0 {
            State { puff_trigger: false, ..s }
        } else {
            s
        }
    }

    /// Whether committing the statistics stays within 32 bits.
    pub open spec fn commit_fits(self, left: bool, right: bool, duration: Time) -> bool {
        let ends = self.buttons.left && self.buttons.right && (!left || !right);
        &&& ends ==> {
            &&& puff_deciseconds(self.puff_duration) <= u32::MAX
            &&& self.stats.coil + puff_deciseconds(self.puff_duration) <= u32::MAX
            &&& self.stats.total + puff_deciseconds(self.puff_duration) <= u32::MAX
        }
        &&& !self.puff_trigger && duration > PUFF_THRESHOLD ==> self.stats.count < u32::MAX
    }
}

/// Undoes the last settings edit: the same setting is stepped the other way.
pub fn revert_last(state: &mut State)
    ensures
        *final(state) == old(state).reverted(),
{
    let last = match state.last {
        Some(last) => last,
        None => return ,
    };
    match last {
        Action::Power(increment) => state.edit_power(!increment),
        Action::Limit(increment) => state.edit_limit(!increment),
        Action::Resistance(increment) => state.edit_resistance(!increment),
        Action::Brightness(increment) => state.edit_brightness(!increment),
    }
    state.last = None;
}

/// Counts a puff and adds finished puffs to the statistics.
pub fn commit_stats(state: &mut State, left_pressed: bool, right_pressed: bool, duration: Time)
    requires
        old(state).commit_fits(left_pressed, right_pressed, duration),
    ensures
        *final(state) == old(state).stats_committed(left_pressed, right_pressed, duration),
{
    if state.buttons.left && state.buttons.right && (!left_pressed || !right_pressed) {
        state.commit_puff_duration();
    }
    if !state.puff_trigger && duration > PUFF_THRESHOLD {
        state.stats.count += 1;
        state.puff_trigger = true;
    } else if state.puff_trigger && duration == 0 {
        state.puff_trigger = false;
    }
}

/// Whether the arithmetic of a work turn stays in range.
pub open spec fn work_fits(state: State, left: bool, right: bool, now: Time) -> bool {
    match state.mode {
        Mode::Work { duration, prev, cool_down, start, .. } => {
            let cool = state.cooling(left, right, duration, cool_down);
            let next = state.next_duration(left, right, now, duration, prev, cool);
            let heating = state.heats(left, right, cool);
            &&& state.battery.idle is Some ==> {
                &&& (state.winds_down(left, right, cool) || heating) ==> now >= prev
                &&& heating ==> next <= u64::MAX && state.puff_duration + (now - prev) <= u64::MAX
                &&& State {
                    puff_duration: if heating { (state.puff_duration + (now - prev)) as u64 } else { state.puff_duration },
                    ..state
                }.commit_fits(left, right, next as u64)
                &&& (!cool && left && right && start is Some) ==> now >= start->0
            }
        },
        _ => true,
    }
}

/// The state and the voltmeter work after a turn of the work screen.
pub open spec fn worked(state: State, left: bool, right: bool, now: Time) -> (State, Measure) {
    match state.mode {
        Mode::Work { duration, prev, cool_down, start, duty } => {
            if state.battery.idle is None {
                (state, Measure::Nothing)
            } else {
                let cool = state.cooling(left, right, duration, cool_down);
                let next = state.next_duration(left, right, now, duration, prev, cool) as u64;
                let heating = state.heats(left, right, cool);
                let s1 = State {
                    puff_duration: if heating { (state.puff_duration + (now - prev)) as u64 } else { state.puff_duration },
                    ..state
                };
                let s2 = s1.stats_committed(left, right, next);
                let s3 = State {
                    mode: Mode::Work { duration: next, prev: now, cool_down: cool, start, duty },
                    ..s2
                };
                let with_duty = |st: Option<Time>, d: Option<Duty>| State {
                    mode: Mode::Work { duration: next, prev: now, cool_down: cool, start: st, duty: d },
                    ..s2
                };
                if cool || (next == 0 && !left && !right) {
                    (with_duty(None, None), Measure::Nothing)
                } else if start is None && duty is Some {
                    (s3, Measure::Nothing)
                } else if !left || !right {
                    if start is Some {
                        (with_duty(None, duty), Measure::Stop)
                    } else {
                        (s3, Measure::Nothing)
                    }
                } else if start is None {
                    (with_duty(Some(now), Some(TEST_DUTY)), Measure::Start)
                } else if now - start->0 < MEASURE_TIME {
                    (s3, Measure::Nothing)
                } else {
                    (s3, Measure::Finish)
                }
            }
        },
        _ => (state, Measure::Nothing),
    }
}

/// One turn of the work screen: winds the puff's heating time up or down,
/// updates the statistics, and drives the load measurement that gives the
/// duty cycle.
pub fn calc_work_progress_and_duty_and_stats(
    state: &mut State,
    left_pressed: bool,
    right_pressed: bool,
    now: Time,
) -> (r: Measure)
    requires
        work_fits(*old(state), left_pressed, right_pressed, now),
    ensures
        (*final(state), r) == worked(*old(state), left_pressed, right_pressed, now),
{
    let (mut duration, prev, cool_down, start, duty) = match state.mode {
        Mode::Work { duration, prev, cool_down, start, duty } => (duration, prev, cool_down, start, duty),
        _ => return Measure::Nothing,
    };
    if state.battery.idle.is_none() {
        return Measure::Nothing;
    }
    let ghost s0 = *state;
    let limit = state.limit_ms();
    let cool_down = duration >= limit || cool_down && (duration > 0 || left_pressed || right_pressed);
    if cool_down || !left_pressed || !right_pressed {
        let dt = now - prev;
        duration -= if dt < duration { dt } else { duration };
    } else if !state.buttons.left {
    } else if !state.buttons.right {
    } else {
        let dt = now - prev;
        duration += dt;
        state.puff_duration += dt;
    }
    commit_stats(state, left_pressed, right_pressed, duration);
    state.set_work_duration(duration, now, cool_down);
    if cool_down || duration == 0 && !left_pressed && !right_pressed {
        state.set_work_duty(None, None);
        Measure::Nothing
    } else if start.is_none() && duty.is_some() {
        Measure::Nothing
    } else if !left_pressed || !right_pressed {
        if start.is_some() {
            state.set_work_duty(None, duty);
            Measure::Stop
        } else {
            Measure::Nothing
        }
    } else {
        match start {
            None => {
                state.set_work_duty(Some(now), Some(TEST_DUTY));
                Measure::Start
            },
            Some(start) => if now - start < MEASURE_TIME {
                Measure::Nothing
            } else {
                Measure::Finish
            },
        }
    }
}

/// The state after a finished load measurement: a failed one stops the puff
/// and cools the coil down; a good one records the load voltage and sets the
/// test duty cycle.
pub open spec fn measured(state: State, load: Option<MilliVolt>, now: Time) -> State {
    match state.mode {
        Mode::Work { duration, prev, cool_down, start, duty } => match load {
            None => State {
                mode: Mode::Work { duration, prev: now, cool_down: true, start: None, duty: None },
                ..state
            },
            Some(mv) => State {
                mode: Mode::Work { duration, prev, cool_down, start: None, duty: Some(TEST_DUTY) },
                battery: crate::data::battery::Battery { load: Some(mv), ..state.battery },
                ..state
            },
        },
        _ => match load {
            None => state,
            Some(mv) => State { battery: crate::data::battery::Battery { load: Some(mv), ..state.battery }, ..state },
        },
    }
}

/// Whether the duty arithmetic after a good load measurement can run: on
/// the work screen with an idle voltage known, the voltages must suit
/// `Config::target_duty`.
pub open spec fn measure_fits(state: State, load: Option<MilliVolt>) -> bool {
    (load is Some && state.mode is Work && state.battery.idle is Some)
        ==> state.config.duty_fits(state.battery.idle->0, load->0)
}

/// Tells whether `complete_measuring` can run on this outcome.
pub fn measuring_fits(state: &State, load: Option<MilliVolt>) -> (r: bool)
    ensures
        r == measure_fits(*state, load),
{
    match (load, state.mode, state.battery.idle) {
        (Some(mv), Mode::Work { .. }, Some(idle)) => state.config.duty_computable(idle, mv),
        _ => true,
    }
}

/// Applies the outcome of a load measurement that `Measure::Finish` asked for.
/// A good one also works out the duty cycle for the configured power, which
/// the coil does not use yet: it is driven at the test duty.
pub fn complete_measuring(state: &mut State, load: Option<MilliVolt>, now: Time)
    requires
        measure_fits(*old(state), load),
    ensures
        *final(state) == measured(*old(state), load, now),
{
    if let (Some(mv), Mode::Work { .. }, Some(idle)) = (load, state.mode, state.battery.idle) {
        let _target = state.config.target_duty(idle, mv);
    }
    match load {
        None => {
            let duration = match state.mode {
                Mode::Work { duration, .. } => duration,
                _ => 0,
            };
            state.set_work_duration(duration, now, true);
            state.set_work_duty(None, None);
        },
        Some(mv) => {
            state.set_load_mv(mv);
            state.set_work_duty(None, Some(TEST_DUTY));
        },
    }
}

/// The state after a press turn outside the work screen: with no change
/// of the buttons, with a button already held, or with both or neither
/// pressed nothing happens; a single new press moves between tabs or, in
/// an editor, steps the setting (right raises, left lowers).
pub open spec fn browsed(state: State, left: bool, right: bool) -> State {
    if (state.buttons.left == left && state.buttons.right == right) || state.buttons.left
        || state.buttons.right || left == right {
        state
    } else {
        match state.mode {
            Mode::Settings(EditSettings::Nothing) | Mode::Puffs(ResetPuffs::Nothing, _) | Mode::Battery => State {
                mode: crate::data::state::switched_mode(state.mode, right),
                ..state
            },
            Mode::Settings(EditSettings::Power) => state.power_edited(right),
            Mode::Settings(EditSettings::Limit) => state.limit_edited(right),
            Mode::Settings(EditSettings::Resistance) => state.resistance_edited(right),
            Mode::Settings(EditSettings::Brightness) => state.brightness_edited(right),
            _ => state,
        }
    }
}

/// The state before the dispatch of a press turn: pressing the second
/// button while one is held undoes the last edit and leaves for the work
/// screen; an edit can no longer be undone once both or neither are held.
pub open spec fn press_prepared(state: State, left: bool, right: bool) -> State {
    let s1 = if !(state.mode is Work) && state.buttons.left != state.buttons.right && left && right {
        State { mode: idle_work(), ..state.reverted() }
    } else {
        state
    };
    if left == right { State { last: None, ..s1 } } else { s1 }
}

/// The state and the voltmeter work after a turn with the given buttons;
/// with USB power and no duty yet, the work screen waits.
pub open spec fn pressed(state: State, usb_connected: bool, left: bool, right: bool, now: Time) -> (State, Measure) {
    let s2 = press_prepared(state, left, right);
    let (s3, m) = match s2.mode {
        Mode::Work { duty, .. } => if duty is None && usb_connected {
            (s2, Measure::Nothing)
        } else {
            worked(s2, left, right, now)
        },
        _ => (browsed(s2, left, right), Measure::Nothing),
    };
    (State { buttons: crate::data::buttons::Buttons { left, right }, ..s3 }, m)
}

/// Handles the buttons for one turn of the main loop.
pub fn handle_pressed(state: &mut State, usb_connected: bool, left_pressed: bool, right_pressed: bool, now: Time) -> (r: Measure)
    requires
        old(state).mode matches Mode::Work { duty, .. } && !(duty is None && usb_connected)
            ==> work_fits(*old(state), left_pressed, right_pressed, now),
    ensures
        (*final(state), r) == pressed(*old(state), usb_connected, left_pressed, right_pressed, now),
{
    let ghost s0 = *state;
    if !state.mode.is_work() && (state.buttons.left != state.buttons.right) && left_pressed && right_pressed {
        revert_last(state);
        state.reset_mode();
    }
    if left_pressed == right_pressed {
        state.last = None;
    }
    let measure = match state.mode {
        Mode::Work { duty, .. } => {
            if duty.is_none() && usb_connected {
                Measure::Nothing
            } else {
                assert(work_fits(*state, left_pressed, right_pressed, now));
                calc_work_progress_and_duty_and_stats(state, left_pressed, right_pressed, now)
            }
        },
        _ => {
            if state.buttons(left_pressed, right_pressed) {
            } else if state.buttons.left || state.buttons.right {
            } else if left_pressed == right_pressed {
            } else {
                match state.mode {
                    Mode::Settings(EditSettings::Nothing) | Mode::Puffs(ResetPuffs::Nothing, _) | Mode::Battery => {
                        state.switch_tab(right_pressed)
                    },
                    Mode::Settings(EditSettings::Power) => state.edit_power(right_pressed),
                    Mode::Settings(EditSettings::Limit) => state.edit_limit(right_pressed),
                    Mode::Settings(EditSettings::Resistance) => state.edit_resistance(right_pressed),
                    Mode::Settings(EditSettings::Brightness) => state.edit_brightness(right_pressed),
                    _ => {},
                }
            }
            Measure::Nothing
        },
    };
    state.set_pressed(left_pressed, right_pressed);
    measure
}

/// Whether the battery voltage is due for a measurement: it is unknown,
/// never measured, or older than `BATTERY_PERIOD`.
pub open spec fn battery_stale(state: State, last_check: Time, now: Time) -> bool {
    state.battery.idle is None || last_check == 0 || now - last_check > BATTERY_PERIOD
}

/// Decides about the idle battery voltage for a turn without heating:
/// during a puff nothing happens; on USB power the voltage is forgotten;
/// otherwise a stale voltage is measured again. Says whether to measure.
pub fn update_battery(state: &mut State, usb_connected: bool, last_check: Time, now: Time) -> (r: bool)
    requires
        old(state).battery.idle is Some && last_check != 0 ==> now >= last_check,
    ensures
        ({
            let s = *old(state);
            let zero = match s.mode {
                Mode::Work { duration, .. } => duration == 0,
                _ => true,
            };
            if !zero {
                !r && *final(state) == s
            } else if usb_connected {
                !r && *final(state) == (State {
                    battery: crate::data::battery::Battery { idle: None, ..s.battery },
                    ..s
                })
            } else {
                r == battery_stale(s, last_check, now) && *final(state) == s
            }
        }),
{
    let need_update = state.battery.idle.is_none() || last_check == 0 || (now - last_check) > BATTERY_PERIOD;
    if !state.is_progress_zero() {
        false
    } else if usb_connected {
        state.reset_battery_mv();
        false
    } else {
        need_update
    }
}

/// What the green status light does on a turn.
#[derive(Clone, Copy, PartialEq, Eq, Structural, Debug)]
pub enum Led {
    On,
    Off,
    Keep,
}

/// Reacts to the touch sensor being touched or released: a new touch with
/// the display on and no button held moves to the next mode; the light
/// follows the sensor.
pub fn touch_edge(state: &mut State, touched: bool, display_on: bool, left_pressed: bool, right_pressed: bool) -> (r: Led)
    ensures
        old(state).touched is None && touched ==> r == Led::On && *final(state) == (if display_on && !left_pressed && !right_pressed {
            State { mode: crate::data::state::touched_mode(old(state).mode, old(state).stats), ..*old(state) }
        } else {
            *old(state)
        }),
        old(state).touched is Some && !touched ==> r == Led::Off && *final(state) == *old(state),
        (old(state).touched is Some) == touched ==> r == Led::Keep && *final(state) == *old(state),
{
    if !state.touched() && touched {
        if display_on && !left_pressed && !right_pressed {
            state.next_mode();
        }
        Led::On
    } else if state.touched() && !touched {
        Led::Off
    } else {
        Led::Keep
    }
}

/// Whether the user did something since the last turn: the touch sensor
/// or a button changed.
pub fn activity(state: &State, touched: bool, left_pressed: bool, right_pressed: bool) -> (r: bool)
    ensures
        r == ((state.touched is Some) != touched || state.buttons.left != left_pressed
            || state.buttons.right != right_pressed),
{
    state.touched() != touched || !state.buttons(left_pressed, right_pressed)
}

/// What holding the touch sensor leads to.
#[derive(Clone, Copy, PartialEq, Eq, Structural, Debug)]
pub enum Hold {
    Nothing,
    /// Held for more than two seconds: the screen saver starts.
    ScreenSaver,
}

/// Tracks how long the touch sensor is held: the time of a new touch is
/// kept, a release forgets it; held for more than two seconds it goes back
/// to the work screen and starts the screen saver, held for more than one
/// second outside the work screen it goes back to the work screen.
pub fn track_touch(state: &mut State, touched: bool, now: Time) -> (r: Hold)
    requires
        (touched && old(state).touched is Some) ==> old(state).touched->0 + 2 * SECOND <= u64::MAX,
    ensures
        ({
            let s = *old(state);
            match s.touched {
                None => r == Hold::Nothing && *final(state) == (if touched {
                    State { touched: Some(now), ..s }
                } else {
                    s
                }),
                Some(t) => if !touched {
                    r == Hold::Nothing && *final(state) == (State { touched: None, ..s })
                } else if now > t + 2 * SECOND {
                    r == Hold::ScreenSaver && *final(state) == (State { mode: idle_work(), ..s })
                } else if !(s.mode is Work) && now > t + SECOND {
                    r == Hold::Nothing && *final(state) == (State { mode: idle_work(), ..s })
                } else {
                    r == Hold::Nothing && *final(state) == s
                },
            }
        }),
{
    match state.touched {
        None => {
            if touched {
                state.touched = Some(now);
            }
            Hold::Nothing
        },
        Some(time) => {
            if !touched {
                state.touched = None;
                Hold::Nothing
            } else if now > time + SECOND * 2 {
                state.reset_mode();
                Hold::ScreenSaver
            } else if !state.mode.is_work() && now > time + SECOND {
                state.reset_mode();
                Hold::Nothing
            } else {
                Hold::Nothing
            }
        },
    }
}

/// What the display does at the end of a turn.
#[derive(Clone, Copy, PartialEq, Eq, Structural, Debug)]
pub enum Screen {
    /// Draw the current mode.
    Render,
    /// Run the screen saver (on external power).
    ScreenSaver,
    /// Switch the display off to save the battery.
    Off,
    /// Nothing to do: the display is already off.
    Keep,
}

/// Decides the display at the end of a turn: it shows the mode while
/// anything is pressed, the coil is driven, or the last interaction is
/// recent; otherwise it goes back to the work screen and runs the screen
/// saver on external power, or switches off.
pub fn screen_plan(
    state: &mut State,
    touched: bool,
    left_pressed: bool,
    right_pressed: bool,
    driving: bool,
    now: Time,
    last_interaction: Time,
    display_on: bool,
) -> (r: Screen)
    requires
        !(touched || left_pressed || right_pressed || driving) ==> now >= last_interaction,
    ensures
        ({
            let s = *old(state);
            if touched || left_pressed || right_pressed || driving || now - last_interaction < SCREENSAVER_TIMEOUT {
                r == Screen::Render && *final(state) == s
            } else if s.battery.status.powered() {
                r == Screen::ScreenSaver && *final(state) == (State { mode: idle_work(), ..s })
            } else if display_on {
                r == Screen::Off && *final(state) == (State { mode: idle_work(), ..s })
            } else {
                r == Screen::Keep && *final(state) == s
            }
        }),
{
    if touched || left_pressed || right_pressed || driving || (now - last_interaction) < SCREENSAVER_TIMEOUT {
        Screen::Render
    } else if state.battery.status.is_powered() {
        state.reset_mode();
        Screen::ScreenSaver
    } else if display_on {
        state.reset_mode();
        Screen::Off
    } else {
        Screen::Keep
    }
}

/// Frames the screen saver draws between two looks at the inputs.
pub const SAVER_FRAMES: u8 = 8;

/// The screen saver's frame counter: the light blinks with every frame,
/// the first frame restarts the game, and after each `SAVER_FRAMES` frames
/// the inputs are looked at.
pub struct SaverCycle {
    pub counter: u8,
    pub light: bool,
    pub restart: bool,
    /// Whether a touch ended the screen saver.
    pub touched: bool,
}

/// One frame of the screen saver.
#[derive(Clone, Copy, PartialEq, Eq, Structural, Debug)]
pub struct SaverFrame {
    pub light: bool,
    pub restart: bool,
    /// Whether the inputs are to be looked at after this frame.
    pub check: bool,
}

impl SaverCycle {
    pub fn new() -> (r: Self)
        ensures
            r.counter == SAVER_FRAMES,
            r.light,
            r.restart,
            !r.touched,
    {
        SaverCycle { counter: SAVER_FRAMES, light: true, restart: true, touched: false }
    }

    /// Whether another frame is to be drawn.
    pub fn running(&self) -> (r: bool)
        ensures
            r == (self.counter > 0),
    {
        self.counter > 0
    }

    pub fn frame(&mut self) -> (r: SaverFrame)
        requires
            old(self).counter > 0,
        ensures
            r.light == old(self).light,
            r.restart == old(self).restart,
            final(self).light == !old(self).light,
            !final(self).restart,
            final(self).counter == old(self).counter - 1,
            final(self).touched == old(self).touched,
            r.check == (final(self).counter == 0),
    {
        let light = self.light;
        self.light = !self.light;
        let restart = self.restart;
        self.restart = false;
        self.counter -= 1;
        SaverFrame { light, restart, check: self.counter == 0 }
    }

    /// Keeps the screen saver running for another round of frames.
    pub fn rearm(&mut self)
        ensures
            final(self).counter == SAVER_FRAMES,
            final(self).light == old(self).light,
            final(self).restart == old(self).restart,
            final(self).touched == old(self).touched,
    {
        self.counter = SAVER_FRAMES;
    }

    /// Takes what the inputs showed after a round of frames: a touch, a
    /// button, a change of the charger or of the USB supply ends the screen
    /// saver (a touch is remembered); with none of them it runs another round.
    pub fn observe(&mut self, input: SaverInput)
        ensures
            final(self).counter == (if input is Quiet { SAVER_FRAMES } else { old(self).counter }),
            final(self).touched == (old(self).touched || input is Touch),
            final(self).light == old(self).light,
            final(self).restart == old(self).restart,
    {
        match input {
            SaverInput::Touch => self.touched = true,
            SaverInput::Quiet => self.rearm(),
            _ => (),
        }
    }

    /// The touch time that the screen saver leaves behind: `now` when a
    /// touch ended it, else none.
    pub fn touch_time(&self, now: Time) -> (r: Option<Time>)
        ensures
            r == (if self.touched { Some(now) } else { None }),
    {
        if self.touched {
            Some(now)
        } else {
            None
        }
    }
}

/// What the inputs showed after a round of screen-saver frames, the first
/// of these in this order: the sensor touched, a button pressed, the
/// charger or the USB supply changed, or nothing.
#[derive(Clone, Copy, PartialEq, Eq, Structural, Debug)]
pub enum SaverInput {
    Touch,
    Button,
    Supply,
    Quiet,
}

/// What the display does at the start of a turn.
#[derive(Clone, Copy, PartialEq, Eq, Structural, Debug)]
pub enum Wake {
    /// The display is on: the turn goes on.
    Awake,
    /// The display is off and something happened: switch it on.
    WakeUp,
    /// The display is off and nothing happened: sleep longer.
    Doze,
}

/// Decides the display at the start of a turn: an off display is switched
/// on by any interaction and otherwise stays off while the device sleeps.
pub fn wake_plan(display_on: bool, interaction: bool) -> (r: Wake)
    ensures
        r == (if display_on { Wake::Awake } else if interaction { Wake::WakeUp } else { Wake::Doze }),
{
    if display_on {
        Wake::Awake
    } else if interaction {
        Wake::WakeUp
    } else {
        Wake::Doze
    }
}

/// In a settings editor, with no button held before, a new press of the
/// right button alone raises the edited setting by one step and the left
/// alone lowers it, within the setting's bounds; the edit is remembered for
/// undoing (a power edit is remembered as a raise) and nothing else changes.
pub proof fn law_press_steps_setting(s: State, usb_connected: bool, left: bool, right: bool, now: Time)
    requires
        s.mode is Settings,
        !s.buttons.left && !s.buttons.right,
        left != right,
    ensures
        ({
            let t = pressed(s, usb_connected, left, right, now).0;
            let c = s.config;
            &&& s.mode == Mode::Settings(EditSettings::Resistance) ==> {
                &&& t.config.resistance == (if right && c.resistance < crate::values::RESISTANCE_MAX {
                    c.resistance + 1
                } else if left && c.resistance > crate::values::RESISTANCE_MIN {
                    c.resistance - 1
                } else {
                    c.resistance as int
                })
                &&& t.config.resistance != c.resistance ==> t.last == Some(Action::Resistance(right))
                &&& t.config == (Config { resistance: t.config.resistance, ..c })
            }
            &&& s.mode == Mode::Settings(EditSettings::Limit) ==> {
                &&& t.config.limit == (if right && c.limit < crate::values::LIMIT_MAX {
                    c.limit + 1
                } else if left && c.limit > crate::values::LIMIT_MIN {
                    c.limit - 1
                } else {
                    c.limit as int
                })
                &&& t.config.limit != c.limit ==> t.last == Some(Action::Limit(right))
                &&& t.config == (Config { limit: t.config.limit, ..c })
            }
            &&& s.mode == Mode::Settings(EditSettings::Brightness) ==> {
                &&& t.config.brightness == (if right && c.brightness < crate::values::BRIGHTNESS_MAX {
                    c.brightness + 1
                } else if left && c.brightness > crate::values::BRIGHTNESS_MIN {
                    c.brightness - 1
                } else {
                    c.brightness as int
                })
                &&& t.config.brightness != c.brightness ==> t.last == Some(Action::Brightness(right))
                &&& t.config == (Config { brightness: t.config.brightness, ..c })
            }
            &&& s.mode == Mode::Settings(EditSettings::Power) ==> {
                &&& t.config.power == (if right {
                    match c.power {
                        crate::data::power::Power::Rare => crate::data::power::Power::Medium,
                        crate::data::power::Power::Medium => crate::data::power::Power::Well,
                        _ => crate::data::power::Power::Hard,
                    }
                } else {
                    match c.power {
                        crate::data::power::Power::Hard => crate::data::power::Power::Well,
                        crate::data::power::Power::Well => crate::data::power::Power::Medium,
                        _ => crate::data::power::Power::Rare,
                    }
                })
                &&& t.config.power != c.power ==> t.last == Some(Action::Power(true))
                &&& t.config == (Config { power: t.config.power, ..c })
            }
            &&& s.mode != Mode::Settings(EditSettings::Nothing) ==> t.mode == s.mode
        }),
{
}

/// A work turn that ends with the heating time at zero and neither button
/// pressed leaves no duty and no measurement running, and asks nothing of
/// the voltmeter: the next puff measures the load again.
pub proof fn law_released_puff_drops_duty(s: State, usb_connected: bool, now: Time)
    requires
        s.mode is Work,
        s.battery.idle is Some,
    ensures
        ({
            let (t, m) = worked(s, false, false, now);
            (t.mode is Work && t.mode->duration == 0)
                ==> t.mode->start is None && t.mode->duty is None && m == Measure::Nothing
        }),
        ({
            let (t, m) = pressed(s, usb_connected, false, false, now);
            (!(s.mode->duty is None && usb_connected) && t.mode is Work && t.mode->duration == 0)
                ==> t.mode->start is None && t.mode->duty is None && m == Measure::Nothing
        }),
{
}

/// Undoing an edit restores the settings and forgets the edit, for the
/// limit, the resistance and the brightness when they start within their
/// bounds, and for power when the edit raised it. (A lowered power level is
/// recorded as raised, so undoing it lowers it again.)
pub proof fn law_revert_undoes_edit(s: State, increment: bool)
    ensures
        crate::values::LIMIT_MIN <= s.config.limit <= crate::values::LIMIT_MAX && s.limit_edited(increment) != s
            ==> s.limit_edited(increment).reverted() == (State { last: None, ..s }),
        crate::values::RESISTANCE_MIN <= s.config.resistance && s.resistance_edited(increment) != s
            ==> s.resistance_edited(increment).reverted() == (State { last: None, ..s }),
        s.config.brightness <= crate::values::BRIGHTNESS_MAX && s.brightness_edited(increment) != s
            ==> s.brightness_edited(increment).reverted() == (State { last: None, ..s }),
        s.power_edited(true) != s ==> s.power_edited(true).reverted() == (State { last: None, ..s }),
{
}

/// Every press turn leaves the buttons recorded as pressed.
pub proof fn law_press_records_buttons(state: State, usb_connected: bool, left: bool, right: bool, now: Time)
    ensures
        pressed(state, usb_connected, left, right, now).0.buttons == (crate::data::buttons::Buttons { left, right }),
{
}

/// Pressing the second button while one is held in a tab undoes the last
/// edit, forgets it and returns to the work screen, whose turn then runs.
pub proof fn law_press_outside_work(state: State, usb_connected: bool, now: Time)
    requires
        !(state.mode is Work),
        state.buttons.left != state.buttons.right,
    ensures
        pressed(state, usb_connected, true, true, now).0.mode is Work,
        pressed(state, usb_connected, true, true, now).0.config == state.reverted().config,
        pressed(state, usb_connected, true, true, now).0.last is None,
{
}

/// A puff that reached the limit stops heating: the turn cools down, drops
/// the duty cycle and asks nothing of the voltmeter.
pub proof fn law_limit_stops_heating(state: State, left: bool, right: bool, now: Time)
    requires
        state.battery.idle is Some,
        state.mode matches Mode::Work { duration, .. } && duration >= state.limit_in_ms(),
    ensures
        worked(state, left, right, now).1 == Measure::Nothing,
        worked(state, left, right, now).0.mode matches Mode::Work { cool_down, duty, start, .. } && cool_down
            && duty is None && start is None,
{
}

/// The heating time grows only while both buttons are held on this turn
/// and the one before, and the coil is not cooling down.
pub proof fn law_heating_needs_both_buttons(state: State, left: bool, right: bool, now: Time)
    requires
        state.battery.idle is Some,
        state.mode is Work,
        work_fits(state, left, right, now),
    ensures
        (worked(state, left, right, now).0.mode->duration > state.mode->duration) ==> (left && right
            && state.buttons.left && state.buttons.right && !state.mode->cool_down),
{
}

/// Whether the settings lie within the bounds that the editors keep.
pub open spec fn settings_in_range(c: Config) -> bool {
    &&& crate::values::LIMIT_MIN <= c.limit <= crate::values::LIMIT_MAX
    &&& crate::values::RESISTANCE_MIN <= c.resistance
    &&& c.brightness <= crate::values::BRIGHTNESS_MAX
}

/// No press turn takes the settings out of their bounds: edits and their
/// undoing step within them, and nothing else touches the settings.
pub proof fn law_press_keeps_settings(state: State, usb_connected: bool, left: bool, right: bool, now: Time)
    requires
        settings_in_range(state.config),
    ensures
        settings_in_range(pressed(state, usb_connected, left, right, now).0.config),
{
}

/// Whether a press turn's arithmetic stays in range, as `handle_pressed`
/// requires; the device's loop tests it before each turn.
pub fn press_fits(state: &State, usb_connected: bool, left: bool, right: bool, now: Time) -> (r: bool)
    ensures
        r == (state.mode matches Mode::Work { duty, .. } && !(duty is None && usb_connected)
            ==> work_fits(*state, left, right, now)),
{
    match state.mode {
        Mode::Work { duty, .. } => if duty.is_none() && usb_connected {
            true
        } else {
            work_turn_fits(state, left, right, now)
        },
        _ => true,
    }
}

/// Whether a work turn's arithmetic stays in range.
pub fn work_turn_fits(state: &State, left: bool, right: bool, now: Time) -> (r: bool)
    ensures
        r == work_fits(*state, left, right, now),
{
    let (duration, prev, cool_down, start) = match state.mode {
        Mode::Work { duration, prev, cool_down, start, .. } => (duration, prev, cool_down, start),
        _ => return true,
    };
    if state.battery.idle.is_none() {
        return true;
    }
    let limit = state.limit_ms();
    let cool = duration >= limit || cool_down && (duration > 0 || left || right);
    let winds = cool || !left || !right;
    let heating = !cool && left && right && state.buttons.left && state.buttons.right;
    if (winds || heating) && now < prev {
        return false;
    }
    let mut next = duration;
    let mut puff = state.puff_duration;
    if winds {
        let dt = now - prev;
        next = if dt < duration { duration - dt } else { 0 };
    } else if heating {
        let dt = now - prev;
        if duration > u64::MAX - dt || puff > u64::MAX - dt {
            return false;
        }
        next = duration + dt;
        puff = puff + dt;
    }
    let ghost s1 = State { puff_duration: puff, ..*state };
    assert(s1 == State {
        puff_duration: if heating { (state.puff_duration + (now - prev)) as u64 } else { state.puff_duration },
        ..*state
    });
    assert(next == state.next_duration(left, right, now, duration, prev, cool));
    let ends = state.buttons.left && state.buttons.right && (!left || !right);
    if ends {
        let whole = puff / crate::values::DECI_SECOND;
        let round: u64 = if puff % crate::values::DECI_SECOND >= crate::values::DECI_SECOND / 2 { 1 } else { 0 };
        let tenths = (whole as u32) as u64 + round;
        if tenths > u32::MAX as u64 || state.stats.coil as u64 + tenths > u32::MAX as u64
            || state.stats.total as u64 + tenths > u32::MAX as u64 {
            return false;
        }
    }
    if !state.puff_trigger && next > PUFF_THRESHOLD && state.stats.count == u32::MAX {
        return false;
    }
    match start {
        Some(t) => cool || !left || !right || now >= t,
        None => true,
    }
}

} // verus!
