use vape::control::{
    activity, calc_work_progress_and_duty_and_stats, commit_stats, complete_measuring, handle_pressed, measuring_fits,
    press_fits, revert_last,
    screen_plan, touch_edge, track_touch, update_battery, wake_plan, Hold, Led, Measure, SaverCycle, SaverInput, Screen,
    Wake, TEST_DUTY,
};
use vape::data::action::Action;
use vape::data::buttons::Buttons;
use vape::data::config::Config;
use vape::data::edit_settings::EditSettings;
use vape::data::mode::Mode;
use vape::data::power::Power;
use vape::data::reset_puffs::ResetPuffs;
use vape::data::state::State;
use vape::data::stats::Stats;
use vape::device::charge_status::ChargeStatus;
use vape::device::ui::Ui;

fn fresh() -> State {
    State::with(Config::default(), Stats::default())
}

fn work(duration: u64, prev: u64, cool_down: bool, start: Option<u64>, duty: Option<u16>) -> Mode {
    Mode::Work { duration, prev, cool_down, start, duty }
}

#[test]
fn state_with_starts_idle() {
    let s = fresh();
    assert_eq!(s.mode, Mode::default());
    assert_eq!(s.ui, Ui::default());
    assert!(!s.touched());
    assert!(s.last.is_none());
    assert_eq!(s.puff_duration, 0);
    assert!(!s.puff_trigger);
    assert!(s.buttons(false, false));
    assert!(!s.buttons(true, false));
}

#[test]
fn next_mode_walks_settings_editors() {
    let mut s = fresh();
    s.next_mode();
    assert_eq!(s.mode, Mode::Settings(EditSettings::Nothing));
    let order = [
        EditSettings::Power,
        EditSettings::Limit,
        EditSettings::Resistance,
        EditSettings::Brightness,
        EditSettings::Nothing,
    ];
    for e in order {
        s.next_mode();
        assert_eq!(s.mode, Mode::Settings(e));
    }
}

#[test]
fn next_mode_offers_nonzero_resets() {
    let mut s = fresh();
    s.mode = Mode::puffs();
    s.next_mode();
    assert_eq!(s.mode, Mode::Puffs(ResetPuffs::Nothing, None));
    s.stats = Stats { coil: 0, total: 3, count: 2 };
    s.next_mode();
    assert_eq!(s.mode, Mode::Puffs(ResetPuffs::Count, None));
    s.next_mode();
    assert_eq!(s.mode, Mode::Puffs(ResetPuffs::Total, None));
    s.next_mode();
    assert_eq!(s.mode, Mode::Puffs(ResetPuffs::Nothing, None));
    s.mode = Mode::Battery;
    s.next_mode();
    assert_eq!(s.mode, Mode::Battery);
}

#[test]
fn switch_tab_ring() {
    let mut s = fresh();
    s.switch_tab(true);
    assert_eq!(s.mode, Mode::default());
    s.mode = Mode::Settings(EditSettings::Limit);
    s.switch_tab(true);
    assert_eq!(s.mode, Mode::puffs());
    s.switch_tab(true);
    assert_eq!(s.mode, Mode::Battery);
    s.switch_tab(true);
    assert_eq!(s.mode, Mode::settings());
    s.switch_tab(false);
    assert_eq!(s.mode, Mode::Battery);
    s.switch_tab(false);
    assert_eq!(s.mode, Mode::puffs());
}

#[test]
fn edits_respect_bounds_and_record() {
    let mut s = fresh();
    s.config.limit = 5;
    s.edit_limit(true);
    assert_eq!(s.config.limit, 5);
    assert!(s.last.is_none());
    s.edit_limit(false);
    assert_eq!(s.config.limit, 4);
    assert_eq!(s.last, Some(Action::Limit(false)));
    s.config.resistance = 255;
    s.edit_resistance(true);
    assert_eq!(s.config.resistance, 255);
    s.config.resistance = 1;
    s.edit_resistance(false);
    assert_eq!(s.config.resistance, 1);
    s.edit_resistance(true);
    assert_eq!(s.config.resistance, 2);
    assert_eq!(s.last, Some(Action::Resistance(true)));
    s.config.brightness = 4;
    s.edit_brightness(true);
    assert_eq!(s.config.brightness, 4);
    s.edit_brightness(false);
    assert_eq!(s.config.brightness, 3);
    assert_eq!(s.last, Some(Action::Brightness(false)));
}

#[test]
fn edit_power_records_increment_always() {
    let mut s = fresh();
    s.edit_power(false);
    assert_eq!(s.config.power, Power::Rare);
    assert_eq!(s.last, Some(Action::Power(true)));
    s.last = None;
    s.edit_power(false);
    assert_eq!(s.config.power, Power::Rare);
    assert!(s.last.is_none());
}

#[test]
fn revert_last_undoes_edit() {
    let mut s = fresh();
    let before = s.config;
    s.edit_limit(true);
    assert_eq!(s.config.limit, 4);
    revert_last(&mut s);
    assert_eq!(s.config, before);
    assert!(s.last.is_none());
    s.edit_power(true);
    revert_last(&mut s);
    assert_eq!(s.config, before);
    // a lowered power level is undone by lowering it again
    s.edit_power(false);
    revert_last(&mut s);
    assert_eq!(s.config.power, Power::Rare);
}

#[test]
fn puff_duration_rounds_half_up() {
    let mut s = fresh();
    s.puff_duration = 149;
    assert_eq!(s.calc_puff_duration(), 1);
    s.puff_duration = 150;
    assert_eq!(s.calc_puff_duration(), 2);
    s.puff_duration = 49;
    assert_eq!(s.calc_puff_duration(), 0);
    s.puff_duration = 1250;
    s.stats = Stats { coil: 10, total: 20, count: 1 };
    s.commit_puff_duration();
    assert_eq!(s.stats, Stats { coil: 23, total: 33, count: 1 });
    assert_eq!(s.puff_duration, 0);
}

#[test]
fn work_setters_only_touch_work_mode() {
    let mut s = fresh();
    s.set_work_duration(5, 6, true);
    s.set_work_duty(Some(7), Some(8));
    assert_eq!(s.mode, work(5, 6, true, Some(7), Some(8)));
    assert_eq!(s.duty(), Some(8));
    assert!(!s.is_progress_zero());
    s.mode = Mode::Battery;
    s.set_work_duration(1, 1, false);
    s.set_work_duty(None, None);
    assert_eq!(s.mode, Mode::Battery);
    assert_eq!(s.duty(), None);
    assert!(s.is_progress_zero());
    s.mode = work(1, 0, false, None, None);
    s.reset_mode();
    assert_eq!(s.mode, Mode::default());
}

#[test]
fn battery_setters() {
    let mut s = fresh();
    assert!(s.set_charge_status(true, false, false));
    assert_eq!(s.battery.status, ChargeStatus::Charging);
    assert!(!s.set_charge_status(true, false, false));
    s.set_load_mv(3700);
    assert_eq!(s.battery.load, Some(3700));
    s.set_battery_idle(Some(3900));
    s.update_full_mv();
    assert_eq!(s.config.battery_full, 3900);
    s.reset_battery_mv();
    assert_eq!(s.battery.idle, None);
    s.update_full_mv();
    assert_eq!(s.config.battery_full, 3900);
    s.set_pressed(true, false);
    assert_eq!(s.buttons, Buttons { left: true, right: false });
}

#[test]
fn battery_level_against_full() {
    let mut s = fresh();
    assert_eq!(s.get_battery_level(), None);
    s.battery.idle = Some(3850);
    assert_eq!(s.get_battery_level(), Some(50));
    s.battery.idle = Some(4300);
    assert_eq!(s.get_battery_level(), Some(100));
    s.battery.idle = Some(3500);
    assert_eq!(s.get_battery_level(), Some(0));
}

#[test]
fn progress_scales_to_limit() {
    let s = fresh();
    assert_eq!(s.limit_ms(), 3000);
    assert_eq!(s.progress(0), 0);
    assert_eq!(s.progress(1500), 127);
    assert_eq!(s.progress(3000), 255);
    assert_eq!(s.progress(9000), 255);
}

#[test]
fn commit_stats_counts_once() {
    let mut s = fresh();
    commit_stats(&mut s, true, true, 301);
    assert_eq!(s.stats.count, 1);
    assert!(s.puff_trigger);
    commit_stats(&mut s, true, true, 900);
    assert_eq!(s.stats.count, 1);
    commit_stats(&mut s, false, false, 0);
    assert!(!s.puff_trigger);
    s.buttons = Buttons { left: true, right: true };
    s.puff_duration = 700;
    commit_stats(&mut s, true, false, 10);
    assert_eq!(s.stats.coil, 7);
    assert_eq!(s.stats.total, 7);
    assert_eq!(s.puff_duration, 0);
}

#[test]
fn work_turn_heats_then_measures() {
    let mut s = fresh();
    s.battery.idle = Some(3900);
    // first turn with both buttons: nothing held before, so no heating, start measuring
    let m = calc_work_progress_and_duty_and_stats(&mut s, true, true, 100);
    assert_eq!(m, Measure::Start);
    assert_eq!(s.mode, work(0, 100, false, Some(100), Some(TEST_DUTY)));
    s.set_pressed(true, true);
    let m = calc_work_progress_and_duty_and_stats(&mut s, true, true, 150);
    assert_eq!(m, Measure::Nothing);
    assert_eq!(s.mode, work(50, 150, false, Some(100), Some(TEST_DUTY)));
    assert_eq!(s.puff_duration, 50);
    let m = calc_work_progress_and_duty_and_stats(&mut s, true, true, 250);
    assert_eq!(m, Measure::Finish);
    complete_measuring(&mut s, Some(3700), 250);
    assert_eq!(s.mode, work(150, 250, false, None, Some(TEST_DUTY)));
    assert_eq!(s.battery.load, Some(3700));
}

#[test]
fn work_turn_cools_down_at_limit() {
    let mut s = fresh();
    s.battery.idle = Some(3900);
    s.buttons = Buttons { left: true, right: true };
    s.mode = work(2990, 1000, false, None, Some(TEST_DUTY));
    let m = calc_work_progress_and_duty_and_stats(&mut s, true, true, 1020);
    assert_eq!(m, Measure::Nothing);
    assert_eq!(s.mode, work(3010, 1020, false, None, Some(TEST_DUTY)));
    let m = calc_work_progress_and_duty_and_stats(&mut s, true, true, 1030);
    assert_eq!(m, Measure::Nothing);
    // cooling: the time winds down and the duty goes
    assert_eq!(s.mode, work(3000, 1030, true, None, None));
}

#[test]
fn work_turn_without_idle_voltage_waits() {
    let mut s = fresh();
    let before = s.mode;
    assert_eq!(calc_work_progress_and_duty_and_stats(&mut s, true, true, 10), Measure::Nothing);
    assert_eq!(s.mode, before);
}

#[test]
fn failed_measurement_cools_down() {
    let mut s = fresh();
    s.mode = work(40, 10, false, Some(5), Some(TEST_DUTY));
    complete_measuring(&mut s, None, 120);
    assert_eq!(s.mode, work(40, 120, true, None, None));
}

#[test]
fn handle_pressed_switches_tabs_and_edits() {
    let mut s = fresh();
    s.mode = Mode::settings();
    assert_eq!(handle_pressed(&mut s, false, false, true, 0), Measure::Nothing);
    assert_eq!(s.mode, Mode::puffs());
    assert_eq!(s.buttons, Buttons { left: false, right: true });
    // still held: nothing more
    handle_pressed(&mut s, false, false, true, 0);
    assert_eq!(s.mode, Mode::puffs());
    handle_pressed(&mut s, false, false, false, 0);
    s.mode = Mode::Settings(EditSettings::Limit);
    handle_pressed(&mut s, false, true, false, 0);
    assert_eq!(s.config.limit, 2);
    assert_eq!(s.last, Some(Action::Limit(false)));
    // second button while one is held: undo and go to work
    handle_pressed(&mut s, false, true, true, 0);
    assert_eq!(s.config.limit, 3);
    assert!(s.last.is_none());
    assert!(s.mode.is_work());
}

#[test]
fn handle_pressed_waits_on_usb() {
    let mut s = fresh();
    s.battery.idle = Some(3900);
    assert_eq!(handle_pressed(&mut s, true, true, true, 50), Measure::Nothing);
    assert_eq!(s.mode, Mode::default());
    assert_eq!(handle_pressed(&mut s, false, true, true, 60), Measure::Start);
}

#[test]
fn update_battery_decisions() {
    let mut s = fresh();
    assert!(update_battery(&mut s, false, 0, 10));
    s.battery.idle = Some(3900);
    assert!(!update_battery(&mut s, false, 1000, 2000));
    assert!(update_battery(&mut s, false, 1000, 70000));
    assert!(!update_battery(&mut s, true, 1000, 70000));
    assert_eq!(s.battery.idle, None);
    s.mode = work(5, 0, false, None, None);
    s.battery.idle = Some(3900);
    assert!(!update_battery(&mut s, true, 0, 70000));
    assert_eq!(s.battery.idle, Some(3900));
}

#[test]
fn touch_edges_and_hold() {
    let mut s = fresh();
    assert_eq!(touch_edge(&mut s, true, true, false, false), Led::On);
    assert_eq!(s.mode, Mode::settings());
    assert!(activity(&s, true, false, false));
    assert_eq!(track_touch(&mut s, true, 1000), Hold::Nothing);
    assert_eq!(s.touched, Some(1000));
    assert!(!activity(&s, true, false, false));
    assert_eq!(touch_edge(&mut s, true, true, false, false), Led::Keep);
    assert_eq!(track_touch(&mut s, true, 2001), Hold::Nothing);
    assert_eq!(s.mode, Mode::default());
    assert_eq!(track_touch(&mut s, true, 3001), Hold::ScreenSaver);
    assert_eq!(touch_edge(&mut s, false, true, false, false), Led::Off);
    assert_eq!(track_touch(&mut s, false, 3002), Hold::Nothing);
    assert_eq!(s.touched, None);
    // a touch with a button held does not change the mode
    assert_eq!(touch_edge(&mut s, true, true, true, false), Led::On);
    assert_eq!(s.mode, Mode::default());
}

#[test]
fn screen_plan_choices() {
    let mut s = fresh();
    assert_eq!(screen_plan(&mut s, false, false, false, false, 5000, 0, true), Screen::Render);
    s.mode = Mode::Battery;
    assert_eq!(screen_plan(&mut s, false, false, false, false, 20000, 0, true), Screen::Off);
    assert_eq!(s.mode, Mode::default());
    assert_eq!(screen_plan(&mut s, false, false, false, false, 20000, 0, false), Screen::Keep);
    s.battery.status = ChargeStatus::Charging;
    assert_eq!(screen_plan(&mut s, false, false, false, false, 20000, 0, false), Screen::ScreenSaver);
    assert_eq!(screen_plan(&mut s, false, true, false, false, 20000, 0, false), Screen::Render);
}

#[test]
fn saver_cycle_frames() {
    let mut c = SaverCycle::new();
    let f = c.frame();
    assert!(f.light && f.restart && !f.check);
    let f = c.frame();
    assert!(!f.light && !f.restart && !f.check);
    for _ in 0..5 {
        c.frame();
    }
    let f = c.frame();
    assert!(f.check);
    assert!(!c.running());
    c.rearm();
    assert!(c.running());
}

#[test]
fn cooling_turn_ignores_a_later_measurement_start() {
    let mut s = fresh();
    s.battery.idle = Some(3900);
    s.buttons = Buttons { left: true, right: true };
    s.mode = work(3000, 1000, false, Some(5000), Some(TEST_DUTY));
    assert!(press_fits(&s, false, true, true, 1050));
    let m = calc_work_progress_and_duty_and_stats(&mut s, true, true, 1050);
    assert_eq!(m, Measure::Nothing);
    assert_eq!(s.mode, work(2950, 1050, true, None, None));
    assert_eq!(s.duty(), None);
}

#[test]
fn measurement_needs_a_load_that_draws_power() {
    let mut s = fresh();
    s.battery.idle = Some(3900);
    s.mode = work(150, 250, false, Some(100), Some(TEST_DUTY));
    assert!(measuring_fits(&s, Some(3700)));
    assert!(measuring_fits(&s, None));
    // 10 mV through 1.2 Ω rounds to no power: the duty would divide by zero
    assert!(!measuring_fits(&s, Some(10)));
    // a load above the idle voltage would make the power drop negative
    assert!(!measuring_fits(&s, Some(4000)));
    let c = Config::default();
    assert!(c.duty_computable(3900, 3700));
    assert!(!c.duty_computable(3900, 10));
}

#[test]
fn release_clears_any_touch_time() {
    let mut s = fresh();
    s.touched = Some(u64::MAX);
    assert_eq!(track_touch(&mut s, false, 10), Hold::Nothing);
    assert_eq!(s.touched, None);
}

#[test]
fn screen_saver_runs_until_an_input() {
    let mut c = SaverCycle::new();
    for _ in 0..8 {
        c.frame();
    }
    assert!(!c.running());
    c.observe(SaverInput::Quiet);
    assert!(c.running());
    assert_eq!(c.touch_time(5), None);
    for _ in 0..8 {
        c.frame();
    }
    c.observe(SaverInput::Button);
    assert!(!c.running());
    assert_eq!(c.touch_time(5), None);
    let mut c = SaverCycle::new();
    for _ in 0..8 {
        c.frame();
    }
    c.observe(SaverInput::Touch);
    assert!(!c.running());
    assert_eq!(c.touch_time(700), Some(700));
}

#[test]
fn display_wakes_on_interaction() {
    assert_eq!(wake_plan(true, false), Wake::Awake);
    assert_eq!(wake_plan(true, true), Wake::Awake);
    assert_eq!(wake_plan(false, true), Wake::WakeUp);
    assert_eq!(wake_plan(false, false), Wake::Doze);
}
