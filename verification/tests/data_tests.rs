use vape::data::battery::Battery;
use vape::data::button::Button;
use vape::data::buttons::Buttons;
use vape::data::config::Config;
use vape::data::edit_settings::EditSettings;
use vape::data::mode::Mode;
use vape::data::power::Power;
use vape::data::reset_puffs::ResetPuffs;
use vape::data::stats::Stats;
use vape::device::charge_status::ChargeStatus;

#[test]
fn power_values_and_steps() {
    assert_eq!(Power::Rare.value(), 25);
    assert_eq!(Power::Medium.value(), 50);
    assert_eq!(Power::Well.value(), 75);
    assert_eq!(Power::Hard.value(), 100);
    assert_eq!(Power::Rare.inc(), Power::Medium);
    assert_eq!(Power::Hard.inc(), Power::Hard);
    assert_eq!(Power::Rare.dec(), Power::Rare);
    assert_eq!(Power::Hard.dec(), Power::Well);
    assert_eq!(Power::default(), Power::Medium);
}

#[test]
fn power_inc_then_dec_round_trips_below_top() {
    for p in [Power::Rare, Power::Medium, Power::Well] {
        assert_eq!(p.inc().dec(), p);
    }
    for p in [Power::Medium, Power::Well, Power::Hard] {
        assert_eq!(p.dec().inc(), p);
    }
}

#[test]
fn reset_puffs_cycle_of_four() {
    let start = ResetPuffs::Nothing;
    assert_eq!(start.next(), ResetPuffs::Coil);
    assert_eq!(start.next().next(), ResetPuffs::Count);
    assert_eq!(start.next().next().next(), ResetPuffs::Total);
    assert_eq!(start.next().next().next().next(), ResetPuffs::Nothing);
    assert!(ResetPuffs::Nothing.is_nothing());
    assert!(!ResetPuffs::Coil.is_nothing());
}

#[test]
fn button_from_pressed_pair() {
    assert_eq!(Button::from(true, false), Some(Button::Left));
    assert_eq!(Button::from(false, true), Some(Button::Right));
    assert_eq!(Button::from(true, true), None);
    assert_eq!(Button::from(false, false), None);
    assert!(Button::Left.is_left());
    assert!(!Button::Left.is_right());
    assert!(Button::Right.is_right());
}

#[test]
fn buttons_new_and_default() {
    assert_eq!(Buttons::new(true, false), Buttons { left: true, right: false });
    assert_eq!(Buttons::default(), Buttons { left: false, right: false });
}

#[test]
fn charge_status_pick_table() {
    assert_eq!(ChargeStatus::pick(false, false, false), ChargeStatus::Discharging);
    assert_eq!(ChargeStatus::pick(true, false, false), ChargeStatus::Charging);
    assert_eq!(ChargeStatus::pick(false, true, false), ChargeStatus::Full);
    assert_eq!(ChargeStatus::pick(true, true, false), ChargeStatus::Full);
    assert_eq!(ChargeStatus::pick(false, false, true), ChargeStatus::Reverse);
    assert_eq!(ChargeStatus::pick(true, false, true), ChargeStatus::Unknown);
    assert_eq!(ChargeStatus::pick(false, true, true), ChargeStatus::Unknown);
    assert_eq!(ChargeStatus::default(), ChargeStatus::Discharging);
}

#[test]
fn charge_status_powered() {
    assert!(ChargeStatus::Charging.is_powered());
    assert!(ChargeStatus::Full.is_powered());
    assert!(!ChargeStatus::Discharging.is_powered());
    assert!(!ChargeStatus::Reverse.is_powered());
    assert!(!ChargeStatus::Unknown.is_powered());
}

#[test]
fn battery_is_full_and_default() {
    let mut b = Battery::default();
    assert_eq!(b, Battery { status: ChargeStatus::Discharging, idle: None, load: None, full: None });
    assert!(!b.is_full());
    b.status = ChargeStatus::Full;
    assert!(b.is_full());
}

#[test]
fn config_default_values() {
    let c = Config::default();
    assert_eq!(c.power, Power::Medium);
    assert_eq!(c.limit, 3);
    assert_eq!(c.resistance, 12);
    assert_eq!(c.brightness, 2);
    assert_eq!(c.battery_full, 4200);
}

#[test]
fn config_milliwatts_formula() {
    let c = Config::default();
    // 4200² / 12 / 100 = 14700
    assert_eq!(c.milliwatts(4200), 14700);
    assert_eq!(c.milliwatts(0), 0);
    let c1 = Config { resistance: 1, ..Config::default() };
    // 65535² / 1 / 100
    assert_eq!(c1.milliwatts(65535), 42948362);
}

#[test]
fn config_brightness_scaling() {
    let mut c = Config::default();
    c.brightness = 0;
    assert_eq!(c.brightness(), 1);
    c.brightness = 1;
    assert_eq!(c.brightness(), 63);
    c.brightness = 2;
    assert_eq!(c.brightness(), 127);
    c.brightness = 4;
    assert_eq!(c.brightness(), 255);
    // 255 * 5 / 4 = 318, kept to 8 bits: 62
    c.brightness = 5;
    assert_eq!(c.brightness(), 62);
}

#[test]
fn config_target_duty_example() {
    let c = Config { resistance: 10, ..Config::default() };
    // full 4200: 17640 mW; idle 4000: 16000; load 3800: 14440; drawdown 1560
    // wanted (17640 - 1560) * 50 / 100 = 8040 <= 14440; duty 32767 * 8040 / 14440 = 18244
    assert_eq!(c.target_duty(4000, 3800), 18244);
}

#[test]
fn stats_resets_clear_one_field() {
    let mut s = Stats { coil: 5, total: 7, count: 9 };
    s.reset_coil();
    assert_eq!(s, Stats { coil: 0, total: 7, count: 9 });
    s.reset_count();
    assert_eq!(s, Stats { coil: 0, total: 7, count: 0 });
    s.reset_total();
    assert_eq!(s, Stats::default());
}

#[test]
fn mode_constructors() {
    assert_eq!(Mode::settings(), Mode::Settings(EditSettings::Nothing));
    assert_eq!(Mode::puffs(), Mode::Puffs(ResetPuffs::Nothing, None));
    assert_eq!(Mode::default(), Mode::Work { duration: 0, prev: 0, cool_down: false, start: None, duty: None });
    assert!(Mode::default().is_work());
    assert!(!Mode::Battery.is_work());
}

#[test]
fn duty_fits_a_low_resistance_coil() {
    // full 176400 mW, idle 160000 mW, load 144400 mW: the target is 80400 mW
    let c = Config { resistance: 1, ..Config::default() };
    assert!(c.duty_computable(4000, 3800));
    assert_eq!(c.target_duty(4000, 3800), (0x7fffu64 * 80400 / 144400) as u16);
}
