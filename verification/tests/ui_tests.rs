use vape::data::battery::Battery;
use vape::data::buttons::Buttons;
use vape::data::config::Config;
use vape::data::edit_settings::EditSettings;
use vape::data::mode::Mode;
use vape::data::power::Power;
use vape::data::reset_puffs::ResetPuffs;
use vape::data::state::State;
use vape::data::stats::Stats;
use vape::device::charge_status::ChargeStatus;
use vape::device::ui::bouding::Bounding;
use vape::device::ui::header::{Header, Title};
use vape::device::ui::layout::{
    backdrop, brightness_dash, button_markers, center_x, clear_y, progress_bar, row_shift, DashStyle, Marker,
};
use vape::device::ui::place::Place;
use vape::device::ui::power_and_limit::Edit;
use vape::device::ui::tab::Tab;
use vape::device::ui::widget::{battery_badge, time_parts, watts, BatteryAmount, BatteryIcon, Widget};
use vape::device::ui::{Redraw, Ui};

#[test]
fn compose_work_screen() {
    let mut s = State::with(Config::default(), Stats { coil: 0, total: 100, count: 0 });
    s.mode = Mode::Work { duration: 1500, prev: 0, cool_down: false, start: None, duty: None };
    s.puff_duration = 260;
    s.battery.load = Some(4200);
    let ui = s.compose_ui();
    assert_eq!(ui.header, Header::Progress(127));
    assert_eq!(ui.top, Widget::PowerAndLimit { power: Power::Medium, limit: 3, edit: Edit::Nothing });
    assert_eq!(
        ui.middle,
        Widget::ResistanceAndWatt { resistance: 12, mw: Some(14700), power: Power::Medium, edit: false }
    );
    assert_eq!(ui.bottom, Widget::Statusbar { total: 103, battery: s.battery });
}

#[test]
fn compose_settings_and_tabs() {
    let mut s = State::with(Config::default(), Stats { coil: 4, total: 5, count: 6 });
    s.mode = Mode::Settings(EditSettings::Power);
    let ui = s.compose_ui();
    assert_eq!(ui.header, Header::Title(Title::Power50));
    assert_eq!(ui.top, Widget::PowerAndLimit { power: Power::Medium, limit: 3, edit: Edit::Power });
    assert_eq!(ui.bottom, Widget::Brightness { brightness: 2, focused: false });
    s.mode = Mode::Settings(EditSettings::Brightness);
    assert_eq!(s.compose_ui().bottom, Widget::Brightness { brightness: 2, focused: true });
    assert_eq!(s.settings_header(EditSettings::Nothing), Header::Tabs(Tab::Settings));
    s.mode = Mode::Puffs(ResetPuffs::Count, None);
    let ui = s.compose_ui();
    assert_eq!(ui.header, Header::Title(Title::ResetCount));
    assert_eq!(ui.top, Widget::PuffCoil { duration: 4, reset: false });
    assert_eq!(ui.middle, Widget::PuffCount { count: 6, reset: true });
    s.mode = Mode::Battery;
    s.battery.idle = Some(3900);
    let ui = s.compose_ui();
    assert_eq!(ui.header, Header::Tabs(Tab::Battery));
    assert_eq!(ui.top, Widget::BatteryIdle(Some(3900)));
}

#[test]
fn refresh_draws_only_changes() {
    let mut s = State::with(Config::default(), Stats::default());
    let first = s.refresh_ui().unwrap();
    assert_eq!(first.buttons, Some(Buttons { left: true, right: true }));
    assert_eq!(first.header, Some(false));
    assert!(first.top && first.middle && first.bottom);
    assert_eq!(s.refresh_ui(), None);
    s.config.limit = 4;
    let r = s.refresh_ui().unwrap();
    assert_eq!(r, Redraw { buttons: None, header: None, top: true, middle: false, bottom: false });
    s.mode = Mode::Settings(EditSettings::Limit);
    let r = s.refresh_ui().unwrap();
    assert_eq!(r.header, Some(true));
    let again = s.force_refresh_ui().unwrap();
    assert!(again.top && again.middle && again.bottom && again.header.is_some());
}

#[test]
fn ui_redraw_equal_is_none() {
    let ui = Ui::default();
    assert_eq!(ui.redraw(&ui), None);
}

#[test]
fn time_parts_split() {
    let t = time_parts(37_234);
    assert_eq!((t.hours, t.minutes, t.seconds, t.tenths), (1, 2, 3, 4));
    let t = time_parts(0);
    assert_eq!((t.hours, t.minutes, t.seconds, t.tenths), (0, 0, 0, 0));
}

#[test]
fn watts_rounding() {
    assert_eq!(watts(None, Power::Hard), None);
    assert_eq!(watts(Some(14700), Power::Medium), Some(7));
    assert_eq!(watts(Some(15000), Power::Medium), Some(8));
    assert_eq!(watts(Some(1999), Power::Hard), Some(2));
    assert_eq!(watts(Some(1499), Power::Hard), Some(1));
}

#[test]
fn battery_badges() {
    let mut b = Battery::default();
    let badge = battery_badge(&b);
    assert_eq!(badge.icon, BatteryIcon::Empty);
    assert_eq!(badge.amount, BatteryAmount::Unknown);
    assert!(!badge.filled);
    b.idle = Some(3850);
    assert_eq!(battery_badge(&b).amount, BatteryAmount::Percent(50));
    b.idle = Some(4250);
    let badge = battery_badge(&b);
    assert_eq!(badge.icon, BatteryIcon::One);
    assert_eq!(badge.amount, BatteryAmount::Hundred);
    b.status = ChargeStatus::Full;
    let badge = battery_badge(&b);
    assert_eq!(badge.icon, BatteryIcon::Charged);
    assert_eq!(badge.amount, BatteryAmount::Blank);
    assert!(badge.filled);
    b.status = ChargeStatus::Unknown;
    assert_eq!(battery_badge(&b).icon, BatteryIcon::Warning);
}

#[test]
fn layout_geometry() {
    assert_eq!(Place::Top.offset(), 2);
    assert_eq!(Place::Middle.offset(), 1);
    assert_eq!(Place::Bottom.height(), 14);
    assert_eq!(Place::Top.height(), 16);
    assert_eq!(clear_y(Place::Top), 18);
    assert_eq!(clear_y(Place::Middle), 33);
    assert_eq!(clear_y(Place::Bottom), 50);
    assert_eq!(row_shift(Place::Top), Some(-6));
    assert_eq!(row_shift(Place::Middle), Some(9));
    assert_eq!(row_shift(Place::Bottom), None);
    assert_eq!(center_x(28), 50);
    let b = backdrop(21, 14, 11);
    assert_eq!((b.top, b.left, b.right, b.width, b.height), (3, 2, 1, 24, 14));
    let p = progress_bar(0);
    assert_eq!((p.fill_width, p.cut_x, p.cut_width), (16, 18, 16));
    let p = progress_bar(255);
    assert_eq!((p.fill_width, p.cut_x, p.cut_width), (92, 103, 7));
    assert_eq!(brightness_dash(0, 2, false), (23, DashStyle::Outlined));
    assert_eq!(brightness_dash(2, 2, true), (59, DashStyle::Filled));
    assert_eq!(brightness_dash(4, 2, false), (95, DashStyle::Flat));
    assert_eq!(brightness_dash(4, 2, true), (95, DashStyle::Outlined));
}

#[test]
fn header_and_tab_predicates() {
    assert!(Header::Title(Title::Limit).is_title());
    assert!(!Header::Blank.is_title());
    assert!(Tab::Puffs.is_puffs());
    assert!(!Tab::Puffs.is_battery());
    assert!(Tab::Settings.is_settings());
    assert!(Edit::Power.is_power());
    assert!(!Edit::Power.is_limit());
}

#[test]
fn button_markers_follow_changes() {
    let up = Buttons { left: false, right: false };
    let left = Buttons { left: true, right: false };
    let both = Buttons { left: true, right: true };
    assert_eq!(button_markers(up, up), (None, None));
    assert_eq!(
        button_markers(left, up),
        (Some(Marker { x: 7, y: 7, erase: false, filled: true }), None)
    );
    assert_eq!(
        button_markers(up, both),
        (
            Some(Marker { x: 7, y: 7, erase: true, filled: false }),
            Some(Marker { x: 119, y: 7, erase: true, filled: false }),
        )
    );
}
