use vstd::prelude::*;
use crate::data::edit_settings::EditSettings;
use crate::data::mode::Mode;
use crate::data::power::Power;
use crate::data::reset_puffs::ResetPuffs;
use crate::data::state::{puff_deciseconds, State};
use crate::data::config::power_mw;
use crate::device::ui::header::{Header, Title};
use crate::device::ui::power_and_limit::Edit;
use crate::device::ui::tab::Tab;
use crate::device::ui::widget::Widget;
use crate::device::ui::{redraw_of, Redraw, Ui};
use crate::types::MilliWatt;
use crate::values::{DECI_SECOND, PROGRESS_MAX};

verus! {

/// The header of the settings tab: the tabs while browsing, else the name
/// of the setting being edited (for power, its level).
pub open spec fn settings_header_of(edit: EditSettings, power: Power) -> Header {
    match edit {
        EditSettings::Nothing => Header::Tabs(Tab::Settings),
        EditSettings::Power => Header::Title(match power {
            Power::Rare => Title::Power25,
            Power::Medium => Title::Power50,
            Power::Well => Title::Power75,
            Power::Hard => Title::Power100,
        }),
        EditSettings::Limit => Header::Title(Title::Limit),
        EditSettings::Resistance => Header::Title(Title::Resistance),
        EditSettings::Brightness => Header::Title(Title::Brightness),
    }
}

impl State {
    pub open spec fn power_widget(self) -> Widget {
        Widget::PowerAndLimit {
            power: self.config.power,
            limit: self.config.limit,
            edit: match self.mode {
                Mode::Settings(EditSettings::Power) => Edit::Power,
                Mode::Settings(EditSettings::Limit) => Edit::Limit,
                _ => Edit::Nothing,
            },
        }
    }

    pub open spec fn resistance_widget(self) -> Widget {
        Widget::ResistanceAndWatt {
            resistance: self.config.resistance,
            mw: match self.battery.load {
                Some(load) => Some(power_mw(load, self.config.resistance) as MilliWatt),
                None => None::<MilliWatt>,
            },
            power: self.config.power,
            edit: self.mode == Mode::Settings(EditSettings::Resistance),
        }
    }

    pub open spec fn statusbar_widget(self) -> Widget {
        Widget::Statusbar {
            total: (self.stats.total + puff_deciseconds(self.puff_duration)) as u32,
            battery: self.battery,
        }
    }

    pub open spec fn brightness_widget(self) -> Widget {
        Widget::Brightness {
            brightness: self.config.brightness,
            focused: self.mode == Mode::Settings(EditSettings::Brightness),
        }
    }

    /// The screen for the current mode. The work screen shows the puff's
    /// progress, the settings and the status bar; the settings tab the
    /// settings and the brightness; the puffs tab the three statistics,
    /// marking the one offered for reset; the battery tab the voltages.
    pub open spec fn composed_ui(self) -> Ui {
        match self.mode {
            Mode::Work { duration, .. } => Ui {
                buttons: self.buttons,
                header: Header::Progress(self.progress_of(duration)),
                top: self.power_widget(),
                middle: self.resistance_widget(),
                bottom: self.statusbar_widget(),
            },
            Mode::Settings(edit) => Ui {
                buttons: self.buttons,
                header: settings_header_of(edit, self.config.power),
                top: self.power_widget(),
                middle: self.resistance_widget(),
                bottom: self.brightness_widget(),
            },
            Mode::Puffs(reset, _) => Ui {
                buttons: self.buttons,
                header: match reset {
                    ResetPuffs::Nothing => Header::Tabs(Tab::Puffs),
                    ResetPuffs::Coil => Header::Title(Title::ResetCoil),
                    ResetPuffs::Count => Header::Title(Title::ResetCount),
                    ResetPuffs::Total => Header::Title(Title::ResetTotal),
                },
                top: Widget::PuffCoil { duration: self.stats.coil, reset: reset == ResetPuffs::Coil },
                middle: Widget::PuffCount { count: self.stats.count, reset: reset == ResetPuffs::Count },
                bottom: Widget::PuffTotal { duration: self.stats.total, reset: reset == ResetPuffs::Total },
            },
            Mode::Battery => Ui {
                buttons: self.buttons,
                header: Header::Tabs(Tab::Battery),
                top: Widget::BatteryIdle(self.battery.idle),
                middle: Widget::BatteryLoad(self.battery.load),
                bottom: Widget::BatteryFull(self.battery.full),
            },
        }
    }

    /// Whether the screen for the current mode can be computed: a limit to
    /// measure progress against, a resistance to compute power with, and
    /// times that fit their counters.
    pub open spec fn renderable(self) -> bool {
        &&& self.mode is Work || self.mode is Settings ==> (self.battery.load is Some ==> self.config.resistance > 0)
        &&& self.mode matches Mode::Work { duration, .. } ==> {
            &&& self.config.limit > 0
            &&& duration * (PROGRESS_MAX as int) <= u64::MAX
            &&& puff_deciseconds(self.puff_duration) <= u32::MAX
            &&& self.stats.total + puff_deciseconds(self.puff_duration) <= u32::MAX
        }
    }

    /// Whether the screen for the current mode can be computed; the
    /// device's loop tests it before it draws.
    pub fn can_render(&self) -> (r: bool)
        ensures
            r == self.renderable(),
    {
        let needs_power = match self.mode {
            Mode::Work { .. } | Mode::Settings(_) => true,
            _ => false,
        };
        if needs_power && self.battery.load.is_some() && self.config.resistance == 0 {
            return false;
        }
        match self.mode {
            Mode::Work { duration, .. } => {
                let pd = self.puff_duration;
                let round: u64 = if pd % DECI_SECOND >= DECI_SECOND / 2 { 1 } else { 0 };
                let tenths = ((pd / DECI_SECOND) as u32) as u64 + round;
                self.config.limit > 0 && duration <= u64::MAX / (PROGRESS_MAX as u64) && tenths <= u32::MAX as u64
                    && self.stats.total as u64 + tenths <= u32::MAX as u64
            },
            _ => true,
        }
    }

    pub fn settings_header(&self, edit: EditSettings) -> (r: Header)
        ensures
            r == settings_header_of(edit, self.config.power),
    {
        let title = match edit {
            EditSettings::Nothing => return Header::Tabs(Tab::Settings),
            EditSettings::Power => match self.config.power {
                Power::Rare => Title::Power25,
                Power::Medium => Title::Power50,
                Power::Well => Title::Power75,
                Power::Hard => Title::Power100,
            },
            EditSettings::Limit => Title::Limit,
            EditSettings::Resistance => Title::Resistance,
            EditSettings::Brightness => Title::Brightness,
        };
        Header::Title(title)
    }

    pub fn render_power(&self) -> (r: Widget)
        ensures
            r == self.power_widget(),
    {
        Widget::PowerAndLimit {
            power: self.config.power,
            limit: self.config.limit,
            edit: match self.mode {
                Mode::Settings(EditSettings::Power) => Edit::Power,
                Mode::Settings(EditSettings::Limit) => Edit::Limit,
                _ => Edit::Nothing,
            },
        }
    }

    pub fn render_resistance(&self) -> (r: Widget)
        requires
            self.battery.load is Some ==> self.config.resistance > 0,
        ensures
            r == self.resistance_widget(),
    {
        let mw = match self.battery.load {
            Some(load) => Some(self.config.milliwatts(load)),
            None => None,
        };
        Widget::ResistanceAndWatt {
            resistance: self.config.resistance,
            mw,
            power: self.config.power,
            edit: self.mode == Mode::Settings(EditSettings::Resistance),
        }
    }

    pub fn render_statusbar(&self) -> (r: Widget)
        requires
            puff_deciseconds(self.puff_duration) <= u32::MAX,
            self.stats.total + puff_deciseconds(self.puff_duration) <= u32::MAX,
        ensures
            r == self.statusbar_widget(),
    {
        Widget::Statusbar { total: self.stats.total + self.calc_puff_duration(), battery: self.battery }
    }

    pub fn render_brightness(&self) -> (r: Widget)
        ensures
            r == self.brightness_widget(),
    {
        Widget::Brightness {
            brightness: self.config.brightness,
            focused: self.mode == Mode::Settings(EditSettings::Brightness),
        }
    }

    /// The screen for the current mode.
    pub fn compose_ui(&self) -> (r: Ui)
        requires
            self.renderable(),
        ensures
            r == self.composed_ui(),
    {
        match self.mode {
            Mode::Work { duration, .. } => Ui {
                buttons: self.buttons,
                header: Header::Progress(self.progress(duration)),
                top: self.render_power(),
                middle: self.render_resistance(),
                bottom: self.render_statusbar(),
            },
            Mode::Settings(edit) => Ui {
                buttons: self.buttons,
                header: self.settings_header(edit),
                top: self.render_power(),
                middle: self.render_resistance(),
                bottom: self.render_brightness(),
            },
            Mode::Puffs(reset, _) => Ui {
                buttons: self.buttons,
                header: match reset {
                    ResetPuffs::Nothing => Header::Tabs(Tab::Puffs),
                    ResetPuffs::Coil => Header::Title(Title::ResetCoil),
                    ResetPuffs::Count => Header::Title(Title::ResetCount),
                    ResetPuffs::Total => Header::Title(Title::ResetTotal),
                },
                top: Widget::PuffCoil { duration: self.stats.coil, reset: reset == ResetPuffs::Coil },
                middle: Widget::PuffCount { count: self.stats.count, reset: reset == ResetPuffs::Count },
                bottom: Widget::PuffTotal { duration: self.stats.total, reset: reset == ResetPuffs::Total },
            },
            Mode::Battery => Ui {
                buttons: self.buttons,
                header: Header::Tabs(Tab::Battery),
                top: Widget::BatteryIdle(self.battery.idle),
                middle: Widget::BatteryLoad(self.battery.load),
                bottom: Widget::BatteryFull(self.battery.full),
            },
        }
    }

    /// Brings the screen model up to date: when the screen for the current
    /// mode differs from the one drawn, it becomes the drawn one and the
    /// parts to draw again are returned.
    pub fn refresh_ui(&mut self) -> (r: Option<Redraw>)
        requires
            old(self).renderable(),
        ensures
            r == redraw_of(old(self).composed_ui(), old(self).ui),
            *final(self) == (State { ui: old(self).composed_ui(), ..*old(self) }),
    {
        let new = self.compose_ui();
        let redraw = new.redraw(&self.ui);
        self.ui = new;
        redraw
    }

    /// Forgets what the screen shows and brings the model up to date, so
    /// that everything is drawn again.
    pub fn force_refresh_ui(&mut self) -> (r: Option<Redraw>)
        requires
            old(self).renderable(),
        ensures
            r == redraw_of(old(self).composed_ui(), Ui::blank()),
            *final(self) == (State { ui: old(self).composed_ui(), ..*old(self) }),
    {
        self.ui = Ui::default();
        self.refresh_ui()
    }
}

/// The puffs tab shows the three statistics each from its own field: the
/// coil's puff time on top, the puff count in the middle and the lifetime
/// puff time at the bottom, each marked while it is offered for reset; the
/// header shows the tabs, or the title of the offered reset.
pub proof fn law_puffs_rows(s: State)
    ensures
        s.mode matches Mode::Puffs(r, _) ==> {
            let ui = s.composed_ui();
            &&& ui.top == Widget::PuffCoil { duration: s.stats.coil, reset: r == ResetPuffs::Coil }
            &&& ui.middle == Widget::PuffCount { count: s.stats.count, reset: r == ResetPuffs::Count }
            &&& ui.bottom == Widget::PuffTotal { duration: s.stats.total, reset: r == ResetPuffs::Total }
            &&& ui.header == (if r == ResetPuffs::Nothing {
                Header::Tabs(Tab::Puffs)
            } else if r == ResetPuffs::Coil {
                Header::Title(Title::ResetCoil)
            } else if r == ResetPuffs::Count {
                Header::Title(Title::ResetCount)
            } else {
                Header::Title(Title::ResetTotal)
            })
            &&& ui.buttons == s.buttons
        },
{
}

} // verus!
