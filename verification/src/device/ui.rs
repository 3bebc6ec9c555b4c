pub mod bouding;
pub mod header;
pub mod layout;
pub mod place;
pub mod power_and_limit;
pub mod tab;
pub mod widget;

use vstd::prelude::*;
use crate::data::buttons::Buttons;
use crate::device::ui::header::Header;
use crate::device::ui::widget::Widget;

verus! {

/// Everything the screen shows, as data: the button markers, the header
/// and three widget rows.
#[derive(Clone, Copy, PartialEq, Eq, Structural, Debug)]
pub struct Ui {
    pub buttons: Buttons,
    pub header: Header,
    pub top: Widget,
    pub middle: Widget,
    pub bottom: Widget,
}

/// The parts of the screen to draw again when one `Ui` replaces another.
#[derive(Clone, Copy, PartialEq, Eq, Structural, Debug)]
pub struct Redraw {
    /// The button markers to draw over, when they changed.
    pub buttons: Option<Buttons>,
    /// Whether the header changes, and then whether its background is white.
    pub header: Option<bool>,
    pub top: bool,
    pub middle: bool,
    pub bottom: bool,
}

/// The buttons that the old screen counts as drawn: after a blank header
/// (a screen that was never drawn) both markers count as the opposite of
/// the new ones, so that both are drawn.
pub open spec fn drawn_buttons(new: Ui, old: Ui) -> Buttons {
    if old.header == Header::Blank {
        Buttons { left: !new.buttons.left, right: !new.buttons.right }
    } else {
        old.buttons
    }
}

/// What to draw to turn `old` into `new`: nothing when they are equal,
/// else each part that differs.
pub open spec fn redraw_of(new: Ui, old: Ui) -> Option<Redraw> {
    if new == old {
        None
    } else {
        let drawn = drawn_buttons(new, old);
        Some(Redraw {
            buttons: if new.buttons != drawn { Some(drawn) } else { None },
            header: if new.header != old.header { Some(new.header is Title) } else { None },
            top: new.top != old.top,
            middle: new.middle != old.middle,
            bottom: new.bottom != old.bottom,
        })
    }
}

impl Ui {
    /// Decides what to draw to replace `old` by `self`.
    pub fn redraw(&self, old: &Ui) -> (r: Option<Redraw>)
        ensures
            r == redraw_of(*self, *old),
    {
        if *self == *old {
            return None;
        }
        let old_buttons = match old.header {
            Header::Blank => Buttons::new(!self.buttons.left, !self.buttons.right),
            _ => old.buttons,
        };
        let buttons = if self.buttons != old_buttons { Some(old_buttons) } else { None };
        let header = if self.header != old.header { Some(self.header.is_title()) } else { None };
        Some(Redraw {
            buttons,
            header,
            top: self.top != old.top,
            middle: self.middle != old.middle,
            bottom: self.bottom != old.bottom,
        })
    }
}

impl Ui {
    /// The screen before anything was drawn.
    pub open spec fn blank() -> Ui {
        Ui {
            buttons: Buttons { left: false, right: false },
            header: Header::Blank,
            top: Widget::Blank,
            middle: Widget::Blank,
            bottom: Widget::Blank,
        }
    }
}

impl Default for Ui {
    fn default() -> (r: Self)
        ensures
            r == (Ui {
                buttons: Buttons { left: false, right: false },
                header: Header::Blank,
                top: Widget::Blank,
                middle: Widget::Blank,
                bottom: Widget::Blank,
            }),
    {
        Self {
            buttons: Buttons::default(),
            header: Header::Blank,
            top: Widget::Blank,
            middle: Widget::Blank,
            bottom: Widget::Blank,
        }
    }
}

/// A screen drawn over a blank one draws every part that is not blank,
/// both button markers included.
pub proof fn law_first_draw_is_complete(new: Ui)
    requires
        new.header != Header::Blank,
    ensures
        redraw_of(new, Ui {
            buttons: Buttons { left: false, right: false },
            header: Header::Blank,
            top: Widget::Blank,
            middle: Widget::Blank,
            bottom: Widget::Blank,
        }) matches Some(r) && r.buttons is Some && r.header is Some
            && r.top == (new.top != Widget::Blank)
            && r.middle == (new.middle != Widget::Blank)
            && r.bottom == (new.bottom != Widget::Blank),
{
}

/// Drawing a screen over itself draws nothing.
pub proof fn law_redraw_same_is_nothing(ui: Ui)
    ensures
        redraw_of(ui, ui) is None,
{
}

} // verus!
