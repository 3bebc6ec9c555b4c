use vstd::prelude::*;
use crate::data::buttons::Buttons;
use crate::device::ui::place::Place;
use crate::types::{Brightness, Progress};
use crate::values::{HEADER_HEIGHT, HEADER_OFFSET, HEADER_WIDTH, PUFF_PROGRESS_STEP, SCREEN_WIDTH};

verus! {

/// Top edge of a widget row when it is cleared: rows sit one header height
/// apart below the header, shifted down by the row's offset.
pub open spec fn clear_top(place: Place) -> i32 {
    let line: int = match place {
        Place::Top => 1,
        Place::Middle => 2,
        Place::Bottom => 3,
    };
    (line * HEADER_HEIGHT + place.shift()) as i32
}

pub fn clear_y(place: Place) -> (r: i32)
    ensures
        r == clear_top(place),
{
    let line: i32 = match place {
        Place::Top => 1,
        Place::Middle => 2,
        Place::Bottom => 3,
    };
    let offset: i32 = match place {
        Place::Top => 2,
        Place::Middle => 1,
        Place::Bottom => 2,
    };
    line * 16 + offset
}

/// Vertical shift of a widget centred on the screen into its row; the
/// bottom row is aligned to the screen's bottom edge instead.
pub fn row_shift(place: Place) -> (r: Option<i32>)
    ensures
        r == (match place {
            Place::Top => Some((-(HEADER_HEIGHT as int) / 2 + place.shift()) as i32),
            Place::Middle => Some(((HEADER_HEIGHT as int) / 2 + place.shift()) as i32),
            Place::Bottom => None::<i32>,
        }),
{
    let area = HEADER_HEIGHT as i32;
    match place {
        Place::Top => Some(-area / 2 + 2),
        Place::Middle => Some(area / 2 + 1),
        Place::Bottom => None,
    }
}

/// Left edge that centres a text of `width` pixels on the screen.
pub fn center_x(width: u32) -> (r: u32)
    requires
        width <= SCREEN_WIDTH,
    ensures
        r == (SCREEN_WIDTH - width) / 2,
{
    (SCREEN_WIDTH - width) / 2
}

/// The rounded background behind a text of the given size whose font
/// baseline is `baseline`: it starts `top` pixels down, reaches `left`
/// pixels before the text and `right` after it, splitting `top` evenly
/// with the odd pixel on the left.
#[derive(Clone, Copy, PartialEq, Eq, Structural, Debug)]
pub struct Backdrop {
    pub top: u32,
    pub left: u32,
    pub right: u32,
    pub width: u32,
    pub height: u32,
}

pub fn backdrop(width: u32, height: u32, baseline: u32) -> (r: Backdrop)
    requires
        baseline <= height,
        width + (height - baseline) <= u32::MAX,
    ensures
        r.top == height - baseline,
        r.left == r.top / 2 + r.top % 2,
        r.right == r.top / 2,
        r.left + r.right == r.top,
        r.width == width + r.left + r.right,
        r.height == height,
{
    let top = height - baseline;
    let left = top / 2 + top % 2;
    let right = top / 2;
    Backdrop { top, left, right, width: width + left + right, height }
}

/// The header's progress bar: a white bar `fill_width` wide, then a black
/// cut starting at `cut_x` that rounds off its right end.
#[derive(Clone, Copy, PartialEq, Eq, Structural, Debug)]
pub struct ProgressBar {
    pub fill_width: u32,
    pub cut_x: i32,
    pub cut_width: u32,
}

pub open spec fn bar_of(progress: Progress) -> ProgressBar {
    let p = progress / PUFF_PROGRESS_STEP;
    ProgressBar {
        fill_width: if p + HEADER_HEIGHT < HEADER_WIDTH { (p + HEADER_HEIGHT) as u32 } else { HEADER_WIDTH },
        cut_x: (HEADER_OFFSET + p) as i32,
        cut_width: if HEADER_HEIGHT < HEADER_WIDTH - p { HEADER_HEIGHT } else { (HEADER_WIDTH - p) as u32 },
    }
}

pub fn progress_bar(progress: Progress) -> (r: ProgressBar)
    ensures
        r == bar_of(progress),
{
    let p = (progress / PUFF_PROGRESS_STEP) as u32;
    let grown = p + HEADER_HEIGHT;
    let fill_width = if grown < HEADER_WIDTH { grown } else { HEADER_WIDTH };
    let rest = HEADER_WIDTH - p;
    let cut_width = if HEADER_HEIGHT < rest { HEADER_HEIGHT } else { rest };
    ProgressBar { fill_width, cut_x: HEADER_OFFSET + p as i32, cut_width }
}

/// The bar grows with the progress and never leaves the header.
pub proof fn law_progress_bar_monotone(a: Progress, b: Progress)
    requires
        a <= b,
    ensures
        bar_of(a).fill_width <= bar_of(b).fill_width,
        bar_of(b).fill_width <= HEADER_WIDTH,
        bar_of(a).cut_x <= bar_of(b).cut_x,
{
    assert(a / PUFF_PROGRESS_STEP <= b / PUFF_PROGRESS_STEP) by (nonlinear_arith)
        requires
            a <= b,
    ;
}

/// How one of the five brightness dashes is drawn.
#[derive(Clone, Copy, PartialEq, Eq, Structural, Debug)]
pub enum DashStyle {
    /// A rounded box, filled.
    Filled,
    /// A rounded box, outlined.
    Outlined,
    /// A thin flat line.
    Flat,
}

pub const DASHES: u8 = 5;
pub const DASH_WIDTH: i32 = 9;
/// Left edge of the first dash: the dashes and the gaps between them,
/// each a dash wide, are centred on the screen.
pub const DASH_OFFSET: i32 = 23;

/// Dash `i` lights when `i` is at most the level; a focused editor draws
/// every dash as a box, filling the lit ones.
pub open spec fn dash_style_of(i: u8, brightness: Brightness, focused: bool) -> DashStyle {
    let on = i <= brightness;
    if on || focused {
        if on && focused { DashStyle::Filled } else { DashStyle::Outlined }
    } else {
        DashStyle::Flat
    }
}

/// Position and style of brightness dash `i`.
pub fn brightness_dash(i: u8, brightness: Brightness, focused: bool) -> (r: (i32, DashStyle))
    requires
        i < DASHES,
    ensures
        r.0 == DASH_OFFSET + i * 2 * DASH_WIDTH,
        r.1 == dash_style_of(i, brightness, focused),
{
    let x = DASH_OFFSET + (i as i32) * 2 * DASH_WIDTH;
    let on = i <= brightness;
    let style = if on || focused {
        if on && focused { DashStyle::Filled } else { DashStyle::Outlined }
    } else {
        DashStyle::Flat
    };
    (x, style)
}

/// Radius of the circle that marks a button, half the header height.
pub const MARKER_RADIUS: u32 = 8;

/// A button marker to draw again: a circle of the header's height around
/// `(x, y)`, filled while the button is held and outlined once released,
/// the old fill wiped first on release.
#[derive(Clone, Copy, PartialEq, Eq, Structural, Debug)]
pub struct Marker {
    pub x: i32,
    pub y: i32,
    pub erase: bool,
    pub filled: bool,
}

/// The marker of a button at `x` that changed from `was` to `pressed`, or
/// none when it did not change.
pub open spec fn marker_of(pressed: bool, was: bool, x: int) -> Option<Marker> {
    if pressed == was {
        None
    } else {
        Some(Marker { x: x as i32, y: (MARKER_RADIUS - 1) as i32, erase: !pressed, filled: pressed })
    }
}

/// The button markers to draw again, left and right: the left one sits in
/// the top left corner, the right one in the top right corner.
pub fn button_markers(new: Buttons, old: Buttons) -> (r: (Option<Marker>, Option<Marker>))
    ensures
        r == (
            marker_of(new.left, old.left, MARKER_RADIUS - 1),
            marker_of(new.right, old.right, SCREEN_WIDTH - MARKER_RADIUS - 1),
        ),
{
    let delta = MARKER_RADIUS as i32 - 1;
    let left = if new.left == old.left {
        None
    } else {
        Some(Marker { x: delta, y: delta, erase: !new.left, filled: new.left })
    };
    let right = if new.right == old.right {
        None
    } else {
        Some(Marker { x: (SCREEN_WIDTH - MARKER_RADIUS) as i32 - 1, y: delta, erase: !new.right, filled: new.right })
    };
    (left, right)
}

} // verus!
