use vstd::prelude::*;
use crate::device::ui::place::Place;
use crate::values::HEADER_HEIGHT;

verus! {

/// Vertical extent of a widget row.
pub trait Bounding {
    /// Pixels the row is shifted down from its grid line.
    fn offset(&self) -> i32;
    /// Height of the row in pixels.
    fn height(&self) -> u32;
}

impl Place {
    pub open spec fn shift(self) -> i32 {
        match self {
            Place::Top => 2,
            Place::Middle => 1,
            Place::Bottom => 2,
        }
    }

    pub open spec fn rows(self) -> u32 {
        match self {
            Place::Top => HEADER_HEIGHT,
            Place::Middle => HEADER_HEIGHT,
            Place::Bottom => (HEADER_HEIGHT - 2) as u32,
        }
    }
}

impl Bounding for Place {
    fn offset(&self) -> (r: i32)
        ensures
            r == self.shift(),
    {
        match self {
            Place::Top => 2,
            Place::Middle => 1,
            Place::Bottom => 2,
        }
    }

    fn height(&self) -> (r: u32)
        ensures
            r == self.rows(),
    {
        match self {
            Place::Top => HEADER_HEIGHT,
            Place::Middle => HEADER_HEIGHT,
            Place::Bottom => HEADER_HEIGHT - 2,
        }
    }
}

} // verus!
