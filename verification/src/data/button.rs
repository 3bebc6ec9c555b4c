use vstd::prelude::*;

verus! {

#[derive(Clone, Copy, PartialEq, Eq, Structural, Debug)]
pub enum Button {
    Left,
    Right,
}

impl Button {
    /// The single button that is pressed, if exactly one is.
    pub fn from(left: bool, right: bool) -> (r: Option<Button>)
        ensures
            r == (if left && !right {
                Some(Button::Left)
            } else if !left && right {
                Some(Button::Right)
            } else {
                None
            }),
    {
        match (left, right) {
            (true, false) => Some(Button::Left),
            (false, true) => Some(Button::Right),
            _ => None,
        }
    }

    pub fn is_left(&self) -> (r: bool)
        ensures
            r == (*self == Button::Left),
    {
        *self == Self::Left
    }

    pub fn is_right(&self) -> (r: bool)
        ensures
            r == (*self == Button::Right),
    {
        *self == Self::Right
    }
}

} // verus!
