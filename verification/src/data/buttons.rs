use vstd::prelude::*;

verus! {

/// Which of the two buttons are held.
#[derive(Clone, Copy, PartialEq, Eq, Structural, Debug)]
pub struct Buttons {
    pub left: bool,
    pub right: bool,
}

impl Buttons {
    pub fn new(left: bool, right: bool) -> (r: Self)
        ensures
            r == (Buttons { left, right }),
    {
        Self { left, right }
    }
}

impl Default for Buttons {
    fn default() -> (r: Self)
        ensures
            r == (Buttons { left: false, right: false }),
    {
        Self { left: false, right: false }
    }
}

} // verus!
