use vstd::prelude::*;

verus! {

/// Which half of the power-and-limit row is being edited.
#[derive(Clone, Copy, PartialEq, Eq, Structural, Debug)]
pub enum Edit {
    Nothing,
    Power,
    Limit,
}

impl Edit {
    pub fn is_power(&self) -> (r: bool)
        ensures
            r == (*self == Edit::Power),
    {
        *self == Edit::Power
    }

    pub fn is_limit(&self) -> (r: bool)
        ensures
            r == (*self == Edit::Limit),
    {
        *self == Edit::Limit
    }
}

} // verus!
