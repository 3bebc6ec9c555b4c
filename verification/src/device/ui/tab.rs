use vstd::prelude::*;

verus! {

#[derive(Clone, Copy, PartialEq, Eq, Structural, Debug)]
pub enum Tab {
    Settings,
    Puffs,
    Battery,
}

impl Tab {
    pub fn is_settings(&self) -> (r: bool)
        ensures
            r == (*self == Tab::Settings),
    {
        *self == Tab::Settings
    }

    pub fn is_puffs(&self) -> (r: bool)
        ensures
            r == (*self == Tab::Puffs),
    {
        *self == Tab::Puffs
    }

    pub fn is_battery(&self) -> (r: bool)
        ensures
            r == (*self == Tab::Battery),
    {
        *self == Tab::Battery
    }
}

} // verus!
