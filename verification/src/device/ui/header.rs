use vstd::prelude::*;
use crate::device::ui::tab::Tab;
use crate::types::Progress;

verus! {

/// The titles that the header can show.
#[derive(Clone, Copy, PartialEq, Eq, Structural, Debug)]
pub enum Title {
    Power25,
    Power50,
    Power75,
    Power100,
    Limit,
    Resistance,
    Brightness,
    ResetCoil,
    ResetCount,
    ResetTotal,
}

#[derive(Clone, Copy, PartialEq, Eq, Structural, Debug)]
pub enum Header {
    Blank,
    Progress(Progress),
    Title(Title),
    Tabs(Tab),
}

impl Header {
    pub fn is_title(&self) -> (r: bool)
        ensures
            r == (*self is Title),
    {
        match self {
            Header::Title(_) => true,
            _ => false,
        }
    }
}

} // verus!
