use vstd::prelude::*;

verus! {

/// Which setting the settings tab edits, if any.
#[derive(Clone, Copy, PartialEq, Eq, Structural, Debug)]
pub enum EditSettings {
    Nothing,
    Power,
    Limit,
    Resistance,
    Brightness,
}

impl EditSettings {
    /// The setting that a touch moves the editor to.
    pub open spec fn following(self) -> EditSettings {
        match self {
            EditSettings::Nothing => EditSettings::Power,
            EditSettings::Power => EditSettings::Limit,
            EditSettings::Limit => EditSettings::Resistance,
            EditSettings::Resistance => EditSettings::Brightness,
            EditSettings::Brightness => EditSettings::Nothing,
        }
    }
}

} // verus!
