use vstd::prelude::*;
use crate::data::edit_settings::EditSettings;
use crate::data::reset_puffs::ResetPuffs;
use crate::types::{Duty, Progress, Time};

verus! {

/// What the device shows and does.
#[derive(Clone, Copy, PartialEq, Eq, Structural, Debug)]
pub enum Mode {
    /// The heating screen.
    Work {
        /// Accumulated heating time of the current puff, in ms.
        duration: Time,
        /// When `duration` was last updated.
        prev: Time,
        /// Whether the coil is cooling down after hitting the limit.
        cool_down: bool,
        /// When a load measurement started, while one runs.
        start: Option<Time>,
        /// The duty cycle to drive the coil with, once measured.
        duty: Option<Duty>,
    },
    Settings(EditSettings),
    Puffs(ResetPuffs, Option<Progress>),
    Battery,
}

/// The work mode that the device starts in.
pub open spec fn idle_work() -> Mode {
    Mode::Work { duration: 0, prev: 0, cool_down: false, start: None, duty: None }
}

impl Mode {
    pub fn settings() -> (r: Self)
        ensures
            r == Mode::Settings(EditSettings::Nothing),
    {
        Self::Settings(EditSettings::Nothing)
    }

    pub fn puffs() -> (r: Self)
        ensures
            r == Mode::Puffs(ResetPuffs::Nothing, None),
    {
        Self::Puffs(ResetPuffs::Nothing, None)
    }

    pub fn is_work(&self) -> (r: bool)
        ensures
            r == (*self is Work),
    {
        match self {
            Mode::Work { .. } => true,
            _ => false,
        }
    }
}

impl Default for Mode {
    fn default() -> (r: Self)
        ensures
            r == idle_work(),
    {
        Self::Work { prev: 0, duration: 0, cool_down: false, start: None, duty: None }
    }
}

} // verus!
