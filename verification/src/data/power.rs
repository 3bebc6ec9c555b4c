use vstd::prelude::*;

verus! {

/// Output power level, as a share of the battery's theoretical power.
#[derive(Clone, Copy, PartialEq, Eq, Structural, Debug)]
pub enum Power {
    Rare,
    Medium,
    Well,
    Hard,
}

impl Power {
    /// The level in percent.
    pub open spec fn percent(self) -> u8 {
        match self {
            Power::Rare => 25,
            Power::Medium => 50,
            Power::Well => 75,
            Power::Hard => 100,
        }
    }

    /// One level up, staying at `Hard`.
    pub open spec fn raised(self) -> Power {
        match self {
            Power::Rare => Power::Medium,
            Power::Medium => Power::Well,
            Power::Well => Power::Hard,
            Power::Hard => Power::Hard,
        }
    }

    /// One level down, staying at `Rare`.
    pub open spec fn lowered(self) -> Power {
        match self {
            Power::Rare => Power::Rare,
            Power::Medium => Power::Rare,
            Power::Well => Power::Medium,
            Power::Hard => Power::Well,
        }
    }

    pub fn value(&self) -> (r: u8)
        ensures
            r == self.percent(),
    {
        match self {
            Self::Rare => 25,
            Self::Medium => 50,
            Self::Well => 75,
            Self::Hard => 100,
        }
    }

    pub fn inc(&self) -> (r: Power)
        ensures
            r == self.raised(),
    {
        match self {
            Self::Rare => Power::Medium,
            Self::Medium => Power::Well,
            Self::Well => Power::Hard,
            Self::Hard => Power::Hard,
        }
    }

    pub fn dec(&self) -> (r: Power)
        ensures
            r == self.lowered(),
    {
        match self {
            Self::Rare => Power::Rare,
            Self::Medium => Power::Rare,
            Self::Well => Power::Medium,
            Self::Hard => Power::Well,
        }
    }
}

impl Default for Power {
    fn default() -> (r: Self)
        ensures
            r == Power::Medium,
    {
        Self::Medium
    }
}

/// Raising then lowering gives the level back below the top, lowering then
/// raising gives it back above the bottom, and raising never lowers the
/// percentage while lowering never raises it.
pub proof fn law_power_steps(p: Power)
    ensures
        p != Power::Hard ==> p.raised().lowered() == p,
        p != Power::Rare ==> p.lowered().raised() == p,
        p.raised().percent() >= p.percent(),
        p.lowered().percent() <= p.percent(),
        p.raised() == p <==> p == Power::Hard,
        p.lowered() == p <==> p == Power::Rare,
{
}

} // verus!
