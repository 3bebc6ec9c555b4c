use vstd::prelude::*;

verus! {

/// Which statistic the puffs tab offers to reset.
#[derive(Clone, Copy, PartialEq, Eq, Structural, Debug)]
pub enum ResetPuffs {
    Nothing,
    Coil,
    Count,
    Total,
}

impl ResetPuffs {
    pub open spec fn successor(self) -> ResetPuffs {
        match self {
            ResetPuffs::Nothing => ResetPuffs::Coil,
            ResetPuffs::Coil => ResetPuffs::Count,
            ResetPuffs::Count => ResetPuffs::Total,
            ResetPuffs::Total => ResetPuffs::Nothing,
        }
    }

    pub fn next(&self) -> (r: Self)
        ensures
            r == self.successor(),
    {
        match self {
            Self::Nothing => Self::Coil,
            Self::Coil => Self::Count,
            Self::Count => Self::Total,
            Self::Total => Self::Nothing,
        }
    }

    pub fn is_nothing(&self) -> (r: bool)
        ensures
            r == (*self == ResetPuffs::Nothing),
    {
        *self == ResetPuffs::Nothing
    }
}

/// `next` walks a cycle of four: four steps come back, fewer do not.
pub proof fn law_reset_cycle(r: ResetPuffs)
    ensures
        r.successor().successor().successor().successor() == r,
        r.successor() != r,
        r.successor().successor() != r,
        r.successor().successor().successor() != r,
{
}

} // verus!
