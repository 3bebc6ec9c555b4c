use vstd::prelude::*;
use crate::types::{DeciSecond, PuffCount};

verus! {

/// Puff statistics kept in flash.
#[derive(Clone, Copy, PartialEq, Eq, Structural, Debug)]
pub struct Stats {
    /// Puff time on the current coil.
    pub coil: DeciSecond,
    /// Puff time over the device's life.
    pub total: DeciSecond,
    /// Number of puffs.
    pub count: PuffCount,
}

impl Default for Stats {
    fn default() -> (r: Self)
        ensures
            r == (Stats { coil: 0, total: 0, count: 0 }),
    {
        Stats { coil: 0, total: 0, count: 0 }
    }
}

impl Stats {
    pub fn reset_coil(&mut self)
        ensures
            *final(self) == (Stats { coil: 0, ..*old(self) }),
    {
        self.coil = 0;
    }

    pub fn reset_count(&mut self)
        ensures
            *final(self) == (Stats { count: 0, ..*old(self) }),
    {
        self.count = 0;
    }

    pub fn reset_total(&mut self)
        ensures
            *final(self) == (Stats { total: 0, ..*old(self) }),
    {
        self.total = 0;
    }
}

} // verus!
