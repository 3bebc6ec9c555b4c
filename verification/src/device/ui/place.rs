use vstd::prelude::*;

verus! {

/// The three widget rows under the header.
#[derive(Clone, Copy, PartialEq, Eq, Structural, Debug)]
pub enum Place {
    Top,
    Middle,
    Bottom,
}

} // verus!
