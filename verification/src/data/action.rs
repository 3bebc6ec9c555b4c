use vstd::prelude::*;

verus! {

/// The last settings edit, kept so that pressing both buttons can undo it.
/// The flag says whether the edit was an increment.
#[derive(Clone, Copy, PartialEq, Eq, Structural, Debug)]
pub enum Action {
    Power(bool),
    Limit(bool),
    Resistance(bool),
    Brightness(bool),
}

} // verus!
