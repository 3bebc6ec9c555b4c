use vstd::prelude::*;

verus! {

/// A failure with a fixed description.
pub struct ErrorMessage(pub &'static str);

} // verus!
