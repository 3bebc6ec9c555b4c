use vstd::prelude::*;
use crate::ext::error::ErrorMessage;

verus! {

/// Turns a failed result into nothing, so that the device carries on.
pub trait SoftUnwrap<R> {
    fn soft_unwrap(self) -> Option<R>;
    fn soft_unwrap_or(self, default: R) -> R;
}

impl<R> SoftUnwrap<R> for Result<R, ErrorMessage> {
    fn soft_unwrap(self) -> (r: Option<R>)
        ensures
            r == (match self {
                Ok(v) => Some(v),
                Err(_) => None::<R>,
            }),
    {
        match self {
            Ok(r) => Some(r),
            Err(_) => None,
        }
    }

    fn soft_unwrap_or(self, default: R) -> (r: R)
        ensures
            r == (match self {
                Ok(v) => v,
                Err(_) => default,
            }),
    {
        match self {
            Ok(r) => r,
            Err(_) => default,
        }
    }
}

} // verus!
