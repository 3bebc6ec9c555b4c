use vstd::prelude::*;

verus! {

pub trait OptionOptionExt<T> {
    /// The inner value of a nested option.
    fn flat(self) -> Option<T>;
}

pub trait OptionExt<T>: Sized {
    /// Runs `action` on the value, if there is one, and hands the option on.
    fn if_some<F: Fn(&T)>(self, action: F) -> Self
        requires
            forall|v: &T| action.requires((v,)),
    ;

    /// The option while `predicate` holds, else nothing.
    fn keep_if(self, predicate: bool) -> Self;
}

impl<T> OptionOptionExt<T> for Option<Option<T>> {
    fn flat(self) -> (r: Option<T>)
        ensures
            r == (match self {
                Some(Some(v)) => Some(v),
                _ => None::<T>,
            }),
    {
        match self {
            Some(inner) => inner,
            None => None,
        }
    }
}

impl<T> OptionExt<T> for Option<T> {
    fn if_some<F: Fn(&T)>(self, action: F) -> (r: Self)
        ensures
            r == self,
            self matches Some(v) ==> call_ensures(action, (&v,), ()),
    {
        if let Some(v) = &self {
            action(v)
        }
        self
    }

    fn keep_if(self, predicate: bool) -> (r: Self)
        ensures
            r == (if predicate { self } else { None::<T> }),
    {
        match predicate {
            true => self,
            _ => None,
        }
    }
}

} // verus!
