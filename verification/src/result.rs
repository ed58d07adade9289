//! Turning a failed result into an absent value.
use vstd::prelude::*;

verus! {

/// A result whose error is only reported, not handled.
pub trait ResultExt {
    type Ok;

    /// The value of a success, or `None` for a failure.
    fn err_log(self) -> Option<Self::Ok>;
}

impl<T, E> ResultExt for Result<T, E> {
    type Ok = T;

    fn err_log(self) -> (r: Option<T>)
        ensures
            r == match self {
                Ok(t) => Some(t),
                Err(_) => None::<T>,
            },
    {
        match self {
            Ok(t) => Some(t),
            Err(_) => None,
        }
    }
}

} // verus!
