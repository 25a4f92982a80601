//! Results whose error is of no interest.

use vstd::prelude::*;

verus! {

/// Discards the error of a fallible value, keeping only whether it succeeded
/// and with what.
pub trait Silent<T>: Sized {
    /// What [`Silent::silent`] returns.
    spec fn silenced(self) -> Option<T>;

    /// The value, if there is one.
    fn silent(self) -> (r: Option<T>)
        ensures
            r == self.silenced(),
    ;
}

impl<T, E> Silent<T> for Result<T, E> {
    open spec fn silenced(self) -> Option<T> {
        match self {
            Ok(v) => Some(v),
            Err(_) => None,
        }
    }

    fn silent(self) -> (r: Option<T>) {
        match self {
            Ok(v) => Some(v),
            Err(_) => None,
        }
    }
}

} // verus!
