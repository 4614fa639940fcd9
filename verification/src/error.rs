//! What all the error types of this crate have in common.

use vstd::prelude::*;

verus! {

/// An error whose catch-all variant wraps the failure that caused it.
///
/// The wrapped cause is typed: each family of errors names the one kind of
/// failure that it can wrap, and hands it out only through
/// [`downcast_other_ref`](HasOtherError::downcast_other_ref).
pub trait HasOtherError {
    /// The failure that the catch-all variant wraps.
    type Cause;

    /// The wrapped cause, for an error of the catch-all variant.
    spec fn wrapped(&self) -> Option<Self::Cause>;

    /// Whether the error wraps a cause.
    fn is_other(&self) -> (other: bool)
        ensures
            other == self.wrapped().is_some(),
    ;

    /// The wrapped cause, if the error has one.
    fn downcast_other_ref(&self) -> (cause: Option<&Self::Cause>)
        ensures
            cause.is_some() == self.wrapped().is_some(),
            cause matches Some(inner) ==> *inner == self.wrapped().unwrap(),
    ;
}

} // verus!
