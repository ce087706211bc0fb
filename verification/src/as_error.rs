//! The failure value of what holds or is one.

use crate::exception::Exception;
use crate::failure::Failure;
use vstd::prelude::*;

verus! {

/// What can present itself as a failure value.
pub trait AsError {
    /// The failure value that `as_error` hands out.
    spec fn error_of(&self) -> Failure;

    /// The failure value of `self`.
    fn as_error(&self) -> (r: &Failure)
        ensures
            *r == self.error_of(),
    ;
}

impl AsError for Failure {
    /// A failure value presents itself.
    open spec fn error_of(&self) -> Failure {
        *self
    }

    fn as_error(&self) -> (r: &Failure) {
        self
    }
}

impl AsError for Exception {
    /// An exception presents the failure value that it holds.
    open spec fn error_of(&self) -> Failure {
        self.failure()
    }

    fn as_error(&self) -> (r: &Failure) {
        &**self
    }
}

} // verus!
