//! The typed, recoverable error that opening a backend can report.

use vstd::prelude::*;
use crate::backend::Backend;

verus! {

/// Why opening a backend's device context failed.
///
/// An empty backend set is not represented here: it is a build
/// misconfiguration and is excluded by precondition rather than reported.
#[derive(Clone, Copy, Debug, PartialEq, Eq, Structural)]
pub enum Error {
    /// The backend's native driver is not registered in this build.
    BackendUnavailable(Backend),
}

impl Error {
    /// The backend whose device context could not be opened.
    pub fn backend(&self) -> (r: Backend)
        ensures
            *self == Error::BackendUnavailable(r),
    {
        match self {
            Error::BackendUnavailable(b) => *b,
        }
    }
}

} // verus!
