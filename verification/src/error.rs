//! What the host reports about an operation, and the errors made of it.

use vstd::prelude::*;

verus! {

/// The failure that the host's write or system call reported.
#[derive(Clone, Copy, Debug, PartialEq, Eq, Structural)]
pub struct IoFault {
    /// The host's error code.
    pub code: i32,
}

/// How an operation ended on the host. An operation that did not end in
/// `Done` left the terminal as it was.
#[derive(Clone, Copy, Debug, PartialEq, Eq, Structural)]
pub enum Outcome {
    /// The operation took effect.
    Done,
    /// The stream or console handle that the operation needs could not be
    /// obtained.
    Unavailable,
    /// The write or the system call failed.
    Failed(IoFault),
}

/// Why a switch of screens failed.
///
/// Leaving while the main screen is showing is not among these: it is a
/// step that does nothing and succeeds.
#[derive(Clone, Copy, Debug, PartialEq, Eq, Structural)]
pub enum Error {
    /// The facility of the selected backend could not be obtained.
    BackendUnavailable,
    /// Switching to the alternate screen, or to raw mode with it, failed.
    ApplyFailed(IoFault),
    /// Switching back to cooked mode or to the main screen failed.
    RevertFailed(IoFault),
}

impl Outcome {
    pub open spec fn is_done(self) -> bool {
        self == Outcome::Done
    }

    /// The error that this outcome means on the way in, if any.
    pub open spec fn apply_error_spec(self) -> Option<Error> {
        match self {
            Outcome::Done => None,
            Outcome::Unavailable => Some(Error::BackendUnavailable),
            Outcome::Failed(fault) => Some(Error::ApplyFailed(fault)),
        }
    }

    /// The error that this outcome means on the way back, if any.
    pub open spec fn revert_error_spec(self) -> Option<Error> {
        match self {
            Outcome::Done => None,
            Outcome::Unavailable => Some(Error::BackendUnavailable),
            Outcome::Failed(fault) => Some(Error::RevertFailed(fault)),
        }
    }

    #[verifier::when_used_as_spec(apply_error_spec)]
    pub fn apply_error(self) -> (error: Option<Error>)
        ensures
            error == self.apply_error_spec(),
    {
        match self {
            Outcome::Done => None,
            Outcome::Unavailable => Some(Error::BackendUnavailable),
            Outcome::Failed(fault) => Some(Error::ApplyFailed(fault)),
        }
    }

    #[verifier::when_used_as_spec(revert_error_spec)]
    pub fn revert_error(self) -> (error: Option<Error>)
        ensures
            error == self.revert_error_spec(),
    {
        match self {
            Outcome::Done => None,
            Outcome::Unavailable => Some(Error::BackendUnavailable),
            Outcome::Failed(fault) => Some(Error::RevertFailed(fault)),
        }
    }
}

} // verus!
