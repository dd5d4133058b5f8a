//! The ways in which resolving or running a command can fail.

use vstd::prelude::*;

verus! {

/// Why a resolution pass, or the run that follows it, did not succeed.
#[derive(Clone, Copy, Debug, PartialEq, Eq, Structural)]
pub enum ErrorKind {
    /// Exactly one of the hash code and the input path was supplied.
    UsageError,
    /// No template's hash code equals the one asked for.
    NotFound,
    /// An index lies outside the list it selects from.
    OutOfRange,
    /// A number could not be read, or the input path names no usable file.
    InvalidInput,
    /// The substituted argument list is empty, so there is nothing to launch.
    EmptyCommand,
    /// The external process could not be started.
    LaunchFailure,
    /// The external process ran and reported failure.
    ExecutionFailure,
}

impl ErrorKind {
    /// Whether the failure ends the invocation at once. Only a process that
    /// ran and reported failure is merely reported.
    pub open spec fn fatal(self) -> bool {
        self != ErrorKind::ExecutionFailure
    }

    /// Executable form of [`ErrorKind::fatal`].
    pub fn is_fatal(&self) -> (fatal: bool)
        ensures
            fatal == self.fatal(),
    {
        match self {
            ErrorKind::ExecutionFailure => false,
            _ => true,
        }
    }
}

} // verus!
