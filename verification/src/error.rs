//! Error taxonomy for the command surface.
//!
//! Every failure a command can report falls into one of these classes; each
//! carries a stable code string that the host layer hands to the UI.

use vstd::prelude::*;

verus! {

/// Why a command failed.
#[derive(Clone, Copy, Debug, PartialEq, Eq, Structural)]
pub enum Error {
    /// A window, overlay or executable that the command needs is missing.
    NotFound,
    /// A monitor index or id lies outside the fresh enumeration.
    InvalidArgument,
    /// A subprocess failed to launch or exited non-zero.
    ExternalCommandFailure,
    /// A filesystem read or write failed.
    IOFailure,
    /// A required environment variable is absent.
    EnvironmentMissing,
}

impl Error {
    /// The stable code string for this error class.
    pub fn code(&self) -> (r: &'static str)
        ensures
            r@ == self.code_spec(),
    {
        match self {
            Error::NotFound => "not_found",
            Error::InvalidArgument => "invalid_argument",
            Error::ExternalCommandFailure => "external_command_failure",
            Error::IOFailure => "io_failure",
            Error::EnvironmentMissing => "environment_missing",
        }
    }

    /// What `code` returns for each class.
    pub open spec fn code_spec(&self) -> Seq<char> {
        match self {
            Error::NotFound => "not_found"@,
            Error::InvalidArgument => "invalid_argument"@,
            Error::ExternalCommandFailure => "external_command_failure"@,
            Error::IOFailure => "io_failure"@,
            Error::EnvironmentMissing => "environment_missing"@,
        }
    }
}

} // verus!
