//! The failures that end a run.

use vstd::prelude::*;

verus! {

/// Exit code of a run that did what it was asked to do.
pub const EXIT_SUCCESS: i32 = 0;

/// Exit code of every fatal failure.
pub const EXIT_FAILURE: i32 = 1;

/// A fatal failure. None is retried; each ends the run with [`EXIT_FAILURE`].
#[derive(Clone, Copy, Debug, PartialEq, Eq, Structural)]
pub enum Error {
    /// No identifier of the host platform could be determined.
    PlatformUnknown,
    /// The path of the running executable could not be resolved.
    IoError,
    /// The configuration file exists and could not be read.
    ConfigReadError,
    /// The toolchain manager could not be started or did not exit with zero.
    ToolchainQueryFailure,
    /// Neither the original binary nor its backup exists.
    MissingOriginalBinary,
    /// A file copy failed during installation.
    CopyFailure,
    /// The downstream binary could not be started.
    LaunchFailure,
}

impl Error {
    /// The code with which the process ends after this failure.
    pub fn exit_code(&self) -> (code: i32)
        ensures
            code == EXIT_FAILURE,
            code != EXIT_SUCCESS,
    {
        EXIT_FAILURE
    }
}

} // verus!
