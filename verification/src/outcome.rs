//! What the operating system reports about a utility, as plain values.
//!
//! The caller runs the utilities and describes what happened in these
//! types; the library never touches a process itself.

use vstd::prelude::*;

verus! {

/// A refusal by the operating system to start, feed, await or kill a
/// process.
#[derive(Debug, Clone, PartialEq, Eq)]
pub struct OsFailure {
    /// Whether the refusal says that the executable was not found.
    pub not_found: bool,
    /// The operating system's own words.
    pub message: String,
}

/// A process that was started with its standard input requested as a pipe.
#[derive(Debug, Clone, Copy, PartialEq, Eq)]
pub struct Started {
    /// Whether the pipe to its standard input is there to be written to.
    pub stdin_open: bool,
}

/// The end of a process that was waited for.
#[derive(Debug, Clone, Copy, PartialEq, Eq)]
pub struct Exited {
    /// Whether it reported success.
    pub success: bool,
}

/// The end of a process that ran to completion with its output captured.
#[derive(Debug, Clone, PartialEq, Eq)]
pub struct Output {
    /// Whether it reported success.
    pub success: bool,
    /// What it wrote to its standard output.
    pub stdout: Vec<u8>,
    /// What it wrote to its standard error.
    pub stderr: Vec<u8>,
}

} // verus!
