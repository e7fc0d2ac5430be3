//! The closed set of failures, and the wording of their messages.

use vstd::prelude::*;
use vstd::string::StringExecFns;

use crate::utility::Utility;

verus! {

/// Why a clipboard operation failed.
#[derive(Debug, Clone, PartialEq, Eq)]
pub enum Error {
    /// A utility was not found when the session was constructed.
    BackendUnavailable { description: String },
    /// The operating system refused to start, feed, await or kill a
    /// utility, or the utility reported failure.
    Unknown { description: String },
    /// The utility's output is not valid UTF-8.
    ConversionFailure,
    /// The requested kind of content is never handled by this backend.
    BackendUnsupported,
}

/// An [`Error`] with its descriptions as character sequences.
pub enum ErrorView {
    BackendUnavailable { description: Seq<char> },
    Unknown { description: Seq<char> },
    ConversionFailure,
    BackendUnsupported,
}

impl View for Error {
    type V = ErrorView;

    open spec fn view(&self) -> ErrorView {
        match self {
            Error::BackendUnavailable { description } => ErrorView::BackendUnavailable {
                description: description@,
            },
            Error::Unknown { description } => ErrorView::Unknown { description: description@ },
            Error::ConversionFailure => ErrorView::ConversionFailure,
            Error::BackendUnsupported => ErrorView::BackendUnsupported,
        }
    }
}

/// The step at which the operating system refused to serve a utility.
#[derive(Clone, Copy, Debug, PartialEq, Eq, Structural)]
pub enum Step {
    /// Starting the utility to see whether it can be started.
    Probe,
    /// Terminating the process that was started for that purpose.
    Kill,
    /// Starting the utility for a read or a write.
    Execute,
    /// Writing the text to the utility's standard input.
    Write,
    /// Waiting for the utility to exit.
    Wait,
}

impl Step {
    /// How a message about a refusal at this step begins, up to the opening
    /// quote of the utility's name.
    pub open spec fn spec_opening(self) -> Seq<char> {
        match self {
            Step::Probe => "Error while testing for '"@,
            Step::Kill => "Failed to kill test process for '"@,
            Step::Execute => "Failed to execute '"@,
            Step::Write => "Failed to write to stdin of '"@,
            Step::Wait => "Failed to wait for '"@,
        }
    }

    /// How a message about a refusal at this step begins, up to the opening
    /// quote of the utility's name.
    pub fn opening(self) -> (text: &'static str)
        ensures
            text@ == self.spec_opening(),
    {
        match self {
            Step::Probe => "Error while testing for '",
            Step::Kill => "Failed to kill test process for '",
            Step::Execute => "Failed to execute '",
            Step::Write => "Failed to write to stdin of '",
            Step::Wait => "Failed to wait for '",
        }
    }
}

/// The message for a utility that was not found.
pub open spec fn unavailable_text(utility: Utility) -> Seq<char> {
    "'"@ + utility.spec_name() + "' command not found. Please install Termux:API."@
}

/// The message for a refusal by the operating system at `step`, with the
/// system's own words in `cause`.
pub open spec fn refusal_text(step: Step, utility: Utility, cause: Seq<char>) -> Seq<char> {
    step.spec_opening() + utility.spec_name() + "': "@ + cause
}

/// The message for a utility that exited with failure and left
/// `diagnostics` on its standard error.
pub open spec fn exit_diagnostics_text(utility: Utility, diagnostics: Seq<char>) -> Seq<char> {
    "'"@ + utility.spec_name() + "' exited with non-zero status: "@ + diagnostics
}

/// The message for a utility that exited with failure, its standard error
/// not captured.
pub open spec fn exit_status_text(utility: Utility) -> Seq<char> {
    "'"@ + utility.spec_name() + "' exited with non-zero status."@
}

impl Error {
    /// The failure of session construction on a utility that was not found.
    pub fn unavailable(utility: Utility) -> (error: Error)
        ensures
            error@ == (ErrorView::BackendUnavailable { description: unavailable_text(utility) }),
    {
        let mut description = String::from_str("'");
        description.append(utility.name());
        description.append("' command not found. Please install Termux:API.");
        Error::BackendUnavailable { description }
    }

    /// The failure of an operation at `step` for a reason that the
    /// operating system gave in `cause`.
    pub fn refused(step: Step, utility: Utility, cause: &str) -> (error: Error)
        ensures
            error@ == (ErrorView::Unknown { description: refusal_text(step, utility, cause@) }),
    {
        let mut description = String::from_str(step.opening());
        description.append(utility.name());
        description.append("': ");
        description.append(cause);
        Error::Unknown { description }
    }

    /// The failure of a utility that exited with failure and left
    /// `diagnostics` on its standard error.
    pub fn exit_diagnostics(utility: Utility, diagnostics: &str) -> (error: Error)
        ensures
            error@ == (ErrorView::Unknown {
                description: exit_diagnostics_text(utility, diagnostics@),
            }),
    {
        let mut description = String::from_str("'");
        description.append(utility.name());
        description.append("' exited with non-zero status: ");
        description.append(diagnostics);
        Error::Unknown { description }
    }

    /// The failure of a utility that exited with failure, its standard error
    /// not captured.
    pub fn exit_status(utility: Utility) -> (error: Error)
        ensures
            error@ == (ErrorView::Unknown { description: exit_status_text(utility) }),
    {
        let mut description = String::from_str("'");
        description.append(utility.name());
        description.append("' exited with non-zero status.");
        Error::Unknown { description }
    }
}

} // verus!
