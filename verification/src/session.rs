//! The session, and the probing of the two utilities that precedes it.
//!
//! A session is constructed in steps. Each step names one thing for the
//! caller to do with a utility and turns the outcome into the next step:
//! start the reader, terminate it, start the writer, terminate it. The first
//! failure ends the construction; no session exists before the last step
//! has succeeded.

use vstd::prelude::*;

use crate::error::Error;
use crate::error::ErrorView;
use crate::error::Step;
use crate::error::refusal_text;
use crate::error::unavailable_text;
use crate::outcome::OsFailure;
use crate::utility::Utility;

verus! {

/// A clipboard environment in which both utilities were found and could be
/// started when it was constructed.
#[derive(Debug)]
pub struct Clipboard {
    probed: (),
}

/// The request to start a utility without waiting for it.
#[derive(Debug)]
pub struct ProbeSpawn {
    utility: Utility,
}

/// The request to terminate the process that was just started.
#[derive(Debug)]
pub struct ProbeKill {
    utility: Utility,
}

/// What follows the successful probe of one utility.
#[derive(Debug)]
pub enum Probed {
    /// The next utility is to be started.
    Next(ProbeSpawn),
    /// Both utilities were probed: the session.
    Ready(Clipboard),
}

/// The utility that is probed after `utility`, if there is one.
pub open spec fn probed_after(utility: Utility) -> Option<Utility> {
    match utility {
        Utility::Reader => Some(Utility::Writer),
        Utility::Writer => None,
    }
}

/// The failure, if any, that the outcome of starting `utility` means for
/// the construction.
pub open spec fn spawn_verdict(utility: Utility, outcome: Result<(), OsFailure>) -> Option<
    ErrorView,
> {
    match outcome {
        Ok(_) => None,
        Err(failure) => Some(
            if failure.not_found {
                ErrorView::BackendUnavailable { description: unavailable_text(utility) }
            } else {
                ErrorView::Unknown {
                    description: refusal_text(Step::Probe, utility, failure.message@),
                }
            },
        ),
    }
}

/// The failure, if any, that the outcome of terminating the process of
/// `utility` means for the construction.
pub open spec fn kill_verdict(utility: Utility, outcome: Result<(), OsFailure>) -> Option<
    ErrorView,
> {
    match outcome {
        Ok(_) => None,
        Err(failure) => Some(
            ErrorView::Unknown { description: refusal_text(Step::Kill, utility, failure.message@) },
        ),
    }
}

/// The failure, if any, in which the probe of one utility ends, given how
/// the operating system answers its start and, after that, its
/// termination. The termination is asked for only after a successful start.
pub open spec fn probe_verdict(
    utility: Utility,
    spawn: Result<(), OsFailure>,
    kill: Result<(), OsFailure>,
) -> Option<ErrorView> {
    match spawn_verdict(utility, spawn) {
        Some(failure) => Some(failure),
        None => kill_verdict(utility, kill),
    }
}

/// The failure, if any, in which the construction of a session ends, given
/// how the operating system answers for each utility. The writer is probed
/// only after the reader's probe has succeeded.
pub open spec fn construction_verdict(
    reader_spawn: Result<(), OsFailure>,
    reader_kill: Result<(), OsFailure>,
    writer_spawn: Result<(), OsFailure>,
    writer_kill: Result<(), OsFailure>,
) -> Option<ErrorView> {
    match probe_verdict(Utility::Reader, reader_spawn, reader_kill) {
        Some(failure) => Some(failure),
        None => probe_verdict(Utility::Writer, writer_spawn, writer_kill),
    }
}

impl Clipboard {
    /// Begins the construction of a session: the reader is probed first.
    pub fn new() -> (first: ProbeSpawn)
        ensures
            first.utility() == Utility::Reader,
    {
        ProbeSpawn { utility: Utility::Reader }
    }
}

impl ProbeSpawn {
    /// The utility to start.
    pub closed spec fn spec_utility(&self) -> Utility {
        self.utility
    }

    /// The utility to start.
    #[verifier::when_used_as_spec(spec_utility)]
    pub fn utility(&self) -> (utility: Utility)
        ensures
            utility == self.spec_utility(),
    {
        self.utility
    }

    /// Takes the outcome of starting the utility. A utility that was not
    /// found makes the backend unavailable, any other refusal is an unknown
    /// failure, and a process that was started is to be terminated.
    pub fn spawned(self, outcome: Result<(), OsFailure>) -> (next: Result<ProbeKill, Error>)
        ensures
            match spawn_verdict(self.utility(), outcome) {
                Some(failure) => next matches Err(error) && error@ == failure,
                None => next matches Ok(kill) && kill.utility() == self.utility(),
            },
    {
        match outcome {
            Ok(_) => Ok(ProbeKill { utility: self.utility }),
            Err(failure) => {
                if failure.not_found {
                    Err(Error::unavailable(self.utility))
                } else {
                    Err(Error::refused(Step::Probe, self.utility, failure.message.as_str()))
                }
            },
        }
    }
}

impl ProbeKill {
    /// The utility whose process is to be terminated.
    pub closed spec fn spec_utility(&self) -> Utility {
        self.utility
    }

    /// The utility whose process is to be terminated.
    #[verifier::when_used_as_spec(spec_utility)]
    pub fn utility(&self) -> (utility: Utility)
        ensures
            utility == self.spec_utility(),
    {
        self.utility
    }

    /// Takes the outcome of terminating the process. A refusal is an unknown
    /// failure; otherwise the writer follows the reader, and the session
    /// follows the writer.
    pub fn killed(self, outcome: Result<(), OsFailure>) -> (next: Result<Probed, Error>)
        ensures
            match kill_verdict(self.utility(), outcome) {
                Some(failure) => next matches Err(error) && error@ == failure,
                None => match probed_after(self.utility()) {
                    Some(following) => next matches Ok(Probed::Next(spawn)) && spawn.utility()
                        == following,
                    None => next matches Ok(Probed::Ready(_)),
                },
            },
    {
        match outcome {
            Ok(_) => match self.utility {
                Utility::Reader => Ok(Probed::Next(ProbeSpawn { utility: Utility::Writer })),
                Utility::Writer => Ok(Probed::Ready(Clipboard { probed: () })),
            },
            Err(failure) => Err(Error::refused(Step::Kill, self.utility, failure.message.as_str())),
        }
    }
}

} // verus!
