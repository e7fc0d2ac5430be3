//! Writing to the clipboard.
//!
//! A write of plain text is a short conversation with the writer utility:
//! start it with its standard input as a pipe, write the text's bytes to
//! the pipe and close it, wait for the utility to exit. Each step names one
//! thing for the caller to do and turns the outcome into the next step. The
//! other kinds of content are refused without any step.

use std::borrow::Cow;
use std::path::PathBuf;
use vstd::prelude::*;
use vstd::string::StrSliceExecFns;
use vstd::utf8::encode_utf8;

use crate::content::ImageData;
use crate::error::Error;
use crate::error::ErrorView;
use crate::error::Step;
use crate::error::exit_status_text;
use crate::error::refusal_text;
use crate::outcome::Exited;
use crate::outcome::OsFailure;
use crate::outcome::Started;
use crate::session::Clipboard;
use crate::utility::Utility;

verus! {

/// A single write, holding the session in exclusive access until it is
/// spent.
#[derive(Debug)]
pub struct Setter<'clipboard> {
    clipboard: &'clipboard mut Clipboard,
}

/// The request to start the writer utility with its standard input as a
/// pipe and its other streams left alone.
#[derive(Debug)]
pub struct WriteSpawn<'clipboard> {
    setter: Setter<'clipboard>,
    bytes: Vec<u8>,
}

/// The request to write all of [`WriteFeed::bytes`] to the utility's
/// standard input and to close it.
#[derive(Debug)]
pub struct WriteFeed<'clipboard> {
    setter: Setter<'clipboard>,
    bytes: Vec<u8>,
}

/// The request to wait for the utility to exit.
#[derive(Debug)]
pub struct WriteWait<'clipboard> {
    setter: Setter<'clipboard>,
    failure: Option<Error>,
}

/// What follows the start of the writer utility.
#[derive(Debug)]
pub enum WriteNext<'clipboard> {
    /// Its standard input is open: the text is to be written.
    Feed(WriteFeed<'clipboard>),
    /// Its standard input is not there: nothing is written, the exit is
    /// awaited.
    Wait(WriteWait<'clipboard>),
}

/// The bytes that a write of `text` hands to the writer utility: the text
/// in UTF-8, with nothing added.
pub open spec fn text_bytes(text: Seq<char>) -> Seq<u8> {
    encode_utf8(text)
}

/// The failure, if any, that the outcome of writing to the utility's
/// standard input leaves to be reported once the utility has exited.
pub open spec fn feed_verdict(outcome: Result<(), OsFailure>) -> Option<ErrorView> {
    match outcome {
        Ok(_) => None,
        Err(failure) => Some(
            ErrorView::Unknown {
                description: refusal_text(Step::Write, Utility::Writer, failure.message@),
            },
        ),
    }
}

/// The failure, if any, in which a write ends, given the failure left by
/// the writing and the outcome of the wait. A failure of the writing stands
/// whatever the wait brings.
pub open spec fn wait_verdict(pending: Option<ErrorView>, outcome: Result<Exited, OsFailure>) -> Option<
    ErrorView,
> {
    match pending {
        Some(failure) => Some(failure),
        None => match outcome {
            Err(failure) => Some(
                ErrorView::Unknown {
                    description: refusal_text(Step::Wait, Utility::Writer, failure.message@),
                },
            ),
            Ok(exit) => if exit.success {
                None
            } else {
                Some(ErrorView::Unknown { description: exit_status_text(Utility::Writer) })
            },
        },
    }
}

impl<'clipboard> Setter<'clipboard> {
    /// The session that is written to.
    pub closed spec fn session(&self) -> Clipboard {
        *self.clipboard
    }

    /// Prepares a write on `clipboard`.
    pub fn new(clipboard: &'clipboard mut Clipboard) -> (setter: Self)
        ensures
            setter.session() == *old(clipboard),
    {
        Setter { clipboard }
    }

    /// Begins a write of `text`: the writer utility is to be started, and
    /// will be fed the text's bytes, unchanged.
    pub fn text(self, text: Cow<'_, str>) -> (first: WriteSpawn<'clipboard>)
        ensures
            first.input() == text_bytes(text@),
    {
        let bytes = match &text {
            Cow::Borrowed(borrowed) => borrowed.as_bytes_vec(),
            Cow::Owned(owned) => owned.as_str().as_bytes_vec(),
        };
        WriteSpawn { setter: self, bytes }
    }

    /// Refuses a write of HTML: this backend holds plain text only.
    pub fn html(self, html: Cow<'_, str>, alt_text: Option<Cow<'_, str>>) -> (result: Result<
        (),
        Error,
    >)
        ensures
            result matches Err(error) && error@ == ErrorView::BackendUnsupported,
    {
        Err(Error::BackendUnsupported)
    }

    /// Refuses a write of an image: this backend holds plain text only.
    pub fn image(self, image: ImageData) -> (result: Result<(), Error>)
        ensures
            result matches Err(error) && error@ == ErrorView::BackendUnsupported,
    {
        Err(Error::BackendUnsupported)
    }

    /// Refuses a write of a list of files: this backend holds plain text
    /// only.
    pub fn file_list(self, file_list: &[PathBuf]) -> (result: Result<(), Error>)
        ensures
            result matches Err(error) && error@ == ErrorView::BackendUnsupported,
    {
        Err(Error::BackendUnsupported)
    }
}

impl<'clipboard> WriteSpawn<'clipboard> {
    /// The bytes that the utility will be fed.
    pub closed spec fn input(&self) -> Seq<u8> {
        self.bytes@
    }

    /// Takes the outcome of starting the writer utility. A refusal is an
    /// unknown failure that quotes the operating system. A process with an
    /// open standard input is to be fed; one without is only waited for.
    pub fn spawned(self, outcome: Result<Started, OsFailure>) -> (next: Result<
        WriteNext<'clipboard>,
        Error,
    >)
        ensures
            match outcome {
                Err(failure) => next matches Err(error) && error@ == (ErrorView::Unknown {
                    description: refusal_text(Step::Execute, Utility::Writer, failure.message@),
                }),
                Ok(started) => if started.stdin_open {
                    next matches Ok(WriteNext::Feed(feed)) && feed.input() == self.input()
                } else {
                    next matches Ok(WriteNext::Wait(wait)) && wait.pending() is None
                },
            },
    {
        match outcome {
            Err(failure) => Err(
                Error::refused(Step::Execute, Utility::Writer, failure.message.as_str()),
            ),
            Ok(started) => {
                if started.stdin_open {
                    Ok(WriteNext::Feed(WriteFeed { setter: self.setter, bytes: self.bytes }))
                } else {
                    Ok(WriteNext::Wait(WriteWait { setter: self.setter, failure: None }))
                }
            },
        }
    }
}

impl<'clipboard> WriteFeed<'clipboard> {
    /// The bytes to write.
    pub closed spec fn input(&self) -> Seq<u8> {
        self.bytes@
    }

    /// The bytes to write.
    pub fn bytes(&self) -> (bytes: &Vec<u8>)
        ensures
            bytes@ == self.input(),
    {
        &self.bytes
    }

    /// Takes the outcome of the writing. The exit is awaited in either
    /// case; a refusal is kept, to be reported after the wait.
    pub fn written(self, outcome: Result<(), OsFailure>) -> (wait: WriteWait<'clipboard>)
        ensures
            wait.pending() == feed_verdict(outcome),
    {
        match outcome {
            Ok(_) => WriteWait { setter: self.setter, failure: None },
            Err(failure) => WriteWait {
                setter: self.setter,
                failure: Some(
                    Error::refused(Step::Write, Utility::Writer, failure.message.as_str()),
                ),
            },
        }
    }
}

impl<'clipboard> WriteWait<'clipboard> {
    /// The failure of the writing that is to be reported after the wait.
    pub closed spec fn pending(&self) -> Option<ErrorView> {
        match self.failure {
            Some(error) => Some(error@),
            None => None,
        }
    }

    /// Takes the outcome of the wait and ends the write. A failure of the
    /// writing is reported first; then a refused wait, then an exit with
    /// failure, each as an unknown failure. Otherwise the write succeeded.
    pub fn exited(self, outcome: Result<Exited, OsFailure>) -> (result: Result<(), Error>)
        ensures
            match wait_verdict(self.pending(), outcome) {
                Some(failure) => result matches Err(error) && error@ == failure,
                None => result is Ok,
            },
    {
        match self.failure {
            Some(error) => Err(error),
            None => match outcome {
                Err(failure) => Err(
                    Error::refused(Step::Wait, Utility::Writer, failure.message.as_str()),
                ),
                Ok(exit) => {
                    if exit.success {
                        Ok(())
                    } else {
                        Err(Error::exit_status(Utility::Writer))
                    }
                },
            },
        }
    }
}

} // verus!
