//! Reading from the clipboard.
//!
//! A read of plain text is one run of the reader utility to completion,
//! with its output captured; the caller performs the run and hands over
//! what came of it. The other kinds of content are refused without any run.

use std::path::PathBuf;
use vstd::prelude::*;
use vstd::utf8::decode_utf8;
use vstd::utf8::valid_utf8;

use crate::content::ImageData;
use crate::error::Error;
use crate::error::ErrorView;
use crate::error::Step;
use crate::error::exit_diagnostics_text;
use crate::error::refusal_text;
use crate::outcome::OsFailure;
use crate::outcome::Output;
use crate::session::Clipboard;
use crate::text::decode_lossy;
use crate::text::decode_strict;
use crate::text::lossy_text;
use crate::utility::Utility;

verus! {

/// A single read, holding the session in shared access until it is spent.
#[derive(Debug)]
pub struct Get<'clipboard> {
    clipboard: &'clipboard Clipboard,
}

/// What a run of the reader utility that exited means for a read of plain
/// text, given the text that lossy decoding made of its standard error.
pub open spec fn exit_reading(output: Output, diagnostics: Seq<char>) -> Result<
    Seq<char>,
    ErrorView,
> {
    if !output.success {
        Err(
            ErrorView::Unknown {
                description: exit_diagnostics_text(Utility::Reader, diagnostics),
            },
        )
    } else if valid_utf8(output.stdout@) {
        Ok(decode_utf8(output.stdout@))
    } else {
        Err(ErrorView::ConversionFailure)
    }
}

/// What a run of the reader utility means for a read of plain text.
pub open spec fn reading(run: Result<Output, OsFailure>) -> Result<Seq<char>, ErrorView> {
    match run {
        Err(failure) => Err(
            ErrorView::Unknown {
                description: refusal_text(Step::Execute, Utility::Reader, failure.message@),
            },
        ),
        Ok(output) => exit_reading(output, lossy_text(output.stderr@)),
    }
}

/// Whether `result` is `expected`, text and descriptions compared as
/// character sequences.
pub open spec fn is_reading(result: Result<String, Error>, expected: Result<Seq<char>, ErrorView>) -> bool {
    match expected {
        Ok(text) => result matches Ok(read) && read@ == text,
        Err(failure) => result matches Err(error) && error@ == failure,
    }
}

/// Turns a run of the reader utility that exited into the result of a read
/// of plain text; `diagnostics` is its standard error as text. A failed exit
/// is an unknown failure that quotes the diagnostics. After a successful
/// exit the standard output is the text, unchanged, provided that it is
/// valid UTF-8; otherwise the conversion has failed.
pub fn read_exit(output: Output, diagnostics: &str) -> (result: Result<String, Error>)
    ensures
        is_reading(result, exit_reading(output, diagnostics@)),
{
    if !output.success {
        Err(Error::exit_diagnostics(Utility::Reader, diagnostics))
    } else {
        match decode_strict(output.stdout) {
            Some(text) => Ok(text),
            None => Err(Error::ConversionFailure),
        }
    }
}

impl<'clipboard> Get<'clipboard> {
    /// The session that is read from.
    pub closed spec fn session(&self) -> Clipboard {
        *self.clipboard
    }

    /// Prepares a read on `clipboard`.
    pub fn new(clipboard: &'clipboard Clipboard) -> (get: Self)
        ensures
            get.session() == *clipboard,
    {
        Get { clipboard }
    }

    /// Turns a run of the reader utility into the clipboard's plain text.
    /// A run that could not be started is an unknown failure that quotes the
    /// operating system; a run that exited is judged by [`read_exit`], with
    /// its standard error decoded lossily.
    pub fn text(self, run: Result<Output, OsFailure>) -> (result: Result<String, Error>)
        ensures
            is_reading(result, reading(run)),
    {
        match run {
            Err(failure) => Err(
                Error::refused(Step::Execute, Utility::Reader, failure.message.as_str()),
            ),
            Ok(output) => {
                let diagnostics = decode_lossy(&output.stderr);
                read_exit(output, diagnostics.as_str())
            },
        }
    }

    /// Refuses a read of HTML: this backend holds plain text only.
    pub fn html(self) -> (result: Result<String, Error>)
        ensures
            result matches Err(error) && error@ == ErrorView::BackendUnsupported,
    {
        Err(Error::BackendUnsupported)
    }

    /// Refuses a read of an image: this backend holds plain text only.
    pub fn image(self) -> (result: Result<ImageData, Error>)
        ensures
            result matches Err(error) && error@ == ErrorView::BackendUnsupported,
    {
        Err(Error::BackendUnsupported)
    }

    /// Refuses a read of a list of files: this backend holds plain text
    /// only.
    pub fn file_list(self) -> (result: Result<Vec<PathBuf>, Error>)
        ensures
            result matches Err(error) && error@ == ErrorView::BackendUnsupported,
    {
        Err(Error::BackendUnsupported)
    }
}

} // verus!
