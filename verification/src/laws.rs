//! What holds of the operations taken together.

use vstd::prelude::*;
use vstd::utf8::encode_utf8_decode_utf8;
use vstd::utf8::encode_utf8_valid_utf8;

use crate::error::ErrorView;
use crate::error::Step;
use crate::error::exit_diagnostics_text;
use crate::error::exit_status_text;
use crate::error::refusal_text;
use crate::error::unavailable_text;
use crate::outcome::OsFailure;
use crate::outcome::Output;
use crate::reader::reading;
use crate::session::construction_verdict;
use crate::utility::Utility;
use crate::writer::text_bytes;

verus! {

/// Whether `name` occurs in `text`.
pub open spec fn mentions(text: Seq<char>, name: Seq<char>) -> bool {
    exists|at: int|
        0 <= at && at + name.len() <= text.len() && #[trigger] text.subrange(
            at,
            at + name.len(),
        ) == name
}

/// Round trip: when the reader utility succeeds and prints exactly the
/// bytes that a write of `text` feeds to the writer utility, the read
/// returns `text`, unchanged.
pub proof fn lemma_write_then_read(text: Seq<char>, run: Output)
    requires
        run.success,
        run.stdout@ == text_bytes(text),
    ensures
        reading(Ok(run)) == Ok::<Seq<char>, ErrorView>(text),
{
    encode_utf8_valid_utf8(text);
    encode_utf8_decode_utf8(text);
}

/// Clearing: when the reader utility succeeds and prints exactly the bytes
/// that a clearing feeds to the writer utility, which are none, the read
/// returns the empty text.
pub proof fn lemma_clear_then_read(run: Output)
    requires
        run.success,
        run.stdout@ == Seq::<u8>::empty(),
    ensures
        reading(Ok(run)) == Ok::<Seq<char>, ErrorView>(Seq::empty()),
{
    let nothing = Seq::<char>::empty();
    assert(text_bytes(nothing) == Seq::<u8>::empty());
    lemma_write_then_read(nothing, run);
}

/// A session comes into being only when both utilities were started and
/// terminated without a refusal.
pub proof fn lemma_session_needs_both(
    reader_spawn: Result<(), OsFailure>,
    reader_kill: Result<(), OsFailure>,
    writer_spawn: Result<(), OsFailure>,
    writer_kill: Result<(), OsFailure>,
)
    ensures
        construction_verdict(reader_spawn, reader_kill, writer_spawn, writer_kill) is None <==> (
        reader_spawn is Ok && reader_kill is Ok && writer_spawn is Ok && writer_kill is Ok),
{
}

/// A reader utility that is not found makes the backend unavailable,
/// whatever holds of the writer.
pub proof fn lemma_absent_reader(
    reader_spawn: Result<(), OsFailure>,
    reader_kill: Result<(), OsFailure>,
    writer_spawn: Result<(), OsFailure>,
    writer_kill: Result<(), OsFailure>,
)
    requires
        reader_spawn matches Err(failure) && failure.not_found,
    ensures
        construction_verdict(reader_spawn, reader_kill, writer_spawn, writer_kill) == Some(
            ErrorView::BackendUnavailable { description: unavailable_text(Utility::Reader) },
        ),
{
}

/// A writer utility that is not found makes the backend unavailable, once
/// the probe of the reader has succeeded and the writer's turn has come.
pub proof fn lemma_absent_writer(
    reader_spawn: Result<(), OsFailure>,
    reader_kill: Result<(), OsFailure>,
    writer_spawn: Result<(), OsFailure>,
    writer_kill: Result<(), OsFailure>,
)
    requires
        reader_spawn is Ok,
        reader_kill is Ok,
        writer_spawn matches Err(failure) && failure.not_found,
    ensures
        construction_verdict(reader_spawn, reader_kill, writer_spawn, writer_kill) == Some(
            ErrorView::BackendUnavailable { description: unavailable_text(Utility::Writer) },
        ),
{
}

/// Every message about a utility holds the utility's name.
pub proof fn lemma_messages_name_utility(step: Step, utility: Utility, detail: Seq<char>)
    ensures
        mentions(unavailable_text(utility), utility.spec_name()),
        mentions(refusal_text(step, utility, detail), utility.spec_name()),
        mentions(exit_diagnostics_text(utility, detail), utility.spec_name()),
        mentions(exit_status_text(utility), utility.spec_name()),
{
    let name = utility.spec_name();
    let quote = "'"@.len() as int;
    let opening = step.spec_opening().len() as int;
    assert(unavailable_text(utility).subrange(quote, quote + name.len()) == name);
    assert(refusal_text(step, utility, detail).subrange(opening, opening + name.len()) == name);
    assert(exit_diagnostics_text(utility, detail).subrange(quote, quote + name.len()) == name);
    assert(exit_status_text(utility).subrange(quote, quote + name.len()) == name);
}

} // verus!
