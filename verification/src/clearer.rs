//! Clearing the clipboard: a write of the empty text.

use std::borrow::Cow;
use vstd::prelude::*;

use crate::session::Clipboard;
use crate::writer::Setter;
use crate::writer::WriteSpawn;

verus! {

/// A single clearing, holding the session in exclusive access until it is
/// spent.
#[derive(Debug)]
pub struct Clear<'clipboard> {
    clipboard: &'clipboard mut Clipboard,
}

impl<'clipboard> Clear<'clipboard> {
    /// The session that is cleared.
    pub closed spec fn session(&self) -> Clipboard {
        *self.clipboard
    }

    /// Prepares a clearing of `clipboard`.
    pub fn new(clipboard: &'clipboard mut Clipboard) -> (clear: Self)
        ensures
            clear.session() == *old(clipboard),
    {
        Clear { clipboard }
    }

    /// Begins the clearing: a write that feeds the writer utility nothing.
    pub fn clear(self) -> (first: WriteSpawn<'clipboard>)
        ensures
            first.input() == Seq::<u8>::empty(),
    {
        proof {
            reveal_strlit("");
        }
        Setter::new(self.clipboard).text(Cow::Borrowed(""))
    }
}

} // verus!
