//! Kinds of clipboard content other than plain text. This backend handles
//! none of them; the types exist so that a request for them can be refused.

use vstd::prelude::*;

verus! {

/// The standard library's owned file-system path, carried through unread.
#[verifier::external_type_specification]
#[verifier::external_body]
pub struct ExPathBuf(std::path::PathBuf);

/// A raster image: rows of pixels, four bytes each.
#[derive(Debug, Clone, PartialEq, Eq)]
pub struct ImageData {
    pub width: usize,
    pub height: usize,
    pub bytes: Vec<u8>,
}

} // verus!
