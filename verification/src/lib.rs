//! Plain-text clipboard access through the two Termux command-line
//! utilities, written as a protocol core: the library decides what is to be
//! done with the utilities and what each outcome means; the caller runs them
//! and reports back.

pub mod clearer;
pub mod content;
pub mod error;
pub mod laws;
pub mod outcome;
pub mod reader;
pub mod session;
pub mod text;
pub mod utility;
pub mod writer;
