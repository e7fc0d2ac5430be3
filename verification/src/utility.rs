//! The two command-line utilities that stand between this library and the
//! clipboard service.

use vstd::prelude::*;

verus! {

/// One of the two utilities that the Termux companion app provides.
#[derive(Clone, Copy, Debug, PartialEq, Eq, Structural)]
pub enum Utility {
    /// Prints the clipboard's plain text on its standard output.
    Reader,
    /// Replaces the clipboard's content with what it reads on its standard
    /// input.
    Writer,
}

impl Utility {
    /// The name under which the utility is found on the search path.
    pub open spec fn spec_name(self) -> Seq<char> {
        match self {
            Utility::Reader => "termux-clipboard-get"@,
            Utility::Writer => "termux-clipboard-set"@,
        }
    }

    /// The name under which the utility is found on the search path.
    pub fn name(self) -> (name: &'static str)
        ensures
            name@ == self.spec_name(),
    {
        match self {
            Utility::Reader => "termux-clipboard-get",
            Utility::Writer => "termux-clipboard-set",
        }
    }
}

} // verus!
