//! The two modes of the editor.

use vstd::prelude::*;

verus! {

/// Which command table is active.
#[derive(Debug, Clone, Copy, PartialEq, Eq, Structural)]
pub enum Mode {
    /// Navigation and commands: typed characters are commands.
    Normal,
    /// Literal text entry: typed characters are inserted.
    Insert,
}

impl Mode {
    /// The lower-case name of the mode, as shown to the user.
    pub open spec fn spec_name(self) -> Seq<char> {
        match self {
            Mode::Normal => "normal"@,
            Mode::Insert => "insert"@,
        }
    }

    /// The lower-case name of the mode: `"normal"` or `"insert"`.
    pub fn name(&self) -> (r: &'static str)
        ensures
            r@ == self.spec_name(),
    {
        match self {
            Mode::Normal => "normal",
            Mode::Insert => "insert",
        }
    }
}

} // verus!
