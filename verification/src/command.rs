//! The commands of Normal mode and the characters that name them.

use vstd::prelude::*;
use vstd::string::*;

verus! {

/// A command of Normal mode.
#[derive(Debug, Clone, Copy, PartialEq, Eq, Structural)]
pub enum Command {
    /// `j`: one line down.
    MoveDown,
    /// `k`: one line up.
    MoveUp,
    /// `h`: one column to the left.
    MoveLeft,
    /// `l`: one column to the right.
    MoveRight,
    /// `x`: delete the character under the cursor.
    DeleteChar,
    /// `d`: delete the cursor's line.
    DeleteLine,
    /// `0` or `_`: to the start of the line.
    LineStart,
    /// `$`: to the end of the line.
    LineEnd,
    /// `g`: to the first line.
    Top,
    /// `G`: to the last line.
    Bottom,
    /// `w`: save the buffer to its file.
    Save,
    /// `i`: insert before the cursor.
    Insert,
    /// `I`: insert at the start of the line.
    InsertAtLineStart,
    /// `a`: insert behind the cursor.
    Append,
    /// `A`: insert behind the end of the line.
    AppendAtLineEnd,
    /// `O`: open a line above and insert there.
    OpenAbove,
    /// `o`: open a line below and insert there.
    OpenBelow,
}

/// The command that a character names, if it names one.
pub open spec fn command_of_char(c: char) -> Option<Command> {
    if c == 'j' {
        Some(Command::MoveDown)
    } else if c == 'k' {
        Some(Command::MoveUp)
    } else if c == 'h' {
        Some(Command::MoveLeft)
    } else if c == 'l' {
        Some(Command::MoveRight)
    } else if c == 'x' {
        Some(Command::DeleteChar)
    } else if c == 'd' {
        Some(Command::DeleteLine)
    } else if c == '0' || c == '_' {
        Some(Command::LineStart)
    } else if c == '$' {
        Some(Command::LineEnd)
    } else if c == 'g' {
        Some(Command::Top)
    } else if c == 'G' {
        Some(Command::Bottom)
    } else if c == 'w' {
        Some(Command::Save)
    } else if c == 'i' {
        Some(Command::Insert)
    } else if c == 'I' {
        Some(Command::InsertAtLineStart)
    } else if c == 'a' {
        Some(Command::Append)
    } else if c == 'A' {
        Some(Command::AppendAtLineEnd)
    } else if c == 'O' {
        Some(Command::OpenAbove)
    } else if c == 'o' {
        Some(Command::OpenBelow)
    } else {
        None
    }
}

/// The command that entered text names: the text must be exactly one
/// character, and that character must name a command.
pub open spec fn command_of(text: Seq<char>) -> Option<Command> {
    if text.len() == 1 {
        command_of_char(text[0])
    } else {
        None
    }
}

impl Command {
    /// The command that a character names, if it names one.
    pub fn from_char(c: char) -> (cmd: Option<Command>)
        ensures
            cmd == command_of_char(c),
    {
        if c == 'j' {
            Some(Command::MoveDown)
        } else if c == 'k' {
            Some(Command::MoveUp)
        } else if c == 'h' {
            Some(Command::MoveLeft)
        } else if c == 'l' {
            Some(Command::MoveRight)
        } else if c == 'x' {
            Some(Command::DeleteChar)
        } else if c == 'd' {
            Some(Command::DeleteLine)
        } else if c == '0' || c == '_' {
            Some(Command::LineStart)
        } else if c == '$' {
            Some(Command::LineEnd)
        } else if c == 'g' {
            Some(Command::Top)
        } else if c == 'G' {
            Some(Command::Bottom)
        } else if c == 'w' {
            Some(Command::Save)
        } else if c == 'i' {
            Some(Command::Insert)
        } else if c == 'I' {
            Some(Command::InsertAtLineStart)
        } else if c == 'a' {
            Some(Command::Append)
        } else if c == 'A' {
            Some(Command::AppendAtLineEnd)
        } else if c == 'O' {
            Some(Command::OpenAbove)
        } else if c == 'o' {
            Some(Command::OpenBelow)
        } else {
            None
        }
    }

    /// The command that entered text names, if it names one.
    pub fn parse(text: &str) -> (cmd: Option<Command>)
        ensures
            cmd == command_of(text@),
    {
        if text.unicode_len() == 1 {
            Command::from_char(text.get_char(0))
        } else {
            None
        }
    }
}

} // verus!
