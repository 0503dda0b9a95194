//! The editor: a buffer and the mode that decides what an input event does
//! to it.
//!
//! In Normal mode entered text names a command. In Insert mode entered text
//! goes into the buffer as it is, and only the escape key leads back. The
//! editor writes no file itself: where a command asks for the buffer to be
//! saved, the editor hands back what is to be written.

use crate::buffer::{loaded, Buffer, BufferView, FileWrite, SaveError};
use crate::command::{command_of, Command};
use crate::event::{EventView, InputEvent, Key};
use crate::mode::Mode;
use vstd::prelude::*;
use vstd::string::*;

verus! {

/// What an editor is, as mathematics: its mode and the view of its buffer.
pub struct EditorView {
    /// The active mode.
    pub mode: Mode,
    /// The buffer.
    pub buf: BufferView,
}

impl EditorView {
    /// The invariant of an editor: a valid buffer, and no cursor past the end
    /// of a line in Normal mode.
    pub open spec fn wf(self) -> bool {
        &&& self.buf.wf()
        &&& self.mode == Mode::Normal ==> !self.buf.append
    }

    /// The same editor with another buffer.
    pub open spec fn with_buf(self, buf: BufferView) -> EditorView {
        EditorView { buf, ..self }
    }

    /// Entering Insert mode. On an empty line the cursor is allowed past the
    /// end, so that text can be typed at column 0.
    pub open spec fn enter_insert(self) -> EditorView {
        EditorView {
            mode: Mode::Insert,
            buf: if self.buf.line().len() == 0 {
                self.buf.with_append(true)
            } else {
                self.buf
            },
        }
    }

    /// Entering Normal mode. The cursor is no longer allowed past the end of
    /// its line.
    pub open spec fn enter_normal(self) -> EditorView {
        EditorView { mode: Mode::Normal, buf: self.buf.with_append(false).normalize() }
    }

    /// Whether the cursor stands on the last character of its line, or on no
    /// character at all, so that one column further is past the end.
    pub open spec fn at_line_end(self) -> bool {
        self.buf.cursor_char + 1 >= self.buf.line().len()
    }

    /// What a command of Normal mode does.
    pub open spec fn run(self, cmd: Command) -> EditorView {
        match cmd {
            Command::MoveDown => self.with_buf(self.buf.move_down()),
            Command::MoveUp => self.with_buf(self.buf.move_up()),
            Command::MoveLeft => self.with_buf(self.buf.move_left()),
            Command::MoveRight => self.with_buf(self.buf.move_right()),
            Command::DeleteChar => self.with_buf(self.buf.delete_char()),
            Command::DeleteLine => self.with_buf(self.buf.delete_line()),
            Command::LineStart => self.with_buf(self.buf.move_start_line()),
            Command::LineEnd => self.with_buf(self.buf.move_end_line()),
            Command::Top => self.with_buf(self.buf.move_top()),
            Command::Bottom => self.with_buf(self.buf.move_bot()),
            Command::Save => self,
            Command::Insert => self.enter_insert(),
            Command::InsertAtLineStart => self.with_buf(self.buf.move_start_line()).enter_insert(),
            Command::Append => self.with_buf(
                self.buf.with_append(self.buf.append || self.at_line_end()).move_right(),
            ).enter_insert(),
            Command::AppendAtLineEnd => self.with_buf(
                self.buf.with_append(true).move_end_line().move_right(),
            ).enter_insert(),
            Command::OpenAbove => self.with_buf(self.buf.newline_above()).enter_insert(),
            Command::OpenBelow => self.with_buf(
                self.buf.newline_below().move_down(),
            ).enter_insert(),
        }
    }

    /// What an event does in Normal mode: entered text that names a command
    /// runs it, and everything else is ignored.
    pub open spec fn step_normal(self, event: EventView) -> EditorView {
        match event {
            EventView::TextInput(text) => match command_of(text) {
                Some(cmd) => self.run(cmd),
                None => self,
            },
            _ => self,
        }
    }

    /// What an event does in Insert mode: entered text is spliced in at the
    /// cursor, which then moves behind it; the escape key moves the cursor one
    /// column to the left and leads back to Normal mode; everything else is
    /// ignored.
    pub open spec fn step_insert(self, event: EventView) -> EditorView {
        match event {
            EventView::KeyDown(Key::Escape) => EditorView {
                mode: Mode::Normal,
                buf: self.buf.with_append(false).move_left(),
            },
            EventView::TextInput(text) => self.with_buf(
                self.buf.insert(text).move_right_by(text.len() as int),
            ),
            _ => self,
        }
    }

    /// What an event does.
    pub open spec fn step(self, event: EventView) -> EditorView {
        match self.mode {
            Mode::Normal => self.step_normal(event),
            Mode::Insert => self.step_insert(event),
        }
    }

    /// Whether an event asks for the buffer to be saved: in Normal mode, the
    /// text that names the save command.
    pub open spec fn asks_to_save(self, event: EventView) -> bool {
        self.mode == Mode::Normal && names_save(event)
    }

    /// What the events of a sequence do, one after the other.
    pub open spec fn step_all(self, events: Seq<EventView>) -> EditorView
        decreases events.len(),
    {
        if events.len() == 0 {
            self
        } else {
            self.step_all(events.drop_last()).step(events.last())
        }
    }
}

/// Whether an event is entered text that names the save command.
pub open spec fn names_save(event: EventView) -> bool {
    event matches EventView::TextInput(text) && command_of(text) == Some(Command::Save)
}

/// Whether `res` is what saving a buffer gives: the error where no file backs
/// the buffer, else the whole content for the file that backs it.
pub open spec fn is_save_of(res: Result<FileWrite, SaveError>, buf: BufferView) -> bool {
    match buf.filename {
        None => res == Err::<FileWrite, SaveError>(SaveError::NoBackingFile),
        Some(path) => res is Ok && res->Ok_0.path@ == path && res->Ok_0.content@ == buf.content(),
    }
}

/// A buffer and the mode in which input reaches it.
#[derive(Debug, Clone)]
pub struct Editor {
    /// The active mode.
    pub mode: Mode,
    /// The buffer that the editor owns.
    pub buf: Buffer,
}

impl View for Editor {
    type V = EditorView;

    open spec fn view(&self) -> EditorView {
        EditorView { mode: self.mode, buf: self.buf@ }
    }
}

impl Editor {
    /// An editor in Normal mode on the buffer of a file, from the file's
    /// resolved path and its content.
    pub fn new(path: &str, content: &str) -> (ed: Editor)
        ensures
            ed@ == (EditorView { mode: Mode::Normal, buf: loaded(path@, content@) }),
            ed@.wf(),
    {
        Editor { mode: Mode::Normal, buf: Buffer::from_file(path, content) }
    }

    /// Whether the editor is valid: its buffer is valid, and in Normal mode
    /// the cursor may not stand past the end of its line.
    pub fn is_valid(&self) -> (valid: bool)
        ensures
            valid == self@.wf(),
    {
        self.buf.is_valid() && !(self.mode == Mode::Normal && self.buf.append)
    }

    /// Enters Normal mode, where the cursor may not stand past the end of its
    /// line.
    pub fn mode_normal(&mut self)
        requires
            old(self)@.buf.has_lines(),
        ensures
            final(self)@ == old(self)@.enter_normal(),
            final(self)@.wf(),
    {
        self.mode = Mode::Normal;
        self.buf.append = false;
        self.buf.check_cursor();
    }

    /// Enters Insert mode. On an empty line the cursor is allowed past the
    /// end, so that text can be typed at column 0.
    pub fn mode_insert(&mut self)
        requires
            old(self)@.buf.wf(),
        ensures
            final(self)@ == old(self)@.enter_insert(),
            final(self)@.wf(),
    {
        self.mode = Mode::Insert;
        if self.buf.is_current_line_empty() {
            self.buf.append = true;
        }
    }

    /// Runs a command of Normal mode. The save command changes nothing and
    /// hands back what saving the buffer gives; every other command hands
    /// back nothing.
    pub fn run(&mut self, cmd: Command) -> (save: Option<Result<FileWrite, SaveError>>)
        requires
            old(self)@.wf(),
        ensures
            final(self)@ == old(self)@.run(cmd),
            final(self)@.wf(),
            cmd != Command::Save ==> save is None,
            cmd == Command::Save ==> save is Some && is_save_of(save->Some_0, old(self)@.buf),
    {
        match cmd {
            Command::MoveDown => self.buf.move_down(),
            Command::MoveUp => self.buf.move_up(),
            Command::MoveLeft => self.buf.move_left(),
            Command::MoveRight => self.buf.move_right(),
            Command::DeleteChar => self.buf.delete_char(),
            Command::DeleteLine => self.buf.delete_line(),
            Command::LineStart => self.buf.move_start_line(),
            Command::LineEnd => self.buf.move_end_line(),
            Command::Top => self.buf.move_top(),
            Command::Bottom => self.buf.move_bot(),
            Command::Save => {
                return Some(self.buf.save_to_own_file());
            },
            Command::Insert => self.mode_insert(),
            Command::InsertAtLineStart => {
                self.buf.move_start_line();
                self.mode_insert();
            },
            Command::Append => {
                let line = self.buf.lines[self.buf.cursor_line].as_str();
                if self.buf.cursor_char >= line.unicode_len().saturating_sub(1) {
                    self.buf.append = true;
                }
                self.buf.move_right();
                self.mode_insert();
            },
            Command::AppendAtLineEnd => {
                self.buf.append = true;
                self.buf.move_end_line();
                self.buf.move_right();
                self.mode_insert();
            },
            Command::OpenAbove => {
                self.buf.newline_above();
                self.mode_insert();
            },
            Command::OpenBelow => {
                self.buf.newline_below();
                self.buf.move_down();
                self.mode_insert();
            },
        }
        None
    }

    /// Handles an event in Normal mode: entered text that names a command
    /// runs it, and everything else is ignored.
    pub fn handle_keypress_normal(&mut self, event: &InputEvent) -> (save: Option<
        Result<FileWrite, SaveError>,
    >)
        requires
            old(self)@.wf(),
        ensures
            final(self)@ == old(self)@.step_normal(event@),
            final(self)@.wf(),
            !names_save(event@) ==> save is None,
            names_save(event@) ==> save is Some && is_save_of(save->Some_0, old(self)@.buf),
    {
        match event {
            InputEvent::TextInput(text) => match Command::parse(text.as_str()) {
                Some(cmd) => self.run(cmd),
                None => None,
            },
            _ => None,
        }
    }

    /// Handles an event in Insert mode: entered text is spliced in at the
    /// cursor, which then moves behind it; the escape key moves the cursor one
    /// column to the left and leads back to Normal mode; everything else is
    /// ignored.
    pub fn handle_keypress_insert(&mut self, event: &InputEvent)
        requires
            old(self)@.wf(),
        ensures
            final(self)@ == old(self)@.step_insert(event@),
            final(self)@.wf(),
    {
        match event {
            InputEvent::KeyDown(Key::Escape) => {
                self.buf.append = false;
                self.buf.move_left();
                self.mode_normal();
            },
            InputEvent::TextInput(text) => {
                self.buf.insert(text.as_str());
                self.buf.move_right_by(text.as_str().unicode_len());
            },
            _ => {},
        }
    }

    /// Handles one input event in the active mode.
    ///
    /// The editor and its buffer change as `EditorView::step` says. An event
    /// that asks for the buffer to be saved changes nothing; it hands back
    /// what is to be written to the buffer's file, or the error where no file
    /// backs the buffer. Every other event hands back nothing.
    pub fn handle_keypress(&mut self, event: &InputEvent) -> (save: Option<
        Result<FileWrite, SaveError>,
    >)
        requires
            old(self)@.wf(),
        ensures
            final(self)@ == old(self)@.step(event@),
            final(self)@.wf(),
            !old(self)@.asks_to_save(event@) ==> save is None,
            old(self)@.asks_to_save(event@) ==> save is Some && is_save_of(
                save->Some_0,
                old(self)@.buf,
            ),
    {
        match self.mode {
            Mode::Normal => self.handle_keypress_normal(event),
            Mode::Insert => {
                self.handle_keypress_insert(event);
                None
            },
        }
    }
}

} // verus!
