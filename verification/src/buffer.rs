//! The buffer: the lines of a document and a cursor in them.
//!
//! Every motion and every edit ends with one pass that brings the cursor back
//! into the document, so a cursor that was valid before a call is valid after
//! it. Positions in a line count characters, not bytes.

use crate::text::{join, join_lines, split, split_lines, views};
use vstd::prelude::*;
use vstd::string::*;

verus! {

/// `x` brought into the range from `lo` to `hi`, both included.
pub open spec fn clamp(x: int, lo: int, hi: int) -> int {
    if x < lo {
        lo
    } else if x > hi {
        hi
    } else {
        x
    }
}

/// What a buffer is, as mathematics: its lines as character sequences, its
/// cursor as two integers.
pub struct BufferView {
    /// The path of the backing file, if there is one.
    pub filename: Option<Seq<char>>,
    /// The lines of the document, in document order.
    pub lines: Seq<Seq<char>>,
    /// The index of the line that holds the cursor.
    pub cursor_line: int,
    /// The index of the character under the cursor, in its line.
    pub cursor_char: int,
    /// Whether the cursor may stand one past the last character of its line.
    pub append: bool,
}

impl BufferView {
    /// The document is never without a line.
    pub open spec fn has_lines(self) -> bool {
        self.lines.len() > 0
    }

    /// The line that holds the cursor.
    pub open spec fn line(self) -> Seq<char> {
        self.lines[self.cursor_line]
    }

    /// The largest column the cursor may take in its line: the last
    /// character, or one past it while `append` is set; 0 in an empty line.
    pub open spec fn char_limit(self) -> int {
        if self.append {
            self.line().len() as int
        } else if self.line().len() == 0 {
            0
        } else {
            self.line().len() - 1
        }
    }

    /// The invariant of a buffer: at least one line, the cursor on a line of
    /// the document and on a column that its line allows.
    pub open spec fn wf(self) -> bool {
        &&& self.has_lines()
        &&& 0 <= self.cursor_line < self.lines.len()
        &&& 0 <= self.cursor_char <= self.char_limit()
    }

    /// The same buffer with the cursor on line `line`.
    pub open spec fn with_line(self, line: int) -> BufferView {
        BufferView { cursor_line: line, ..self }
    }

    /// The same buffer with the cursor on column `column`.
    pub open spec fn with_char(self, column: int) -> BufferView {
        BufferView { cursor_char: column, ..self }
    }

    /// The same buffer with other lines.
    pub open spec fn with_lines(self, lines: Seq<Seq<char>>) -> BufferView {
        BufferView { lines, ..self }
    }

    /// The same buffer with the `append` flag as given.
    pub open spec fn with_append(self, append: bool) -> BufferView {
        BufferView { append, ..self }
    }

    /// The same buffer with the line index brought into the document.
    pub open spec fn on_line(self) -> BufferView {
        self.with_line(clamp(self.cursor_line, 0, self.lines.len() - 1))
    }

    /// The normalization pass: the line index is brought into the document,
    /// then the column into what that line allows.
    pub open spec fn normalize(self) -> BufferView {
        self.on_line().with_char(clamp(self.cursor_char, 0, self.on_line().char_limit()))
    }

    /// One line down, as far as the document goes.
    pub open spec fn move_down(self) -> BufferView {
        self.with_line(self.cursor_line + 1).normalize()
    }

    /// One line up, as far as the document goes.
    pub open spec fn move_up(self) -> BufferView {
        self.with_line(self.cursor_line - 1).normalize()
    }

    /// `count` columns to the right, as far as the line allows.
    pub open spec fn move_right_by(self, count: int) -> BufferView {
        self.with_char(self.cursor_char + count).normalize()
    }

    /// One column to the right, as far as the line allows.
    pub open spec fn move_right(self) -> BufferView {
        self.move_right_by(1)
    }

    /// One column to the left, as far as the line goes.
    pub open spec fn move_left(self) -> BufferView {
        self.with_char(self.cursor_char - 1).normalize()
    }

    /// To the first line of the document.
    pub open spec fn move_top(self) -> BufferView {
        self.with_line(0).normalize()
    }

    /// To the last line of the document.
    pub open spec fn move_bot(self) -> BufferView {
        self.with_line(self.lines.len() - 1).normalize()
    }

    /// To the first column of the line.
    pub open spec fn move_start_line(self) -> BufferView {
        self.with_char(0).normalize()
    }

    /// To the last character of the line.
    pub open spec fn move_end_line(self) -> BufferView {
        self.on_line().with_char(self.on_line().line().len() - 1).normalize()
    }

    /// The character under the cursor, if the cursor stands on one.
    pub open spec fn current_char(self) -> Option<char> {
        if 0 <= self.cursor_char < self.line().len() {
            Some(self.line()[self.cursor_char])
        } else {
            None
        }
    }

    /// `s` spliced into the cursor's line at the cursor's column. The cursor
    /// stays where it is.
    pub open spec fn insert(self, s: Seq<char>) -> BufferView {
        let line = self.line();
        let spliced = line.subrange(0, self.cursor_char) + s + line.subrange(
            self.cursor_char,
            line.len() as int,
        );
        self.with_lines(self.lines.update(self.cursor_line, spliced)).normalize()
    }

    /// The character under the cursor removed from its line. Where the cursor
    /// stands on no character (an empty line, or one past the end), nothing is
    /// removed.
    pub open spec fn delete_char(self) -> BufferView {
        if 0 <= self.cursor_char < self.line().len() {
            self.with_lines(
                self.lines.update(self.cursor_line, self.line().remove(self.cursor_char)),
            ).normalize()
        } else {
            self.normalize()
        }
    }

    /// The cursor's line removed from the document. The only line of a
    /// document is not removed but emptied.
    pub open spec fn delete_line(self) -> BufferView {
        if self.lines.len() <= 1 {
            self.with_lines(seq![Seq::<char>::empty()]).normalize()
        } else {
            self.with_lines(self.lines.remove(self.cursor_line)).normalize()
        }
    }

    /// An empty line put in before the cursor's line. The line index stays, so
    /// the cursor then stands on the new line.
    pub open spec fn newline_above(self) -> BufferView {
        self.with_lines(self.lines.insert(self.cursor_line, Seq::<char>::empty())).normalize()
    }

    /// An empty line put in behind the cursor's line. The cursor stays on its
    /// line.
    pub open spec fn newline_below(self) -> BufferView {
        self.with_lines(
            self.lines.insert(self.cursor_line + 1, Seq::<char>::empty()),
        ).normalize()
    }

    /// The content of the backing file that stands for these lines.
    pub open spec fn content(self) -> Seq<char> {
        join_lines(self.lines)
    }
}

/// The lines that a file's content is loaded as: its lines, or one empty line
/// where it has none.
pub open spec fn loaded_lines(content: Seq<char>) -> Seq<Seq<char>> {
    if content.len() == 0 {
        seq![Seq::<char>::empty()]
    } else {
        split_lines(content)
    }
}

/// The buffer that a file is loaded as: its lines, the cursor on the first
/// character of the first line.
pub open spec fn loaded(path: Seq<char>, content: Seq<char>) -> BufferView {
    BufferView {
        filename: Some(path),
        lines: loaded_lines(content),
        cursor_line: 0,
        cursor_char: 0,
        append: false,
    }
}

/// A buffer backed by no file: one empty line, the cursor at its start.
pub open spec fn unbacked() -> BufferView {
    BufferView {
        filename: None,
        lines: seq![Seq::<char>::empty()],
        cursor_line: 0,
        cursor_char: 0,
        append: false,
    }
}

/// Why a buffer could not be saved.
#[derive(Debug, Clone, Copy, PartialEq, Eq, Structural)]
pub enum SaveError {
    /// The buffer is backed by no file.
    NoBackingFile,
}

/// A file to be written: the whole of `content` is to replace what the file at
/// `path` holds.
#[derive(Debug, Clone)]
pub struct FileWrite {
    /// The path of the file.
    pub path: String,
    /// What the file is to hold.
    pub content: String,
}

/// The lines of a document and the cursor in them.
#[derive(Debug, Clone)]
pub struct Buffer {
    /// The resolved path of the backing file, if there is one.
    pub filename: Option<String>,
    /// The index of the character under the cursor, in its line.
    pub cursor_char: usize,
    /// The index of the line that holds the cursor.
    pub cursor_line: usize,
    /// The lines of the document, without their terminators.
    pub lines: Vec<String>,
    /// Whether the cursor may stand one past the last character of its line,
    /// as it does while text is appended to the line.
    pub append: bool,
}

impl View for Buffer {
    type V = BufferView;

    open spec fn view(&self) -> BufferView {
        BufferView {
            filename: match self.filename {
                Some(path) => Some(path@),
                None => None,
            },
            lines: views(self.lines@),
            cursor_line: self.cursor_line as int,
            cursor_char: self.cursor_char as int,
            append: self.append,
        }
    }
}

impl Default for Buffer {
    /// A buffer backed by no file, holding one empty line.
    fn default() -> (buf: Buffer)
        ensures
            buf@ == unbacked(),
            buf@.wf(),
    {
        let mut lines: Vec<String> = Vec::new();
        lines.push(String::new());
        let buf = Buffer { filename: None, cursor_char: 0, cursor_line: 0, lines, append: false };
        proof {
            assert(views(buf.lines@) =~= seq![Seq::<char>::empty()]);
        }
        buf
    }
}

impl Buffer {
    /// The buffer of a file, from the file's resolved path and its content:
    /// the content cut into lines, the cursor at the start of the first line.
    /// An empty file gives one empty line.
    pub fn from_file(path: &str, content: &str) -> (buf: Buffer)
        ensures
            buf@ == loaded(path@, content@),
            buf@.wf(),
    {
        let mut lines = split(content);
        if lines.len() == 0 {
            lines.push(String::new());
        }
        let buf = Buffer {
            filename: Some(String::from_str(path)),
            cursor_char: 0,
            cursor_line: 0,
            lines,
            append: false,
        };
        proof {
            if content@.len() == 0 {
                assert(views(buf.lines@) =~= seq![Seq::<char>::empty()]);
            } else {
                assert(split_lines(content@).len() > 0);
            }
        }
        buf
    }

    /// What saving to the file at `filename` writes: the lines joined by
    /// single line feeds, none after the last, in place of all that the file
    /// held.
    pub fn save_to_file(&self, filename: &str) -> (write: FileWrite)
        ensures
            write.path@ == filename@,
            write.content@ == self@.content(),
    {
        FileWrite { path: String::from_str(filename), content: join(&self.lines) }
    }

    /// What saving to the buffer's own file writes. A buffer backed by no file
    /// cannot be saved.
    pub fn save_to_own_file(&self) -> (res: Result<FileWrite, SaveError>)
        ensures
            self@.filename is None ==> res == Err::<FileWrite, SaveError>(SaveError::NoBackingFile),
            self@.filename is Some ==> res is Ok && res->Ok_0.path@ == self@.filename->Some_0
                && res->Ok_0.content@ == self@.content(),
    {
        match &self.filename {
            None => Err(SaveError::NoBackingFile),
            Some(path) => Ok(self.save_to_file(path.as_str())),
        }
    }

    /// The number of characters of the cursor's line.
    fn line_len(&self) -> (n: usize)
        requires
            self.cursor_line < self.lines.len(),
        ensures
            n == self@.line().len(),
    {
        self.lines[self.cursor_line].as_str().unicode_len()
    }

    /// Brings the line index into the document.
    fn clamp_line(&mut self)
        requires
            old(self)@.has_lines(),
        ensures
            final(self)@ == old(self)@.on_line(),
            final(self).cursor_line < final(self).lines.len(),
    {
        let line_count = self.lines.len();
        if self.cursor_line >= line_count {
            self.cursor_line = line_count - 1;
        }
    }

    /// The normalization pass. It brings the line index into the document and
    /// then the column into what that line allows: up to its last character,
    /// or one past it while `append` is set. It is where every motion and
    /// every edit ends, and it mends whatever cursor it finds.
    pub fn check_cursor(&mut self)
        requires
            old(self)@.has_lines(),
        ensures
            final(self)@ == old(self)@.normalize(),
            final(self)@.wf(),
            final(self)@.line().len() <= usize::MAX,
    {
        self.clamp_line();
        let line_len = self.line_len();
        let limit = if self.append {
            line_len
        } else if line_len == 0 {
            0
        } else {
            line_len - 1
        };
        if self.cursor_char > limit {
            self.cursor_char = limit;
        }
    }

    /// Whether the buffer is valid: it has a line, and the cursor stands on a
    /// line of the document and on a column that its line allows. A caller
    /// that has written the fields itself can ask before it edits.
    pub fn is_valid(&self) -> (valid: bool)
        ensures
            valid == self@.wf(),
    {
        if self.cursor_line >= self.lines.len() {
            return false;
        }
        let line_len = self.line_len();
        if self.append {
            self.cursor_char <= line_len
        } else {
            self.cursor_char <= line_len.saturating_sub(1)
        }
    }

    /// Whether the cursor's line holds no character.
    pub fn is_current_line_empty(&self) -> (empty: bool)
        requires
            self@.wf(),
        ensures
            empty == (self@.line().len() == 0),
    {
        self.lines[self.cursor_line].as_str().is_empty()
    }

    /// The character under the cursor. There is none in an empty line, nor
    /// where the cursor stands one past the end of its line.
    pub fn current_char(&self) -> (c: Option<char>)
        requires
            self@.wf(),
        ensures
            c == self@.current_char(),
    {
        let line = self.lines[self.cursor_line].as_str();
        if self.cursor_char < line.unicode_len() {
            Some(line.get_char(self.cursor_char))
        } else {
            None
        }
    }

    /// Moves the cursor one line down; on the last line it stays. Like every
    /// motion it takes any cursor and leaves a valid one.
    pub fn move_down(&mut self)
        requires
            old(self)@.has_lines(),
        ensures
            final(self)@ == old(self)@.move_down(),
            final(self)@.wf(),
    {
        proof {
            assert(self.lines@.len() == self.lines.len());
        }
        self.cursor_line = self.cursor_line.saturating_add(1);
        self.check_cursor();
    }

    /// Moves the cursor one line up; on the first line it stays.
    pub fn move_up(&mut self)
        requires
            old(self)@.has_lines(),
        ensures
            final(self)@ == old(self)@.move_up(),
            final(self)@.wf(),
    {
        self.cursor_line = self.cursor_line.saturating_sub(1);
        self.check_cursor();
    }

    /// Moves the cursor `count` columns to the right, as far as its line
    /// allows.
    pub fn move_right_by(&mut self, count: usize)
        requires
            old(self)@.has_lines(),
        ensures
            final(self)@ == old(self)@.move_right_by(count as int),
            final(self)@.wf(),
    {
        self.cursor_char = self.cursor_char.saturating_add(count);
        self.check_cursor();
    }

    /// Moves the cursor one column to the right, as far as its line allows.
    pub fn move_right(&mut self)
        requires
            old(self)@.has_lines(),
        ensures
            final(self)@ == old(self)@.move_right(),
            final(self)@.wf(),
    {
        self.move_right_by(1);
    }

    /// Moves the cursor to the first line.
    pub fn move_top(&mut self)
        requires
            old(self)@.has_lines(),
        ensures
            final(self)@ == old(self)@.move_top(),
            final(self)@.wf(),
    {
        self.cursor_line = 0;
        self.check_cursor();
    }

    /// Moves the cursor to the last line.
    pub fn move_bot(&mut self)
        requires
            old(self)@.has_lines(),
        ensures
            final(self)@ == old(self)@.move_bot(),
            final(self)@.wf(),
    {
        self.cursor_line = self.lines.len() - 1;
        self.check_cursor();
    }

    /// Moves the cursor one column to the left; on the first column it stays.
    pub fn move_left(&mut self)
        requires
            old(self)@.has_lines(),
        ensures
            final(self)@ == old(self)@.move_left(),
            final(self)@.wf(),
    {
        self.cursor_char = self.cursor_char.saturating_sub(1);
        self.check_cursor();
    }

    /// Moves the cursor to the first column of its line.
    pub fn move_start_line(&mut self)
        requires
            old(self)@.has_lines(),
        ensures
            final(self)@ == old(self)@.move_start_line(),
            final(self)@.wf(),
    {
        self.cursor_char = 0;
        self.check_cursor();
    }

    /// Moves the cursor to the last character of its line.
    pub fn move_end_line(&mut self)
        requires
            old(self)@.has_lines(),
        ensures
            final(self)@ == old(self)@.move_end_line(),
            final(self)@.wf(),
    {
        self.clamp_line();
        self.cursor_char = self.line_len().saturating_sub(1);
        self.check_cursor();
    }

    /// Puts an empty line in before the cursor's line. The line index is not
    /// adjusted, so the cursor then stands on the new line.
    pub fn newline_above(&mut self)
        requires
            old(self)@.wf(),
        ensures
            final(self)@ == old(self)@.newline_above(),
            final(self)@.wf(),
    {
        self.lines.insert(self.cursor_line, String::new());
        proof {
            assert(views(self.lines@) =~= old(self)@.lines.insert(
                old(self)@.cursor_line,
                Seq::<char>::empty(),
            ));
        }
        self.check_cursor();
    }

    /// Puts an empty line in behind the cursor's line. The cursor stays on its
    /// line: a caller that wants it on the new line moves it down.
    pub fn newline_below(&mut self)
        requires
            old(self)@.wf(),
        ensures
            final(self)@ == old(self)@.newline_below(),
            final(self)@.wf(),
    {
        proof {
            assert(self.cursor_line < self.lines.len());
        }
        self.lines.insert(self.cursor_line + 1, String::new());
        proof {
            assert(views(self.lines@) =~= old(self)@.lines.insert(
                old(self)@.cursor_line + 1,
                Seq::<char>::empty(),
            ));
        }
        self.check_cursor();
    }

    /// Splices `s` into the cursor's line at the cursor's column. The cursor
    /// does not move: a caller that wants it behind the new text moves it. A
    /// line feed in `s` is not treated as a line boundary.
    pub fn insert(&mut self, s: &str)
        requires
            old(self)@.wf(),
        ensures
            final(self)@ == old(self)@.insert(s@),
            final(self)@.cursor_line == old(self)@.cursor_line,
            final(self)@.cursor_char == old(self)@.cursor_char,
            final(self)@.wf(),
    {
        let line = self.lines[self.cursor_line].as_str();
        let len = line.unicode_len();
        let head = line.substring_char(0, self.cursor_char);
        let tail = line.substring_char(self.cursor_char, len);
        let mut spliced = String::from_str(head);
        spliced.append(s);
        spliced.append(tail);
        self.lines[self.cursor_line] = spliced;
        proof {
            assert(views(self.lines@) =~= old(self)@.lines.update(
                old(self)@.cursor_line,
                spliced@,
            ));
        }
        self.check_cursor();
    }

    /// Removes the cursor's line from the document. The only line of a
    /// document is emptied instead, so that the document keeps a line.
    pub fn delete_line(&mut self)
        requires
            old(self)@.wf(),
        ensures
            final(self)@ == old(self)@.delete_line(),
            final(self)@.wf(),
    {
        if self.lines.len() <= 1 {
            self.lines[0] = String::new();
            proof {
                assert(views(self.lines@) =~= seq![Seq::<char>::empty()]);
            }
        } else {
            self.lines.remove(self.cursor_line);
            proof {
                assert(views(self.lines@) =~= old(self)@.lines.remove(old(self)@.cursor_line));
            }
        }
        self.check_cursor();
    }

    /// Removes the character under the cursor from its line. Where the cursor
    /// stands on no character (an empty line, or one past the end of the
    /// line), it removes nothing.
    pub fn delete_char(&mut self)
        requires
            old(self)@.wf(),
        ensures
            final(self)@ == old(self)@.delete_char(),
            final(self)@.wf(),
    {
        let line = self.lines[self.cursor_line].as_str();
        let len = line.unicode_len();
        if self.cursor_char < len {
            let head = line.substring_char(0, self.cursor_char);
            let tail = line.substring_char(self.cursor_char + 1, len);
            let mut shorter = String::from_str(head);
            shorter.append(tail);
            self.lines[self.cursor_line] = shorter;
            proof {
                assert(shorter@ =~= old(self)@.line().remove(old(self)@.cursor_char));
                assert(views(self.lines@) =~= old(self)@.lines.update(
                    old(self)@.cursor_line,
                    shorter@,
                ));
            }
        }
        self.check_cursor();
    }
}

} // verus!
