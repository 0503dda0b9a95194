//! What holds of the buffer and the editor whatever the input: the cursor
//! never leaves the document, motions stop at its borders, a document never
//! loses its last line, and Insert mode takes text literally.

use crate::buffer::{loaded_lines, BufferView};
use crate::command::{command_of, Command};
use crate::editor::EditorView;
use crate::event::{EventView, Key};
use crate::mode::Mode;
use crate::text::{join_lines, line_end, lemma_line_end_bounds, split_lines, without_cr};
use vstd::prelude::*;

verus! {

/// The normalization pass leaves a valid cursor, whatever cursor it finds:
/// the line index lies in the document, and the column on a character of its
/// line (column 0 in an empty line) unless the cursor may stand past the end.
pub proof fn lemma_normalize_valid(b: BufferView)
    requires
        b.has_lines(),
    ensures
        b.normalize().wf(),
        b.normalize().lines == b.lines,
        0 <= b.normalize().cursor_line < b.lines.len(),
        !b.append ==> 0 <= b.normalize().cursor_char < (if b.normalize().line().len() == 0 {
            1
        } else {
            b.normalize().line().len() as int
        }),
        b.append ==> 0 <= b.normalize().cursor_char <= b.normalize().line().len(),
{
}

/// The normalization pass changes nothing in a valid buffer.
pub proof fn lemma_normalize_keeps_valid(b: BufferView)
    requires
        b.wf(),
    ensures
        b.normalize() == b,
{
}

/// Every motion leaves a valid cursor, whatever cursor it finds, and leaves
/// the lines as they are.
pub proof fn lemma_motions_valid(b: BufferView, count: int)
    requires
        b.has_lines(),
    ensures
        b.move_up().wf() && b.move_up().lines == b.lines,
        b.move_down().wf() && b.move_down().lines == b.lines,
        b.move_left().wf() && b.move_left().lines == b.lines,
        b.move_right().wf() && b.move_right().lines == b.lines,
        b.move_right_by(count).wf() && b.move_right_by(count).lines == b.lines,
        b.move_top().wf() && b.move_top().lines == b.lines,
        b.move_bot().wf() && b.move_bot().lines == b.lines,
        b.move_start_line().wf() && b.move_start_line().lines == b.lines,
        b.move_end_line().wf() && b.move_end_line().lines == b.lines,
{
}

/// Every edit of a valid buffer leaves a valid buffer.
pub proof fn lemma_edits_valid(b: BufferView, s: Seq<char>)
    requires
        b.wf(),
    ensures
        b.insert(s).wf(),
        b.delete_char().wf(),
        b.delete_line().wf(),
        b.newline_above().wf(),
        b.newline_below().wf(),
{
}

/// Motions stop at the borders: up on the first line and down on the last
/// line keep the line index, and right on the last character of a line keeps
/// the column unless the cursor may stand past the end.
pub proof fn lemma_motions_clamp(b: BufferView)
    requires
        b.wf(),
    ensures
        b.cursor_line == 0 ==> b.move_up().cursor_line == 0,
        b.cursor_line == b.lines.len() - 1 ==> b.move_down().cursor_line == b.cursor_line,
        !b.append && b.cursor_char == b.line().len() - 1 ==> b.move_right() == b,
        !b.append ==> b.move_right().cursor_char <= if b.line().len() == 0 {
            0
        } else {
            b.line().len() - 1
        },
        b.cursor_char == 0 ==> b.move_left() == b,
{
}

/// Inside the document a motion moves by exactly one step.
pub proof fn lemma_motions_step(b: BufferView)
    requires
        b.wf(),
    ensures
        b.cursor_line > 0 ==> b.move_up().cursor_line == b.cursor_line - 1,
        b.cursor_line < b.lines.len() - 1 ==> b.move_down().cursor_line == b.cursor_line + 1,
        b.cursor_char > 0 ==> b.move_left() == b.with_char(b.cursor_char - 1),
        b.cursor_char < b.char_limit() ==> b.move_right() == b.with_char(b.cursor_char + 1),
{
}

/// Deleting a line never leaves a document without a line: the only line of
/// a document is emptied, and of several lines one is removed.
pub proof fn lemma_delete_line_keeps_a_line(b: BufferView)
    requires
        b.wf(),
    ensures
        b.delete_line().wf(),
        b.delete_line().lines.len() >= 1,
        b.lines.len() == 1 ==> b.delete_line().lines == seq![Seq::<char>::empty()],
        b.lines.len() > 1 ==> b.delete_line().lines == b.lines.remove(b.cursor_line),
{
}

/// The buffer after `count` deletions of a line.
pub open spec fn delete_lines(b: BufferView, count: nat) -> BufferView
    decreases count,
{
    if count == 0 {
        b
    } else {
        delete_lines(b, (count - 1) as nat).delete_line()
    }
}

/// However often a line is deleted, the document is valid and keeps a line.
pub proof fn lemma_delete_lines_keeps_a_line(b: BufferView, count: nat)
    requires
        b.wf(),
    ensures
        delete_lines(b, count).wf(),
        delete_lines(b, count).lines.len() >= 1,
    decreases count,
{
    if count > 0 {
        lemma_delete_lines_keeps_a_line(b, (count - 1) as nat);
        lemma_delete_line_keeps_a_line(delete_lines(b, (count - 1) as nat));
    }
}

/// Every command of Normal mode leaves a valid editor.
pub proof fn lemma_run_valid(e: EditorView, cmd: Command)
    requires
        e.wf(),
    ensures
        e.run(cmd).wf(),
{
    lemma_motions_valid(e.buf, 1);
    lemma_edits_valid(e.buf, Seq::empty());
    match cmd {
        Command::Append => {
            lemma_motions_valid(e.buf.with_append(e.buf.append || e.at_line_end()), 1);
        },
        Command::AppendAtLineEnd => {
            lemma_motions_valid(e.buf.with_append(true), 1);
            lemma_motions_valid(e.buf.with_append(true).move_end_line(), 1);
        },
        Command::OpenBelow => {
            lemma_motions_valid(e.buf.newline_below(), 1);
        },
        _ => {},
    }
}

/// Every event leaves a valid editor: after it the cursor lies in the
/// document, and in Normal mode on a character of its line.
pub proof fn lemma_step_valid(e: EditorView, event: EventView)
    requires
        e.wf(),
    ensures
        e.step(event).wf(),
{
    match e.mode {
        Mode::Normal => {
            if let EventView::TextInput(text) = event {
                if let Some(cmd) = command_of(text) {
                    lemma_run_valid(e, cmd);
                }
            }
        },
        Mode::Insert => {
            if let EventView::TextInput(text) = event {
                lemma_edits_valid(e.buf, text);
                lemma_motions_valid(e.buf.insert(text), text.len() as int);
            } else {
                lemma_motions_valid(e.buf.with_append(false), 1);
            }
        },
    }
}

/// Every sequence of events leaves a valid editor.
pub proof fn lemma_step_all_valid(e: EditorView, events: Seq<EventView>)
    requires
        e.wf(),
    ensures
        e.step_all(events).wf(),
    decreases events.len(),
{
    if events.len() > 0 {
        lemma_step_all_valid(e, events.drop_last());
        lemma_step_valid(e.step_all(events.drop_last()), events.last());
    }
}

/// Insert mode takes entered text literally, whatever it holds: the text is
/// spliced into the cursor's line at the cursor, no other line changes, no
/// line comes or goes, the cursor stays on its line and the mode stays Insert.
/// No character is read as a command.
pub proof fn lemma_insert_mode_is_literal(e: EditorView, text: Seq<char>)
    requires
        e.wf(),
        e.mode == Mode::Insert,
    ensures
        e.step(EventView::TextInput(text)).mode == Mode::Insert,
        e.step(EventView::TextInput(text)).buf.cursor_line == e.buf.cursor_line,
        e.step(EventView::TextInput(text)).buf.lines == e.buf.lines.update(
            e.buf.cursor_line,
            e.buf.line().subrange(0, e.buf.cursor_char) + text + e.buf.line().subrange(
                e.buf.cursor_char,
                e.buf.line().len() as int,
            ),
        ),
        e.step(EventView::TextInput(text)).buf.cursor_char == if e.buf.cursor_char + text.len()
            <= e.step(EventView::TextInput(text)).buf.char_limit() {
            e.buf.cursor_char + text.len()
        } else {
            e.step(EventView::TextInput(text)).buf.char_limit()
        },
{
}

/// Inserting text before the cursor and leaving Insert mode: the text stands
/// in the line where the cursor stood, and the cursor stands on the last
/// character of the text. With no text entered the cursor has moved one
/// column to the left, as far as the line goes.
pub proof fn lemma_insert_then_escape(e: EditorView, text: Seq<char>)
    requires
        e.wf(),
        e.mode == Mode::Normal,
    ensures
        ({
            let after = e.run(Command::Insert).step(EventView::TextInput(text)).step(
                EventView::KeyDown(Key::Escape),
            );
            &&& after.mode == Mode::Normal
            &&& !after.buf.append
            &&& after.buf.lines == e.buf.lines.update(
                e.buf.cursor_line,
                e.buf.line().subrange(0, e.buf.cursor_char) + text + e.buf.line().subrange(
                    e.buf.cursor_char,
                    e.buf.line().len() as int,
                ),
            )
            &&& after.buf.cursor_line == e.buf.cursor_line
            &&& after.buf.cursor_char == if e.buf.cursor_char + text.len() >= 1 {
                e.buf.cursor_char + text.len() - 1
            } else {
                0
            }
        }),
{
}

/// Appending text to a line and leaving Insert mode: the text stands behind
/// what the line held, and the cursor stands on the last character of the
/// line, not past it.
pub proof fn lemma_append_then_escape(e: EditorView, text: Seq<char>)
    requires
        e.wf(),
        e.mode == Mode::Normal,
    ensures
        ({
            let after = e.run(Command::AppendAtLineEnd).step(EventView::TextInput(text)).step(
                EventView::KeyDown(Key::Escape),
            );
            &&& after.mode == Mode::Normal
            &&& !after.buf.append
            &&& after.buf.lines == e.buf.lines.update(e.buf.cursor_line, e.buf.line() + text)
            &&& after.buf.cursor_line == e.buf.cursor_line
            &&& after.buf.cursor_char == if e.buf.line().len() + text.len() >= 1 {
                e.buf.line().len() + text.len() - 1
            } else {
                0
            }
        }),
{
    let line = e.buf.line();
    let len = line.len() as int;
    assert(line.subrange(0, len) + text + line.subrange(len, len) =~= line + text);
}

/// Normal mode ignores entered text that names no command, and both modes
/// ignore a request to quit.
pub proof fn lemma_ignored_events(e: EditorView, text: Seq<char>)
    requires
        e.wf(),
    ensures
        e.step(EventView::Quit) == e,
        e.mode == Mode::Normal && command_of(text) is None ==> e.step(EventView::TextInput(text))
            == e,
        e.mode == Mode::Normal ==> e.step(EventView::KeyDown(Key::Escape)) == e,
        e.step(EventView::KeyDown(Key::Other)) == e,
{
}

/// Joining a first line to further lines puts one line feed between them.
pub proof fn lemma_join_first(first: Seq<char>, rest: Seq<Seq<char>>)
    requires
        rest.len() > 0,
    ensures
        join_lines(seq![first] + rest) == first + seq!['\n'] + join_lines(rest),
    decreases rest.len(),
{
    let all = seq![first] + rest;
    assert(all.last() == rest.last());
    if rest.len() == 1 {
        assert(all.drop_last() =~= seq![first]);
        assert(join_lines(all.drop_last()) == first);
        assert(rest[0] == rest.last());
    } else {
        assert(all.drop_last() =~= seq![first] + rest.drop_last());
        lemma_join_first(first, rest.drop_last());
        assert(first + seq!['\n'] + join_lines(rest.drop_last()) + seq!['\n'] + rest.last()
            =~= first + seq!['\n'] + (join_lines(rest.drop_last()) + seq!['\n'] + rest.last()));
    }
}

/// Whether a text comes back unchanged when it is cut into lines and joined
/// again: no carriage return stands before a line feed, and no line feed ends
/// the text.
pub open spec fn is_plain(text: Seq<char>) -> bool {
    &&& forall|i: int| 0 < i < text.len() && #[trigger] text[i] == '\n' ==> text[i - 1] != '\r'
    &&& text.len() > 0 ==> text.last() != '\n'
}

/// Loading and saving without an edit in between gives the file back: the
/// lines that a plain text is loaded as, joined, are that text.
pub proof fn lemma_load_then_save(text: Seq<char>)
    requires
        is_plain(text),
    ensures
        join_lines(loaded_lines(text)) == text,
    decreases text.len(),
{
    if text.len() > 0 {
        lemma_line_end_bounds(text);
        let k = line_end(text) as int;
        if k < text.len() {
            let head = text.subrange(0, k);
            let rest = text.subrange(k + 1, text.len() as int);
            assert(rest.len() > 0);
            assert(rest.last() == text.last());
            assert forall|i: int| 0 < i < rest.len() && #[trigger] rest[i] == '\n' implies rest[i - 1]
                != '\r' by {
                assert(rest[i] == text[i + k + 1]);
                assert(rest[i - 1] == text[i + k]);
            }
            lemma_load_then_save(rest);
            if k > 0 {
                assert(head.last() == text[k - 1]);
            }
            assert(without_cr(head) == head);
            assert(split_lines(rest).len() > 0);
            lemma_join_first(head, split_lines(rest));
            assert(head + seq!['\n'] + rest =~= text);
        }
    }
}

} // verus!
