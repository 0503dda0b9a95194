//! Text as lines: cutting a file's content into lines and joining lines back
//! into content.
//!
//! A line ends at a line feed, or at a carriage return directly followed by a
//! line feed. The terminator belongs to no line, and a terminator at the very
//! end of the text starts no further line.

use vstd::prelude::*;
use vstd::std_specs::iter::IteratorSpec;
use vstd::string::*;

verus! {

/// The character sequences of a vector of strings, in order.
pub open spec fn views(lines: Seq<String>) -> Seq<Seq<char>> {
    Seq::new(lines.len(), |i: int| lines[i]@)
}

/// The number of characters before the first line feed of `s`, or the length
/// of `s` where it holds none.
pub open spec fn line_end(s: Seq<char>) -> nat
    decreases s.len(),
{
    if s.len() == 0 || s[0] == '\n' {
        0
    } else {
        1 + line_end(s.drop_first())
    }
}

/// `s` without one trailing carriage return, if it has one.
pub open spec fn without_cr(s: Seq<char>) -> Seq<char> {
    if s.len() > 0 && s.last() == '\r' {
        s.drop_last()
    } else {
        s
    }
}

/// The lines of a text.
///
/// The empty text has no line. Otherwise the first line runs up to the first
/// line feed, without a carriage return that stands directly before it, and
/// the other lines are those of the text behind that line feed. A text
/// without a line feed is one line, kept as it is.
pub open spec fn split_lines(s: Seq<char>) -> Seq<Seq<char>>
    decreases s.len(),
{
    if s.len() == 0 {
        Seq::empty()
    } else {
        let k = line_end(s) as int;
        if k >= s.len() {
            seq![s]
        } else {
            seq![without_cr(s.subrange(0, k))] + split_lines(s.subrange(k + 1, s.len() as int))
        }
    }
}

/// The lines joined by single line feeds, with none after the last line.
pub open spec fn join_lines(lines: Seq<Seq<char>>) -> Seq<char>
    decreases lines.len(),
{
    if lines.len() == 0 {
        Seq::empty()
    } else if lines.len() == 1 {
        lines[0]
    } else {
        join_lines(lines.drop_last()) + seq!['\n'] + lines.last()
    }
}

/// `line_end` is bounded by the length, and no line feed stands before it.
pub proof fn lemma_line_end_bounds(s: Seq<char>)
    ensures
        line_end(s) <= s.len(),
        forall|j: int| 0 <= j < line_end(s) ==> s[j] != '\n',
        line_end(s) < s.len() ==> s[line_end(s) as int] == '\n',
    decreases s.len(),
{
    if s.len() == 0 || s[0] == '\n' {
    } else {
        let t = s.drop_first();
        lemma_line_end_bounds(t);
        assert forall|j: int| 0 <= j < line_end(s) implies s[j] != '\n' by {
            if j > 0 {
                assert(s[j] == t[j - 1]);
            }
        }
        if line_end(s) < s.len() {
            assert(s[line_end(s) as int] == t[line_end(t) as int]);
        }
    }
}

/// `line_end` is the first position that holds a line feed or ends the text.
pub proof fn lemma_line_end_is(s: Seq<char>, k: int)
    requires
        0 <= k <= s.len(),
        forall|j: int| 0 <= j < k ==> s[j] != '\n',
        k < s.len() ==> s[k] == '\n',
    ensures
        line_end(s) == k,
    decreases s.len(),
{
    if s.len() == 0 || s[0] == '\n' {
        if k > 0 {
            assert(s[0] != '\n');
        }
    } else {
        let t = s.drop_first();
        assert(k > 0);
        assert forall|j: int| 0 <= j < k - 1 implies t[j] != '\n' by {
            assert(t[j] == s[j + 1]);
        }
        if k < s.len() {
            assert(t[k - 1] == s[k]);
        }
        lemma_line_end_is(t, k - 1);
    }
}

/// Cuts a text into its lines.
pub fn split(text: &str) -> (lines: Vec<String>)
    ensures
        views(lines@) == split_lines(text@),
{
    let n = text.unicode_len();
    let mut lines: Vec<String> = Vec::new();
    let mut it = text.chars();
    let mut start: usize = 0;
    let mut i: usize = 0;
    let mut after_cr = false;
    proof {
        assert(text@.subrange(0, n as int) =~= text@);
        assert(views(lines@) =~= Seq::<Seq<char>>::empty());
        assert(views(lines@) + split_lines(text@) =~= split_lines(text@));
    }
    loop
        invariant
            n == text@.len(),
            start <= i <= n,
            it.obeys_prophetic_iter_laws(),
            it.remaining() == text@.subrange(i as int, n as int),
            forall|j: int| start <= j < i ==> text@[j] != '\n',
            after_cr == (start < i && text@[i - 1] == '\r'),
            split_lines(text@) == views(lines@) + split_lines(text@.subrange(start as int, n as int)),
        ensures
            i == n,
        decreases n - i,
    {
        let ghost before = it.remaining();
        match it.next() {
            None => {
                assert(before.len() == 0);
                break ;
            },
            Some(c) => {
                proof {
                    assert(before.len() > 0);
                    assert(c == before[0]);
                    assert(c == text@[i as int]);
                    assert(before.drop_first() =~= text@.subrange(i + 1, n as int));
                }
                if c == '\n' {
                    let end = if after_cr {
                        i - 1
                    } else {
                        i
                    };
                    let piece = text.substring_char(start, end);
                    let ghost shown = views(lines@);
                    let ghost rest = text@.subrange(start as int, n as int);
                    lines.push(String::from_str(piece));
                    proof {
                        let k = i - start;
                        lemma_line_end_is(rest, k);
                        assert(rest.subrange(0, k) =~= text@.subrange(start as int, i as int));
                        assert(rest.subrange(k + 1, rest.len() as int) =~= text@.subrange(
                            i + 1,
                            n as int,
                        ));
                        assert(without_cr(text@.subrange(start as int, i as int)) =~= piece@);
                        assert(views(lines@) =~= shown + seq![piece@]);
                        assert(shown + (seq![piece@] + split_lines(
                            text@.subrange(i + 1, n as int),
                        )) =~= shown + seq![piece@] + split_lines(text@.subrange(i + 1, n as int)));
                    }
                    start = i + 1;
                    after_cr = false;
                } else {
                    after_cr = c == '\r';
                }
                i = i + 1;
            },
        }
    }
    if start < n {
        let piece = text.substring_char(start, n);
        let ghost shown = views(lines@);
        lines.push(String::from_str(piece));
        proof {
            lemma_line_end_is(piece@, n - start);
            assert(views(lines@) =~= shown + seq![piece@]);
        }
    } else {
        proof {
            assert(views(lines@) + Seq::<Seq<char>>::empty() =~= views(lines@));
        }
    }
    lines
}

/// Joins lines into one text, a single line feed between two neighbours.
pub fn join(lines: &Vec<String>) -> (text: String)
    ensures
        text@ == join_lines(views(lines@)),
{
    let mut text = String::new();
    let mut i: usize = 0;
    while i < lines.len()
        invariant
            i <= lines.len(),
            text@ == join_lines(views(lines@).subrange(0, i as int)),
        decreases lines.len() - i,
    {
        let ghost done = views(lines@).subrange(0, i as int);
        let ghost next = views(lines@).subrange(0, i + 1);
        if i > 0 {
            text.append("\n");
        }
        text.append(lines[i].as_str());
        proof {
            reveal_strlit("\n");
            assert("\n"@ =~= seq!['\n']);
            assert(next.drop_last() =~= done);
            assert(next.last() == lines[i as int]@);
            if i == 0 {
                assert(Seq::<char>::empty() + lines[i as int]@ =~= lines[i as int]@);
            }
        }
        i = i + 1;
    }
    proof {
        assert(views(lines@).subrange(0, i as int) =~= views(lines@));
    }
    text
}

} // verus!
