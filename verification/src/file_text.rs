//! The file format: plain text, one line of the document per line of the
//! file, each ended by a line feed.
//!
//! Reading is lenient: the last line may lack its line feed, and a carriage
//! return before a line feed is taken as part of the line ending. Writing
//! ends every line with a single line feed.

use crate::text_line::{texts_of, TextLine};
use vstd::prelude::*;
use vstd::string::StringExecFns;

verus! {

/// The index of the first line feed in `text`, or the length of `text` if
/// it holds none.
pub open spec fn first_line_feed(text: Seq<char>) -> int
    decreases text.len(),
{
    if text.len() == 0 || text[0] == '\n' {
        0
    } else {
        1 + first_line_feed(text.drop_first())
    }
}

/// A line without the carriage return that ends it, if one does.
pub open spec fn without_carriage_return(line: Seq<char>) -> Seq<char> {
    if line.len() > 0 && line.last() == '\r' {
        line.drop_last()
    } else {
        line
    }
}

/// The lines of a file's text. A line ends at a line feed; a carriage
/// return just before that line feed belongs to the line ending. Text after
/// the last line feed is a line of its own unless it is empty.
pub open spec fn split_lines(text: Seq<char>) -> Seq<Seq<char>>
    decreases text.len(),
{
    let end = first_line_feed(text);
    if text.len() == 0 {
        Seq::empty()
    } else if 0 <= end < text.len() {
        seq![without_carriage_return(text.take(end))] + split_lines(text.skip(end + 1))
    } else {
        seq![text]
    }
}

/// The text of a file that holds `lines`: each line followed by a line feed.
pub open spec fn file_text(lines: Seq<Seq<char>>) -> Seq<char>
    decreases lines.len(),
{
    if lines.len() == 0 {
        Seq::empty()
    } else {
        file_text(lines.drop_last()) + lines.last().push('\n')
    }
}

/// The first line feed lies inside the text or at its end.
pub proof fn lemma_first_line_feed_bounds(text: Seq<char>)
    ensures
        0 <= first_line_feed(text) <= text.len(),
        first_line_feed(text) < text.len() ==> text[first_line_feed(text)] == '\n',
        forall|i: int| 0 <= i < first_line_feed(text) ==> text[i] != '\n',
    decreases text.len(),
{
    if text.len() > 0 && text[0] != '\n' {
        lemma_first_line_feed_bounds(text.drop_first());
        assert forall|i: int| 0 <= i < first_line_feed(text) implies text[i] != '\n' by {
            if i > 0 {
                assert(text[i] == text.drop_first()[i - 1]);
            }
        }
    }
}

/// A stretch without line feeds, followed by anything, has its first line
/// feed where the first one of what follows is.
pub proof fn lemma_first_line_feed_after(head: Seq<char>, tail: Seq<char>)
    requires
        forall|i: int| 0 <= i < head.len() ==> head[i] != '\n',
    ensures
        first_line_feed(head + tail) == head.len() + first_line_feed(tail),
    decreases head.len(),
{
    if head.len() > 0 {
        assert((head + tail).drop_first() =~= head.drop_first() + tail);
        lemma_first_line_feed_after(head.drop_first(), tail);
    }
}

/// The text of a file that holds a first line and then more lines.
pub proof fn lemma_file_text_first_line(first: Seq<char>, rest: Seq<Seq<char>>)
    ensures
        file_text(seq![first] + rest) == first.push('\n') + file_text(rest),
    decreases rest.len(),
{
    let lines = seq![first] + rest;
    if rest.len() == 0 {
        assert(lines.drop_last() =~= rest);
    } else {
        assert(lines.drop_last() =~= seq![first] + rest.drop_last());
        lemma_file_text_first_line(first, rest.drop_last());
    }
}

/// Whether a line can be stored in a file as it is: it holds no line feed
/// and does not end in a carriage return.
pub open spec fn storable_line(line: Seq<char>) -> bool {
    &&& forall|i: int| 0 <= i < line.len() ==> line[i] != '\n'
    &&& !(line.len() > 0 && line.last() == '\r')
}

/// Reading back what was written gives the same lines, provided that each
/// line can be stored as it is.
pub proof fn lemma_split_lines_of_file_text(lines: Seq<Seq<char>>)
    requires
        forall|i: int| 0 <= i < lines.len() ==> storable_line(#[trigger] lines[i]),
    ensures
        split_lines(file_text(lines)) == lines,
    decreases lines.len(),
{
    if lines.len() > 0 {
        let first = lines[0];
        let rest = lines.drop_first();
        let tail = seq!['\n'] + file_text(rest);
        let text = file_text(lines);
        assert(lines =~= seq![first] + rest);
        lemma_file_text_first_line(first, rest);
        assert(text =~= first + tail);
        lemma_first_line_feed_after(first, tail);
        assert(text.take(first.len() as int) =~= first);
        assert(text.skip(first.len() as int + 1) =~= file_text(rest));
        assert forall|i: int| 0 <= i < rest.len() implies storable_line(#[trigger] rest[i]) by {
            assert(rest[i] == lines[i + 1]);
        }
        lemma_split_lines_of_file_text(rest);
    }
}

/// Writing what was read gives the same text, with a line feed added at the
/// end if the text lacked one, provided that the text holds no carriage
/// return.
pub proof fn lemma_file_text_of_split_lines(text: Seq<char>)
    requires
        forall|i: int| 0 <= i < text.len() ==> text[i] != '\r',
    ensures
        file_text(split_lines(text)) == if text.len() == 0 || text.last() == '\n' {
            text
        } else {
            text.push('\n')
        },
    decreases text.len(),
{
    if text.len() > 0 {
        let end = first_line_feed(text);
        lemma_first_line_feed_bounds(text);
        if end < text.len() {
            let first = text.take(end);
            let rest = text.skip(end + 1);
            lemma_file_text_of_split_lines(rest);
            lemma_file_text_first_line(first, split_lines(rest));
        } else {
            let lines = seq![text];
            assert(file_text(lines.drop_last()) =~= Seq::<char>::empty());
        }
    }
}

/// Splits the text of a file into the lines of a document.
pub fn read_lines(text: &str) -> (lines: Vec<TextLine>)
    ensures
        texts_of(lines@) == split_lines(text@),
{
    let mut lines: Vec<TextLine> = Vec::new();
    let mut current = TextLine::new("");
    let mut ends_with_carriage_return = false;
    proof {
        reveal_strlit("");
        assert(text@.skip(0) =~= text@);
    }
    for c in it: text.chars()
        invariant
            it.seq() == text@,
            forall|i: int| 0 <= i < current@.len() ==> current@[i] != '\n',
            ends_with_carriage_return == (current@.len() > 0 && current@.last() == '\r'),
            split_lines(text@) == texts_of(lines@) + split_lines(
                current@ + text@.skip(it.index() as int),
            ),
    {
        let ghost rest = text@.skip(it.index() + 1);
        let ghost before = current@;
        assert(text@.skip(it.index() as int) =~= seq![c] + rest);
        if c == '\n' {
            if ends_with_carriage_return {
                current.remove_character(current.get_line_len() - 1);
            }
            proof {
                let whole = before + text@.skip(it.index() as int);
                lemma_first_line_feed_after(before, seq![c] + rest);
                assert(whole.take(before.len() as int) =~= before);
                assert(whole.skip(before.len() as int + 1) =~= rest);
            }
            lines.push(current);
            current = TextLine::new("");
            ends_with_carriage_return = false;
            proof {
                reveal_strlit("");
            }
        } else {
            let _ = current.insert_character(current.get_line_len(), c);
            ends_with_carriage_return = c == '\r';
            assert(current@ + rest =~= before + text@.skip(it.index() as int));
        }
    }
    proof {
        lemma_first_line_feed_after(current@, Seq::empty());
    }
    if current.get_line_len() > 0 {
        lines.push(current);
    }
    lines
}

/// Joins the lines of a document into the text of a file.
pub fn write_lines(lines: &Vec<TextLine>) -> (text: String)
    ensures
        text@ == file_text(texts_of(lines@)),
{
    let mut text = String::new();
    let n: usize = lines.len();
    let mut i: usize = 0;
    while i < n
        invariant
            n == lines@.len(),
            i <= n,
            text@ == file_text(texts_of(lines@).take(i as int)),
        decreases n - i,
    {
        let line = lines[i].to_string();
        text.append(line.as_str());
        text.push('\n');
        i += 1;
        proof {
            let done = texts_of(lines@).take(i as int);
            assert(done.drop_last() =~= texts_of(lines@).take(i - 1));
        }
    }
    assert(texts_of(lines@).take(n as int) =~= texts_of(lines@));
    text
}

} // verus!
