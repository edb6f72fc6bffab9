//! The document as a mathematical value: a sequence of lines, each a
//! sequence of characters, and what each edit makes of it.
//!
//! The buffer's operations are specified by the functions here, and the laws
//! that relate the edits to each other are proved about them.

use crate::text_line::{
    detached_text,
    kept_text,
    lemma_split_then_concat,
    InsertCharError,
    InsertCharResult,
};
use vstd::prelude::*;

verus! {

/// Whether inserting at `(line_idx, fragment_idx)` succeeds, and if not, why.
pub open spec fn insertion_outcome(
    lines: Seq<Seq<char>>,
    line_idx: int,
    fragment_idx: int,
) -> Result<InsertCharResult, InsertCharError> {
    if line_idx == lines.len() {
        Ok(InsertCharResult { line_len_increased: true })
    } else if 0 <= line_idx < lines.len() {
        if 0 <= fragment_idx <= lines[line_idx].len() {
            Ok(InsertCharResult { line_len_increased: true })
        } else {
            Err(InsertCharError::InvalidPosition)
        }
    } else {
        Err(InsertCharError::InvalidLine)
    }
}

/// The document after `character` is inserted at `(line_idx, fragment_idx)`:
/// a new last line that holds only the character when `line_idx` follows the
/// last line, the character inside the line when the position is in it, and
/// the same document when the position is refused.
pub open spec fn lines_after_insert(
    lines: Seq<Seq<char>>,
    line_idx: int,
    fragment_idx: int,
    character: char,
) -> Seq<Seq<char>> {
    if line_idx == lines.len() {
        lines.push(seq![character])
    } else if 0 <= line_idx < lines.len() && 0 <= fragment_idx <= lines[line_idx].len() {
        lines.update(line_idx, lines[line_idx].insert(fragment_idx, character))
    } else {
        lines
    }
}

/// The document after the fragment at `(line_idx, fragment_idx)` is removed;
/// the same document when there is no such fragment.
pub open spec fn lines_after_remove(
    lines: Seq<Seq<char>>,
    line_idx: int,
    fragment_idx: int,
) -> Seq<Seq<char>> {
    if 0 <= line_idx < lines.len() && 0 <= fragment_idx < lines[line_idx].len() {
        lines.update(line_idx, lines[line_idx].remove(fragment_idx))
    } else {
        lines
    }
}

/// Whether both the line at `line_idx` and the one below it exist.
pub open spec fn has_line_below(lines: Seq<Seq<char>>, line_idx: int) -> bool {
    0 <= line_idx && line_idx + 1 < lines.len()
}

/// The document after the line at `line_idx` absorbs the line below it; the
/// same document when either line is missing.
pub open spec fn lines_after_join(lines: Seq<Seq<char>>, line_idx: int) -> Seq<Seq<char>> {
    if has_line_below(lines, line_idx) {
        lines.update(line_idx, lines[line_idx] + lines[line_idx + 1]).remove(line_idx + 1)
    } else {
        lines
    }
}

/// The document after a line break is put at `(line_idx, fragment_idx)`:
/// the line is split in two in place, or, when `line_idx` follows the last
/// line, an empty line is added at the end.
pub open spec fn lines_after_newline(
    lines: Seq<Seq<char>>,
    line_idx: int,
    fragment_idx: int,
) -> Seq<Seq<char>> {
    if 0 <= line_idx < lines.len() {
        lines.update(line_idx, kept_text(lines[line_idx], fragment_idx)).insert(
            line_idx + 1,
            detached_text(lines[line_idx], fragment_idx),
        )
    } else {
        lines.push(Seq::empty())
    }
}

/// Removing the character that was just inserted into a line restores the
/// document.
pub proof fn lemma_insert_then_remove_in_line(
    lines: Seq<Seq<char>>,
    line_idx: int,
    fragment_idx: int,
    character: char,
)
    requires
        0 <= line_idx < lines.len(),
        0 <= fragment_idx <= lines[line_idx].len(),
    ensures
        lines_after_remove(
            lines_after_insert(lines, line_idx, fragment_idx, character),
            line_idx,
            fragment_idx,
        ) == lines,
{
    let line = lines[line_idx];
    assert(line.insert(fragment_idx, character).remove(fragment_idx) =~= line);
}

/// Removing the character that was just typed on the line after the last
/// one leaves every earlier line as it was and an empty line in that place.
pub proof fn lemma_insert_then_remove_past_end(lines: Seq<Seq<char>>, character: char)
    ensures
        lines_after_remove(
            lines_after_insert(lines, lines.len() as int, 0, character),
            lines.len() as int,
            0,
        ) == lines.push(Seq::empty()),
{
    let line = seq![character];
    assert(line.remove(0) =~= Seq::<char>::empty());
}

/// Joining a line with the one below it undoes a line break put into that
/// line, wherever in the line the break was put.
pub proof fn lemma_newline_then_join(lines: Seq<Seq<char>>, line_idx: int, fragment_idx: int)
    requires
        0 <= line_idx < lines.len(),
    ensures
        lines_after_join(lines_after_newline(lines, line_idx, fragment_idx), line_idx) == lines,
{
    let line = lines[line_idx];
    lemma_split_then_concat(line, fragment_idx);
}

} // verus!
