//! One logical line of text, stored as a sequence of fragments.
//!
//! A fragment is one character together with the number of terminal columns
//! it occupies. Editing positions are fragment indices; display columns are
//! sums of fragment widths, so the two differ as soon as a line holds a
//! double-width glyph.

use crate::terminal::{DrawText, TerminalPos};
use std::ops::Range;
use vstd::prelude::*;
use vstd::utf8::encode_scalar;

verus! {

/// Whether `c` is drawn two columns wide: East Asian wide and fullwidth
/// forms, and the pictograph blocks.
pub open spec fn is_wide(c: char) -> bool {
    let u = c as u32;
    ||| 0x1100 <= u <= 0x115F
    ||| (0x2E80 <= u <= 0xA4CF && u != 0x303F)
    ||| 0xAC00 <= u <= 0xD7A3
    ||| 0xF900 <= u <= 0xFAFF
    ||| 0xFE30 <= u <= 0xFE6F
    ||| 0xFF00 <= u <= 0xFF60
    ||| 0xFFE0 <= u <= 0xFFE6
    ||| 0x1F300 <= u <= 0x1F64F
    ||| 0x1F900 <= u <= 0x1F9FF
    ||| 0x20000 <= u <= 0x2FFFD
    ||| 0x30000 <= u <= 0x3FFFD
}

/// The number of columns that `c` occupies: two for a wide character, one
/// for every other, so that each fragment has a place on the screen.
pub open spec fn char_width(c: char) -> nat {
    if is_wide(c) {
        2
    } else {
        1
    }
}

/// The number of columns that a run of characters occupies.
pub open spec fn text_width(s: Seq<char>) -> nat
    decreases s.len(),
{
    if s.len() == 0 {
        0
    } else {
        text_width(s.drop_last()) + char_width(s.last())
    }
}

/// A width as a `u64`: the width itself, or `u64::MAX` where it does not fit.
pub open spec fn saturated(n: nat) -> u64 {
    if n > u64::MAX {
        u64::MAX
    } else {
        n as u64
    }
}

/// The columns occupied by the fragments before `end`; an `end` past the
/// last fragment stands for the end of the line.
pub open spec fn display_width(s: Seq<char>, end: int) -> nat {
    if 0 <= end < s.len() {
        text_width(s.take(end))
    } else {
        text_width(s)
    }
}

/// The fragments of `s` whose first column lies in `start..end`, in order.
/// A fragment that begins inside the window is kept whole even if it reaches
/// past the right edge; one that begins before the window is left out.
pub open spec fn visible_text(s: Seq<char>, start: int, end: int) -> Seq<char>
    decreases s.len(),
{
    if s.len() == 0 {
        Seq::empty()
    } else {
        let before = visible_text(s.drop_last(), start, end);
        if start <= text_width(s.drop_last()) < end {
            before.push(s.last())
        } else {
            before
        }
    }
}

/// What stays in a line that is split at `idx`.
pub open spec fn kept_text(s: Seq<char>, idx: int) -> Seq<char> {
    if 0 <= idx < s.len() {
        s.take(idx)
    } else {
        s
    }
}

/// What leaves a line that is split at `idx`.
pub open spec fn detached_text(s: Seq<char>, idx: int) -> Seq<char> {
    if 0 <= idx < s.len() {
        s.skip(idx)
    } else {
        Seq::empty()
    }
}

/// A prefix of a line is never wider than the line.
pub proof fn lemma_prefix_width(s: Seq<char>, i: int)
    requires
        0 <= i <= s.len(),
    ensures
        text_width(s.take(i)) <= text_width(s),
    decreases s.len(),
{
    if i == s.len() {
        assert(s.take(i) =~= s);
    } else {
        lemma_prefix_width(s.drop_last(), i);
        assert(s.drop_last().take(i) =~= s.take(i));
    }
}

/// Once a prefix reaches the window's right edge, no later fragment is
/// visible.
pub proof fn lemma_visible_text_ends(s: Seq<char>, i: int, start: int, end: int)
    requires
        0 <= i <= s.len(),
        text_width(s.take(i)) >= end,
    ensures
        visible_text(s, start, end) == visible_text(s.take(i), start, end),
    decreases s.len(),
{
    if i == s.len() {
        assert(s.take(i) =~= s);
    } else {
        assert(s.drop_last().take(i) =~= s.take(i));
        lemma_prefix_width(s.drop_last(), i);
        lemma_visible_text_ends(s.drop_last(), i, start, end);
    }
}

/// Every fragment takes one or two columns.
pub proof fn lemma_text_width_bounds(s: Seq<char>)
    ensures
        s.len() <= text_width(s) <= 2 * s.len(),
    decreases s.len(),
{
    if s.len() > 0 {
        lemma_text_width_bounds(s.drop_last());
    }
}

/// A window that begins at column 0 and is as wide as the line shows the
/// whole line.
pub proof fn lemma_visible_text_whole(s: Seq<char>, end: int)
    requires
        text_width(s) <= end,
    ensures
        visible_text(s, 0, end) == s,
    decreases s.len(),
{
    if s.len() > 0 {
        lemma_visible_text_whole(s.drop_last(), end);
    }
}

/// What a window shows is at most one column wider than the window: only
/// the last fragment shown may reach past the right edge, and only by the
/// second column of a wide character.
pub proof fn lemma_visible_text_fits(s: Seq<char>, start: int, end: int)
    requires
        0 <= start <= end,
    ensures
        text_width(visible_text(s, start, end)) <= end - start + 1,
        text_width(visible_text(s, start, end)) <= end - start || text_width(s) > end,
{
    lemma_visible_text_reach(s, start, end);
}

/// The columns shown of a line reach no further than the line does, and no
/// further than one column past the window.
proof fn lemma_visible_text_reach(s: Seq<char>, start: int, end: int)
    requires
        0 <= start <= end,
    ensures
        text_width(visible_text(s, start, end)) <= if text_width(s) <= start {
            0
        } else if text_width(s) <= end + 1 {
            text_width(s) - start
        } else {
            end + 1 - start
        },
    decreases s.len(),
{
    if s.len() > 0 {
        let before = visible_text(s.drop_last(), start, end);
        lemma_visible_text_reach(s.drop_last(), start, end);
        if start <= text_width(s.drop_last()) < end {
            assert(before.push(s.last()).drop_last() =~= before);
        }
    }
}

/// Splitting a line and concatenating the two parts gives the line back.
pub proof fn lemma_split_then_concat(s: Seq<char>, idx: int)
    ensures
        kept_text(s, idx) + detached_text(s, idx) == s,
{
}

/// Computes [`is_wide`].
pub fn is_wide_char(c: char) -> (wide: bool)
    ensures
        wide == is_wide(c),
{
    let u: u32 = c as u32;
    (0x1100 <= u && u <= 0x115F)
        || (0x2E80 <= u && u <= 0xA4CF && u != 0x303F)
        || (0xAC00 <= u && u <= 0xD7A3)
        || (0xF900 <= u && u <= 0xFAFF)
        || (0xFE30 <= u && u <= 0xFE6F)
        || (0xFF00 <= u && u <= 0xFF60)
        || (0xFFE0 <= u && u <= 0xFFE6)
        || (0x1F300 <= u && u <= 0x1F64F)
        || (0x1F900 <= u && u <= 0x1F9FF)
        || (0x20000 <= u && u <= 0x2FFFD)
        || (0x30000 <= u && u <= 0x3FFFD)
}

/// Computes [`char_width`].
pub fn char_display_width(c: char) -> (w: u8)
    ensures
        w == char_width(c),
{
    if is_wide_char(c) {
        2
    } else {
        1
    }
}

/// The number of bytes that `c` takes in UTF-8 text.
pub open spec fn char_byte_len(c: char) -> nat {
    encode_scalar(c as u32).len()
}

/// One character of a line and the columns it occupies.
#[derive(Clone, Copy, Debug)]
pub struct TextFragment {
    character: char,
    rendered_width: u8,
}

impl TextFragment {
    #[verifier::type_invariant]
    spec fn width_matches_character(self) -> bool {
        self.rendered_width == char_width(self.character)
    }

    /// The character that the fragment holds.
    pub closed spec fn spec_character(self) -> char {
        self.character
    }

    /// The fragment for `c`.
    pub fn new(c: char) -> (f: TextFragment)
        ensures
            f.spec_character() == c,
    {
        TextFragment { character: c, rendered_width: char_display_width(c) }
    }

    /// The character that the fragment holds.
    pub fn character(&self) -> (c: char)
        ensures
            c == self.spec_character(),
    {
        self.character
    }

    /// The columns that the fragment occupies.
    pub fn width(&self) -> (w: u8)
        ensures
            w == char_width(self.spec_character()),
    {
        proof {
            use_type_invariant(self);
        }
        self.rendered_width
    }

    /// The bytes that the fragment takes in the line's UTF-8 text.
    pub fn byte_len(&self) -> (len: usize)
        ensures
            len == char_byte_len(self.spec_character()),
    {
        let u: u32 = self.character as u32;
        if u <= 0x7F {
            1
        } else if u <= 0x7FF {
            2
        } else if u <= 0xFFFF {
            3
        } else {
            4
        }
    }
}

/// What a successful insertion reports.
#[derive(Clone, Copy, Debug, PartialEq, Eq, Structural)]
pub struct InsertCharResult {
    /// Whether the line holds more fragments than before.
    pub line_len_increased: bool,
}

/// Why an insertion was refused.
#[derive(Clone, Copy, Debug, PartialEq, Eq, Structural)]
pub enum InsertCharError {
    /// The fragment index lies past the end of the line.
    InvalidPosition,
    /// The line index lies past the line that follows the last one.
    InvalidLine,
}

/// A line of text. Its view is the line's characters, one per fragment.
pub struct TextLine {
    fragments: Vec<TextFragment>,
}

impl View for TextLine {
    type V = Seq<char>;

    closed spec fn view(&self) -> Seq<char> {
        self.fragments@.map_values(|f: TextFragment| f.spec_character())
    }
}

/// The texts of a sequence of lines.
pub open spec fn texts_of(lines: Seq<TextLine>) -> Seq<Seq<char>> {
    lines.map_values(|line: TextLine| line@)
}

impl TextLine {
    /// The line whose text is `text`, one fragment per character.
    pub fn new(text: &str) -> (line: TextLine)
        ensures
            line@ == text@,
    {
        let mut fragments: Vec<TextFragment> = Vec::new();
        for c in it: text.chars()
            invariant
                fragments@.len() == it.index(),
                forall|j: int|
                    0 <= j < fragments@.len() ==> (#[trigger] fragments@[j]).spec_character()
                        == it.seq()[j],
        {
            fragments.push(TextFragment::new(c));
        }
        TextLine { fragments }
    }

    /// The line's text.
    pub fn to_string(&self) -> (text: String)
        ensures
            text@ == self@,
    {
        let mut text = String::new();
        let n: usize = self.fragments.len();
        let mut i: usize = 0;
        while i < n
            invariant
                n == self.fragments@.len(),
                i <= n,
                text@ == self@.take(i as int),
            decreases n - i,
        {
            text.push(self.fragments[i].character());
            i += 1;
        }
        text
    }

    /// The number of fragments, which is also the index of the end of the
    /// line.
    pub fn get_line_len(&self) -> (len: usize)
        ensures
            len == self@.len(),
    {
        self.fragments.len()
    }

    /// The columns occupied by the fragments before `end_x`.
    pub fn get_line_text_width(&self, end_x: usize) -> (width: u64)
        ensures
            width == saturated(display_width(self@, end_x as int)),
    {
        let len: usize = self.fragments.len();
        let n: usize = if end_x < len {
            end_x
        } else {
            len
        };
        let mut width: u64 = 0;
        let mut i: usize = 0;
        while i < n
            invariant
                n <= self.fragments@.len(),
                i <= n,
                width == saturated(text_width(self@.take(i as int))),
            decreases n - i,
        {
            let w: u64 = self.fragments[i].width() as u64;
            width = if width > u64::MAX - w {
                u64::MAX
            } else {
                width + w
            };
            i += 1;
            assert(self@.take(i as int).drop_last() =~= self@.take(i - 1));
        }
        assert(self@.take(len as int) =~= self@);
        width
    }

    /// Inserts `character` as a new fragment at `fragment_idx`. The end of
    /// the line is a valid position; anything past it is refused.
    pub fn insert_character(&mut self, fragment_idx: usize, character: char) -> (result: Result<
        InsertCharResult,
        InsertCharError,
    >)
        ensures
            fragment_idx <= old(self)@.len() ==> result == Ok::<InsertCharResult, InsertCharError>(
                InsertCharResult { line_len_increased: true },
            ) && final(self)@ == old(self)@.insert(fragment_idx as int, character),
            fragment_idx > old(self)@.len() ==> result == Err::<InsertCharResult, InsertCharError>(
                InsertCharError::InvalidPosition,
            ) && final(self)@ == old(self)@,
    {
        if fragment_idx > self.fragments.len() {
            return Err(InsertCharError::InvalidPosition);
        }
        self.fragments.insert(fragment_idx, TextFragment::new(character));
        Ok(InsertCharResult { line_len_increased: true })
    }

    /// Removes the fragment at `fragment_idx`; does nothing if there is none.
    pub fn remove_character(&mut self, fragment_idx: usize)
        ensures
            fragment_idx < old(self)@.len() ==> final(self)@ == old(self)@.remove(
                fragment_idx as int,
            ),
            fragment_idx >= old(self)@.len() ==> final(self)@ == old(self)@,
    {
        if fragment_idx < self.fragments.len() {
            self.fragments.remove(fragment_idx);
        }
    }

    /// Detaches the fragments from `fragment_idx` on into a new line and
    /// keeps those before it. An index past the end detaches nothing.
    pub fn split_off(&mut self, fragment_idx: usize) -> (rest: TextLine)
        ensures
            final(self)@ == kept_text(old(self)@, fragment_idx as int),
            rest@ == detached_text(old(self)@, fragment_idx as int),
            final(self)@ + rest@ == old(self)@,
    {
        if fragment_idx >= self.fragments.len() {
            TextLine { fragments: Vec::new() }
        } else {
            TextLine { fragments: self.fragments.split_off(fragment_idx) }
        }
    }

    /// Moves the fragments of `other` to the end of this line.
    pub fn append(&mut self, other: TextLine)
        ensures
            final(self)@ == old(self)@ + other@,
    {
        let mut tail = other;
        self.fragments.append(&mut tail.fragments);
    }

    /// The part of the line to paint at `screen_pos` when the window shows
    /// the columns `text_offset_x` of the text.
    pub fn render_line(&self, screen_pos: TerminalPos, text_offset_x: Range<u64>) -> (draw:
        DrawText)
        ensures
            draw.pos == screen_pos,
            draw.text@ == visible_text(self@, text_offset_x.start as int, text_offset_x.end as int),
    {
        let n: usize = self.fragments.len();
        let mut text = String::new();
        let mut column: u64 = 0;
        let mut i: usize = 0;
        while i < n && column < text_offset_x.end
            invariant
                n == self.fragments@.len(),
                i <= n,
                column == saturated(text_width(self@.take(i as int))),
                text@ == visible_text(
                    self@.take(i as int),
                    text_offset_x.start as int,
                    text_offset_x.end as int,
                ),
            decreases n - i,
        {
            let fragment = self.fragments[i];
            if text_offset_x.start <= column {
                text.push(fragment.character());
            }
            let w: u64 = fragment.width() as u64;
            column = if column > u64::MAX - w {
                u64::MAX
            } else {
                column + w
            };
            i += 1;
            assert(self@.take(i as int).drop_last() =~= self@.take(i - 1));
        }
        proof {
            if i < n {
                lemma_visible_text_ends(
                    self@,
                    i as int,
                    text_offset_x.start as int,
                    text_offset_x.end as int,
                );
            } else {
                assert(self@.take(i as int) =~= self@);
            }
        }
        DrawText { pos: screen_pos, text }
    }
}

} // verus!
