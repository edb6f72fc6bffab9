//! The document: an ordered sequence of lines, the file it belongs to, and
//! whether it has changed since it was last written.
//!
//! Every position is a pair of a line index and a fragment index. The line
//! that follows the last one, and the end of each line, are valid positions
//! to insert at, because that is where a cursor rests while text is typed.
//!
//! The buffer touches no file. Loading starts from the file's text, and
//! saving is split in two: [`Buffer::write_request`] says what to write,
//! [`Buffer::write_finished`] takes in how the writing went.

use crate::document::{
    has_line_below,
    insertion_outcome,
    lines_after_insert,
    lines_after_join,
    lines_after_newline,
    lines_after_remove,
};
use crate::file_text::{file_text, read_lines, split_lines, write_lines};
use crate::terminal::{DrawText, TerminalPos};
use crate::text_line::{
    display_width,
    saturated,
    texts_of,
    visible_text,
    InsertCharError,
    InsertCharResult,
    TextLine,
};
use std::ops::Range;
use vstd::prelude::*;

verus! {

/// What a buffer holds, as mathematical values.
pub struct BufferView {
    /// The text of each line, in document order.
    pub lines: Seq<Seq<char>>,
    /// The name of the backing file, if the buffer has one.
    pub filename: Option<Seq<char>>,
    /// Whether the lines differ from what was last written.
    pub is_dirty: bool,
}

/// The text painted on a screen row that lies below the last line.
pub open spec fn placeholder_text() -> Seq<char> {
    seq!['~']
}

/// What a save asks the file system to do.
#[derive(Debug)]
pub struct WriteRequest {
    /// The file to create or replace.
    pub filename: String,
    /// The file's whole text.
    pub contents: String,
}

/// Why a save failed.
#[derive(Debug, PartialEq, Eq)]
pub enum WriteError {
    /// The buffer has no backing file.
    NoFilename,
    /// The file system refused; the text says why.
    Io(String),
}

/// The document: lines, file name and dirty flag.
pub struct Buffer {
    content: Vec<TextLine>,
    filename: Option<String>,
    is_dirty: bool,
}

impl View for Buffer {
    type V = BufferView;

    closed spec fn view(&self) -> BufferView {
        BufferView {
            lines: texts_of(self.content@),
            filename: match self.filename {
                Some(name) => Some(name@),
                None => None,
            },
            is_dirty: self.is_dirty,
        }
    }
}

impl Buffer {
    /// An empty, untitled, unchanged buffer.
    pub fn new() -> (buffer: Buffer)
        ensures
            buffer@ == (BufferView { lines: Seq::empty(), filename: None, is_dirty: false }),
    {
        let buffer = Buffer { content: Vec::new(), filename: None, is_dirty: false };
        assert(buffer@.lines =~= Seq::empty());
        buffer
    }

    /// Whether the buffer has no backing file.
    pub fn is_untitled_file(&self) -> (untitled: bool)
        ensures
            untitled == (self@.filename is None),
    {
        self.filename.is_none()
    }

    /// Names the backing file.
    pub fn change_filename(&mut self, filename: &str)
        ensures
            final(self)@ == (BufferView { filename: Some(filename@), ..old(self)@ }),
    {
        self.filename = Some(filename.to_owned());
    }

    /// The name of the backing file, if any.
    pub fn get_filename(&self) -> (filename: Option<String>)
        ensures
            filename is Some == self@.filename is Some,
            filename matches Some(name) ==> self@.filename == Some(name@),
    {
        match &self.filename {
            Some(name) => Some(name.clone()),
            None => None,
        }
    }

    /// Whether the lines differ from what was last written.
    pub fn get_is_dirty(&self) -> (dirty: bool)
        ensures
            dirty == self@.is_dirty,
    {
        self.is_dirty
    }

    /// The number of fragments in the line at `line_idx`; 0 if there is no
    /// such line.
    pub fn get_line_len(&self, line_idx: usize) -> (len: usize)
        ensures
            line_idx < self@.lines.len() ==> len == self@.lines[line_idx as int].len(),
            line_idx >= self@.lines.len() ==> len == 0,
    {
        if line_idx < self.content.len() {
            self.content[line_idx].get_line_len()
        } else {
            0
        }
    }

    /// The columns occupied by the fragments before `end_x` in the line at
    /// `line_idx`; 0 if there is no such line.
    pub fn get_line_text_width(&self, line_idx: usize, end_x: usize) -> (width: u64)
        ensures
            line_idx < self@.lines.len() ==> width == saturated(
                display_width(self@.lines[line_idx as int], end_x as int),
            ),
            line_idx >= self@.lines.len() ==> width == 0,
    {
        if line_idx < self.content.len() {
            self.content[line_idx].get_line_text_width(end_x)
        } else {
            0
        }
    }

    /// The number of lines.
    pub fn get_total_lines(&self) -> (total: usize)
        ensures
            total == self@.lines.len(),
    {
        self.content.len()
    }

    /// What to paint at `screen_pos` for the line at `line_idx` when the
    /// window shows the columns `text_offset_x`: the visible part of the
    /// line, or the placeholder if there is no such line.
    pub fn render_line(
        &self,
        line_idx: usize,
        screen_pos: TerminalPos,
        text_offset_x: Range<u64>,
    ) -> (draw: DrawText)
        ensures
            draw.pos == screen_pos,
            line_idx < self@.lines.len() ==> draw.text@ == visible_text(
                self@.lines[line_idx as int],
                text_offset_x.start as int,
                text_offset_x.end as int,
            ),
            line_idx >= self@.lines.len() ==> draw.text@ == placeholder_text(),
    {
        if line_idx < self.content.len() {
            self.content[line_idx].render_line(screen_pos, text_offset_x)
        } else {
            let mut text = String::new();
            text.push('~');
            DrawText { pos: screen_pos, text }
        }
    }

    /// Inserts `character` at `(line_idx, fragment_idx)` and marks the buffer
    /// dirty. A refused insertion changes nothing.
    pub fn insert_character(
        &mut self,
        line_idx: usize,
        fragment_idx: usize,
        character: char,
    ) -> (result: Result<InsertCharResult, InsertCharError>)
        ensures
            result == insertion_outcome(old(self)@.lines, line_idx as int, fragment_idx as int),
            result is Ok ==> final(self)@ == (BufferView {
                lines: lines_after_insert(
                    old(self)@.lines,
                    line_idx as int,
                    fragment_idx as int,
                    character,
                ),
                is_dirty: true,
                ..old(self)@
            }),
            result is Err ==> final(self)@ == old(self)@,
    {
        if line_idx == self.content.len() {
            let mut line = TextLine::new("");
            proof {
                reveal_strlit("");
            }
            let _ = line.insert_character(0, character);
            assert(line@ =~= seq![character]);
            self.content.push(line);
            self.is_dirty = true;
            assert(self@.lines =~= old(self)@.lines.push(seq![character]));
            Ok(InsertCharResult { line_len_increased: true })
        } else if line_idx < self.content.len() {
            let result = self.content[line_idx].insert_character(fragment_idx, character);
            if result.is_ok() {
                self.is_dirty = true;
            }
            assert(self@.lines =~= lines_after_insert(
                old(self)@.lines,
                line_idx as int,
                fragment_idx as int,
                character,
            ));
            result
        } else {
            Err(InsertCharError::InvalidLine)
        }
    }

    /// Removes the fragment at `(line_idx, fragment_idx)`. A missing fragment
    /// is no error. The buffer becomes dirty whenever the line exists.
    pub fn remove_character(&mut self, line_idx: usize, fragment_idx: usize)
        ensures
            final(self)@ == (BufferView {
                lines: lines_after_remove(old(self)@.lines, line_idx as int, fragment_idx as int),
                is_dirty: old(self)@.is_dirty || line_idx < old(self)@.lines.len(),
                ..old(self)@
            }),
    {
        if line_idx < self.content.len() {
            self.content[line_idx].remove_character(fragment_idx);
            self.is_dirty = true;
            assert(self@.lines =~= lines_after_remove(
                old(self)@.lines,
                line_idx as int,
                fragment_idx as int,
            ));
        }
    }

    /// Appends the line below `line_idx` to the line at `line_idx` and
    /// removes it. Does nothing unless both lines exist; the buffer becomes
    /// dirty when they do.
    pub fn join_line_with_below_line(&mut self, line_idx: usize)
        ensures
            final(self)@ == (BufferView {
                lines: lines_after_join(old(self)@.lines, line_idx as int),
                is_dirty: old(self)@.is_dirty || has_line_below(old(self)@.lines, line_idx as int),
                ..old(self)@
            }),
    {
        let total: usize = self.content.len();
        if line_idx < total && total - line_idx > 1 {
            let below = self.content.remove(line_idx + 1);
            self.content[line_idx].append(below);
            self.is_dirty = true;
            assert(self@.lines =~= lines_after_join(old(self)@.lines, line_idx as int));
        }
    }

    /// Breaks the line at `line_idx` in two at `fragment_idx`, or adds an
    /// empty last line when `line_idx` follows the last line. The buffer
    /// becomes dirty.
    pub fn insert_newline_at(&mut self, line_idx: usize, fragment_idx: usize)
        requires
            line_idx <= old(self)@.lines.len(),
        ensures
            final(self)@ == (BufferView {
                lines: lines_after_newline(old(self)@.lines, line_idx as int, fragment_idx as int),
                is_dirty: true,
                ..old(self)@
            }),
    {
        if line_idx < self.content.len() {
            let rest = self.content[line_idx].split_off(fragment_idx);
            self.content.insert(line_idx + 1, rest);
        } else {
            let line = TextLine::new("");
            proof {
                reveal_strlit("");
            }
            assert(line@ =~= Seq::<char>::empty());
            self.content.push(line);
        }
        self.is_dirty = true;
        assert(self@.lines =~= lines_after_newline(
            old(self)@.lines,
            line_idx as int,
            fragment_idx as int,
        ));
    }

    /// The buffer for a file named `filename` whose text is `content`.
    pub fn new_from_text(filename: &str, content: &str) -> (buffer: Buffer)
        ensures
            buffer@ == (BufferView {
                lines: split_lines(content@),
                filename: Some(filename@),
                is_dirty: false,
            }),
    {
        Buffer {
            content: read_lines(content),
            filename: Some(filename.to_owned()),
            is_dirty: false,
        }
    }

    /// What has to be written to save the buffer: every line, in order, each
    /// followed by a line feed, to the backing file. Refused when the buffer
    /// is untitled.
    pub fn write_request(&self) -> (request: Result<WriteRequest, WriteError>)
        ensures
            request is Ok == self@.filename is Some,
            request matches Ok(r) ==> self@.filename == Some(r.filename@) && r.contents@
                == file_text(self@.lines),
            request matches Err(e) ==> e == WriteError::NoFilename,
    {
        match &self.filename {
            None => Err(WriteError::NoFilename),
            Some(name) => Ok(
                WriteRequest { filename: name.clone(), contents: write_lines(&self.content) },
            ),
        }
    }

    /// Takes in how the write that [`Buffer::write_request`] asked for went.
    /// An untitled buffer has asked for none: whatever the outcome says, it
    /// stays as it was and the save fails for want of a filename. Otherwise
    /// a completed write leaves the buffer clean. A failed one, even if part
    /// of the text was written, leaves the buffer as it was, and its reason
    /// is handed on.
    pub fn write_finished(&mut self, outcome: Result<(), String>) -> (result: Result<
        (),
        WriteError,
    >)
        ensures
            old(self)@.filename is None ==> {
                &&& result == Err::<(), WriteError>(WriteError::NoFilename)
                &&& final(self)@ == old(self)@
            },
            old(self)@.filename is Some && outcome is Ok ==> {
                &&& result is Ok
                &&& final(self)@ == (BufferView { is_dirty: false, ..old(self)@ })
            },
            old(self)@.filename is Some && outcome is Err ==> {
                &&& result matches Err(WriteError::Io(text)) && text@ == outcome->Err_0@
                &&& final(self)@ == old(self)@
            },
    {
        if self.filename.is_none() {
            return Err(WriteError::NoFilename);
        }
        match outcome {
            Ok(()) => {
                self.is_dirty = false;
                Ok(())
            },
            Err(reason) => Err(WriteError::Io(reason)),
        }
    }
}

} // verus!
