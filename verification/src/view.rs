//! The viewport: a cursor and a scroll offset over a buffer, and the window
//! of the buffer that a screen of a given size shows.
//!
//! Cursor and scroll offset are buffer coordinates. Every command moves the
//! cursor and then moves the scroll offset just far enough, on each axis by
//! itself, for the cursor to lie inside the window again.
//!
//! Moving right or down never looks at the text, so the cursor may come to
//! lie to the right of a short line's end. It is kept there: going down to a
//! longer line brings it back to its column. Only the position that an edit
//! applies at, [`View::get_text_position`], is held inside the line.

use crate::buffer::{placeholder_text, Buffer};
use crate::document::insertion_outcome;
use crate::math::Pos2u;
use crate::terminal::{DrawText, Frame, TerminalPos};
use crate::text_line::visible_text;
use std::ops::Range;
use vstd::prelude::*;
use vstd::view::View as _;

verus! {

/// A cursor movement.
#[derive(Clone, Copy, Debug, PartialEq, Eq, Structural)]
pub enum ViewCommand {
    MoveCursorUp,
    MoveCursorDown,
    MoveCursorLeft,
    MoveCursorRight,
    MoveCursorToTopOfBuffer,
    MoveCursorToBottomOfBuffer,
    MoveCursorToStartOfLine,
    MoveCursorToEndOfLine,
}

/// A window needs at least one cell on each axis to show a cursor in, and
/// its cells are numbered by `u16`.
pub open spec fn valid_size(size: Pos2u) -> bool {
    &&& 1 <= size.x <= u16::MAX
    &&& 1 <= size.y <= u16::MAX
}

/// Whether `cursor` lies in the `extent` cells that begin at `scroll`.
pub open spec fn axis_visible(cursor: int, scroll: int, extent: int) -> bool {
    scroll <= cursor < scroll + extent
}

/// Whether the cursor lies inside the window on both axes.
pub open spec fn cursor_visible(cursor: Pos2u, scroll: Pos2u, size: Pos2u) -> bool {
    &&& axis_visible(cursor.x as int, scroll.x as int, size.x as int)
    &&& axis_visible(cursor.y as int, scroll.y as int, size.y as int)
}

/// The scroll offset on one axis after it has followed the cursor: the
/// cursor itself if the cursor lay before the window, the offset that puts
/// the cursor on the window's last cell if it lay behind the window, and
/// the same offset otherwise.
pub open spec fn scrolled_axis(cursor: int, scroll: int, extent: int) -> int {
    if cursor < scroll {
        cursor
    } else if cursor >= scroll + extent {
        cursor - extent + 1
    } else {
        scroll
    }
}

/// The scroll offset after it has followed the cursor on both axes.
pub open spec fn scrolled_to(cursor: Pos2u, scroll: Pos2u, size: Pos2u) -> Pos2u {
    Pos2u {
        x: scrolled_axis(cursor.x as int, scroll.x as int, size.x as int) as u64,
        y: scrolled_axis(cursor.y as int, scroll.y as int, size.y as int) as u64,
    }
}

/// Where a command puts the cursor. Left and up stop at 0. Right and down
/// do not look at the text: they stop only at the largest coordinate. The
/// end of a line is its last fragment, or 0 on an empty or missing line; the
/// bottom of the buffer is the line after the last one.
pub open spec fn moved_cursor(command: ViewCommand, cursor: Pos2u, lines: Seq<Seq<char>>) -> Pos2u {
    match command {
        ViewCommand::MoveCursorUp => Pos2u {
            y: if cursor.y > 0 {
                (cursor.y - 1) as u64
            } else {
                0
            },
            ..cursor
        },
        ViewCommand::MoveCursorDown => Pos2u {
            y: if cursor.y < u64::MAX {
                (cursor.y + 1) as u64
            } else {
                cursor.y
            },
            ..cursor
        },
        ViewCommand::MoveCursorLeft => Pos2u {
            x: if cursor.x > 0 {
                (cursor.x - 1) as u64
            } else {
                0
            },
            ..cursor
        },
        ViewCommand::MoveCursorRight => Pos2u {
            x: if cursor.x < u64::MAX {
                (cursor.x + 1) as u64
            } else {
                cursor.x
            },
            ..cursor
        },
        ViewCommand::MoveCursorToTopOfBuffer => Pos2u { y: 0, ..cursor },
        ViewCommand::MoveCursorToBottomOfBuffer => Pos2u { y: lines.len() as u64, ..cursor },
        ViewCommand::MoveCursorToStartOfLine => Pos2u { x: 0, ..cursor },
        ViewCommand::MoveCursorToEndOfLine => Pos2u {
            x: if cursor.y < lines.len() && lines[cursor.y as int].len() > 0 {
                (lines[cursor.y as int].len() - 1) as u64
            } else {
                0
            },
            ..cursor
        },
    }
}

/// The position in the text that the cursor stands for. The cursor may lie
/// to the right of its line's end, or on the line after the last one; an
/// edit applies at the end of the line then.
pub open spec fn text_position(cursor: Pos2u, lines: Seq<Seq<char>>) -> Pos2u {
    Pos2u {
        x: if cursor.y >= lines.len() {
            0
        } else if cursor.x > lines[cursor.y as int].len() {
            lines[cursor.y as int].len() as u64
        } else {
            cursor.x
        },
        ..cursor
    }
}

/// Typing works wherever the cursor rests on or above the line after the
/// last one: the position it stands for accepts an insertion.
pub proof fn lemma_text_position_accepts_insert(cursor: Pos2u, lines: Seq<Seq<char>>)
    requires
        cursor.y <= lines.len(),
    ensures
        insertion_outcome(
            lines,
            text_position(cursor, lines).y as int,
            text_position(cursor, lines).x as int,
        ) is Ok,
{
}

/// Cursor and scroll offset after one command.
pub open spec fn after_command(
    command: ViewCommand,
    cursor: Pos2u,
    scroll: Pos2u,
    size: Pos2u,
    lines: Seq<Seq<char>>,
) -> (Pos2u, Pos2u) {
    let moved = moved_cursor(command, cursor, lines);
    (moved, scrolled_to(moved, scroll, size))
}

/// Cursor and scroll offset after a sequence of commands, first to last.
pub open spec fn after_commands(
    commands: Seq<ViewCommand>,
    cursor: Pos2u,
    scroll: Pos2u,
    size: Pos2u,
    lines: Seq<Seq<char>>,
) -> (Pos2u, Pos2u)
    decreases commands.len(),
{
    if commands.len() == 0 {
        (cursor, scroll)
    } else {
        let (c, s) = after_commands(commands.drop_last(), cursor, scroll, size, lines);
        after_command(commands.last(), c, s, size, lines)
    }
}

/// The last column of the window that begins at `start`, exclusive. Columns
/// are `u64`, so a window that would reach past the last one ends there.
pub open spec fn window_end(start: u64, extent: u64) -> u64 {
    if start + extent > u64::MAX {
        u64::MAX
    } else {
        (start + extent) as u64
    }
}

/// What screen row `row` shows: the visible part of the line that the
/// scroll offset brings there, or the placeholder below the last line.
pub open spec fn row_text(lines: Seq<Seq<char>>, scroll: Pos2u, size: Pos2u, row: int) -> Seq<
    char,
> {
    if scroll.y + row < lines.len() {
        visible_text(
            lines[scroll.y + row],
            scroll.x as int,
            window_end(scroll.x, size.x) as int,
        )
    } else {
        placeholder_text()
    }
}

/// Following the cursor brings it into the window, wherever the scroll
/// offset was.
pub proof fn lemma_scrolled_to_shows_cursor(cursor: Pos2u, scroll: Pos2u, size: Pos2u)
    requires
        valid_size(size),
    ensures
        cursor_visible(cursor, scrolled_to(cursor, scroll, size), size),
{
}

/// A scroll offset that already shows the cursor stays where it is.
pub proof fn lemma_scrolled_to_keeps_visible(cursor: Pos2u, scroll: Pos2u, size: Pos2u)
    requires
        cursor_visible(cursor, scroll, size),
    ensures
        scrolled_to(cursor, scroll, size) == scroll,
{
}

/// After any sequence of commands the cursor lies inside the window: after
/// an empty one if it did before, after any other wherever it was.
pub proof fn lemma_cursor_stays_visible(
    commands: Seq<ViewCommand>,
    cursor: Pos2u,
    scroll: Pos2u,
    size: Pos2u,
    lines: Seq<Seq<char>>,
)
    requires
        valid_size(size),
        commands.len() > 0 || cursor_visible(cursor, scroll, size),
    ensures
        cursor_visible(
            after_commands(commands, cursor, scroll, size, lines).0,
            after_commands(commands, cursor, scroll, size, lines).1,
            size,
        ),
{
    if commands.len() > 0 {
        let (c, s) = after_commands(commands.drop_last(), cursor, scroll, size, lines);
        lemma_scrolled_to_shows_cursor(moved_cursor(commands.last(), c, lines), s, size);
    }
}

/// Moving left in column 0, or up in row 0, changes neither the cursor nor,
/// in a window that shows the cursor, the scroll offset.
pub proof fn lemma_left_and_up_stop_at_zero(
    cursor: Pos2u,
    scroll: Pos2u,
    size: Pos2u,
    lines: Seq<Seq<char>>,
)
    ensures
        cursor.x == 0 ==> moved_cursor(ViewCommand::MoveCursorLeft, cursor, lines) == cursor,
        cursor.y == 0 ==> moved_cursor(ViewCommand::MoveCursorUp, cursor, lines) == cursor,
        cursor.x == 0 && cursor_visible(cursor, scroll, size) ==> after_command(
            ViewCommand::MoveCursorLeft,
            cursor,
            scroll,
            size,
            lines,
        ) == (cursor, scroll),
        cursor.y == 0 && cursor_visible(cursor, scroll, size) ==> after_command(
            ViewCommand::MoveCursorUp,
            cursor,
            scroll,
            size,
            lines,
        ) == (cursor, scroll),
{
}

/// The window and the cursor in it. A value of this type always shows its
/// cursor, so it changes only as a whole.
#[derive(Clone, Copy)]
struct Window {
    size: Pos2u,
    cursor_pos: Pos2u,
    scroll_offset: Pos2u,
}

impl Window {
    #[verifier::type_invariant]
    spec fn shows_cursor(self) -> bool {
        &&& valid_size(self.size)
        &&& cursor_visible(self.cursor_pos, self.scroll_offset, self.size)
    }

    /// The window of the given size that shows `cursor_pos` and has moved
    /// no further from `scroll_offset` than that takes.
    fn following(cursor_pos: Pos2u, scroll_offset: Pos2u, size: Pos2u) -> (window: Window)
        requires
            valid_size(size),
        ensures
            window.size == size,
            window.cursor_pos == cursor_pos,
            window.scroll_offset == scrolled_to(cursor_pos, scroll_offset, size),
    {
        let x: u64 = if cursor_pos.x < scroll_offset.x {
            cursor_pos.x
        } else if cursor_pos.x - scroll_offset.x >= size.x {
            cursor_pos.x - size.x + 1
        } else {
            scroll_offset.x
        };
        let y: u64 = if cursor_pos.y < scroll_offset.y {
            cursor_pos.y
        } else if cursor_pos.y - scroll_offset.y >= size.y {
            cursor_pos.y - size.y + 1
        } else {
            scroll_offset.y
        };
        Window { size, cursor_pos, scroll_offset: Pos2u { x, y } }
    }
}

/// A buffer seen through a window, with the cursor that edits it.
///
/// The window always has a valid size and always shows the cursor: the
/// constructors establish [`View::wf`], and nothing that can be done to a
/// viewport breaks it.
pub struct View {
    buffer: Buffer,
    window: Window,
}

impl View {
    /// The buffer that the viewport shows.
    pub closed spec fn buffer(&self) -> Buffer {
        self.buffer
    }

    /// The extent of the window: `x` columns, `y` rows.
    pub closed spec fn size(&self) -> Pos2u {
        self.window.size
    }

    /// The cursor: `x` is a fragment index, `y` a line index.
    pub closed spec fn cursor_pos(&self) -> Pos2u {
        self.window.cursor_pos
    }

    /// The buffer coordinate of the window's top left cell.
    pub closed spec fn scroll_offset(&self) -> Pos2u {
        self.window.scroll_offset
    }

    /// The viewport's invariant: the window has a valid size and shows the
    /// cursor.
    pub open spec fn wf(&self) -> bool {
        &&& valid_size(self.size())
        &&& cursor_visible(self.cursor_pos(), self.scroll_offset(), self.size())
    }

    /// A viewport of the given size over an empty, untitled buffer, with the
    /// cursor and the scroll offset at the origin.
    pub fn new(size: Pos2u) -> (view: View)
        requires
            valid_size(size),
        ensures
            view.wf(),
            view.buffer()@.lines == Seq::<Seq<char>>::empty(),
            view.buffer()@.filename is None,
            !view.buffer()@.is_dirty,
            view.size() == size,
            view.cursor_pos() == (Pos2u { x: 0, y: 0 }),
            view.scroll_offset() == (Pos2u { x: 0, y: 0 }),
    {
        View::new_with_buffer(Buffer::new(), size)
    }

    /// A viewport of the given size over `buffer`, with the cursor and the
    /// scroll offset at the origin.
    pub fn new_with_buffer(buffer: Buffer, size: Pos2u) -> (view: View)
        requires
            valid_size(size),
        ensures
            view.wf(),
            view.buffer() == buffer,
            view.size() == size,
            view.cursor_pos() == (Pos2u { x: 0, y: 0 }),
            view.scroll_offset() == (Pos2u { x: 0, y: 0 }),
    {
        View {
            buffer,
            window: Window { size, cursor_pos: Pos2u::zero(), scroll_offset: Pos2u::zero() },
        }
    }

    /// The buffer that the viewport shows.
    pub fn get_buffer(&self) -> (buffer: &Buffer)
        ensures
            *buffer == self.buffer(),
    {
        &self.buffer
    }

    /// The buffer that the viewport shows, for editing. Whatever is done to
    /// the buffer, cursor, scroll offset and size stay as they are.
    pub fn get_buffer_mut(&mut self) -> (buffer: &mut Buffer)
        ensures
            *buffer == old(self).buffer(),
            final(self).buffer() == *final(buffer),
            final(self).size() == old(self).size(),
            final(self).cursor_pos() == old(self).cursor_pos(),
            final(self).scroll_offset() == old(self).scroll_offset(),
    {
        &mut self.buffer
    }

    /// The extent of the window.
    pub fn get_size(&self) -> (size: Pos2u)
        ensures
            size == self.size(),
            self.wf(),
    {
        proof {
            use_type_invariant(self.window);
        }
        self.window.size
    }

    /// The cursor, in buffer coordinates.
    pub fn get_cursor_pos(&self) -> (cursor: Pos2u)
        ensures
            cursor == self.cursor_pos(),
            self.wf(),
    {
        proof {
            use_type_invariant(self.window);
        }
        self.window.cursor_pos
    }

    /// The scroll offset, in buffer coordinates.
    pub fn get_scroll_offset(&self) -> (scroll: Pos2u)
        ensures
            scroll == self.scroll_offset(),
            self.wf(),
    {
        proof {
            use_type_invariant(self.window);
        }
        self.window.scroll_offset
    }

    /// The position in the text that the cursor stands for: the cursor, with
    /// its fragment index no larger than the fragment count of its line.
    pub fn get_text_position(&self) -> (position: Pos2u)
        ensures
            position == text_position(self.cursor_pos(), self.buffer()@.lines),
    {
        let cursor = self.window.cursor_pos;
        let total: usize = self.buffer.get_total_lines();
        let x: u64 = if cursor.y >= total as u64 {
            0
        } else {
            let len: usize = self.buffer.get_line_len(cursor.y as usize);
            if cursor.x > len as u64 {
                len as u64
            } else {
                cursor.x
            }
        };
        Pos2u { x, y: cursor.y }
    }

    /// Gives the window a new size and lets the scroll offset follow the
    /// cursor. The cursor stays where it is.
    pub fn resize(&mut self, size: Pos2u)
        requires
            valid_size(size),
        ensures
            final(self).wf(),
            final(self).buffer() == old(self).buffer(),
            final(self).size() == size,
            final(self).cursor_pos() == old(self).cursor_pos(),
            final(self).scroll_offset() == scrolled_to(
                old(self).cursor_pos(),
                old(self).scroll_offset(),
                size,
            ),
    {
        self.window = Window::following(self.window.cursor_pos, self.window.scroll_offset, size);
    }

    /// Moves the scroll offset just far enough for the window to show
    /// `cursor_pos`, which becomes the cursor.
    fn adjust_scroll_to_cursor_pos(&mut self, cursor_pos: Pos2u)
        ensures
            final(self).wf(),
            final(self).buffer() == old(self).buffer(),
            final(self).size() == old(self).size(),
            final(self).cursor_pos() == cursor_pos,
            final(self).scroll_offset() == scrolled_to(
                cursor_pos,
                old(self).scroll_offset(),
                old(self).size(),
            ),
    {
        proof {
            use_type_invariant(self.window);
        }
        self.window = Window::following(cursor_pos, self.window.scroll_offset, self.window.size);
    }

    /// Carries out one cursor movement and lets the scroll offset follow, so
    /// that the window shows the cursor afterwards.
    pub fn execute_command(&mut self, command: ViewCommand)
        ensures
            final(self).wf(),
            final(self).buffer() == old(self).buffer(),
            final(self).size() == old(self).size(),
            (final(self).cursor_pos(), final(self).scroll_offset()) == after_command(
                command,
                old(self).cursor_pos(),
                old(self).scroll_offset(),
                old(self).size(),
                old(self).buffer()@.lines,
            ),
    {
        let mut cursor = self.window.cursor_pos;
        match command {
            ViewCommand::MoveCursorUp => {
                if cursor.y > 0 {
                    cursor.y -= 1;
                }
            },
            ViewCommand::MoveCursorDown => {
                if cursor.y < u64::MAX {
                    cursor.y += 1;
                }
            },
            ViewCommand::MoveCursorLeft => {
                if cursor.x > 0 {
                    cursor.x -= 1;
                }
            },
            ViewCommand::MoveCursorRight => {
                if cursor.x < u64::MAX {
                    cursor.x += 1;
                }
            },
            ViewCommand::MoveCursorToTopOfBuffer => {
                cursor.y = 0;
            },
            ViewCommand::MoveCursorToBottomOfBuffer => {
                cursor.y = self.buffer.get_total_lines() as u64;
            },
            ViewCommand::MoveCursorToStartOfLine => {
                cursor.x = 0;
            },
            ViewCommand::MoveCursorToEndOfLine => {
                let total: usize = self.buffer.get_total_lines();
                cursor.x = if cursor.y < total as u64 {
                    let len: usize = self.buffer.get_line_len(cursor.y as usize);
                    if len > 0 {
                        (len - 1) as u64
                    } else {
                        0
                    }
                } else {
                    0
                };
            },
        }
        self.adjust_scroll_to_cursor_pos(cursor);
    }

    /// What the window shows: one piece of text per screen row, top to
    /// bottom, each at column 0 of its row, and the cursor's cell on the
    /// screen. Nothing is changed.
    pub fn render(&self) -> (frame: Frame)
        ensures
            self.wf(),
            frame.draws@.len() == self.size().y,
            forall|row: int|
                0 <= row < self.size().y ==> (#[trigger] frame.draws@[row]).pos == (TerminalPos {
                    x: 0,
                    y: row as u16,
                }),
            forall|row: int|
                0 <= row < self.size().y ==> (#[trigger] frame.draws@[row]).text@ == row_text(
                    self.buffer()@.lines,
                    self.scroll_offset(),
                    self.size(),
                    row,
                ),
            frame.cursor == (TerminalPos {
                x: (self.cursor_pos().x - self.scroll_offset().x) as u16,
                y: (self.cursor_pos().y - self.scroll_offset().y) as u16,
            }),
    {
        proof {
            use_type_invariant(self.window);
        }
        let size = self.window.size;
        let cursor = self.window.cursor_pos;
        let scroll = self.window.scroll_offset;
        let total: usize = self.buffer.get_total_lines();
        let end: u64 = if scroll.x > u64::MAX - size.x {
            u64::MAX
        } else {
            scroll.x + size.x
        };
        let mut draws: Vec<DrawText> = Vec::new();
        let mut row: u64 = 0;
        while row < size.y
            invariant
                self.wf(),
                size == self.size(),
                scroll == self.scroll_offset(),
                total == self.buffer()@.lines.len(),
                end == window_end(scroll.x, size.x),
                row <= size.y,
                draws@.len() == row,
                forall|r: int|
                    0 <= r < row ==> (#[trigger] draws@[r]).pos == (TerminalPos {
                        x: 0,
                        y: r as u16,
                    }),
                forall|r: int|
                    0 <= r < row ==> (#[trigger] draws@[r]).text@ == row_text(
                        self.buffer()@.lines,
                        scroll,
                        size,
                        r,
                    ),
            decreases size.y - row,
        {
            let line_idx: usize = if row <= u64::MAX - scroll.y && scroll.y + row < total as u64 {
                (scroll.y + row) as usize
            } else {
                total
            };
            let draw = self.buffer.render_line(
                line_idx,
                TerminalPos { x: 0, y: row as u16 },
                Range { start: scroll.x, end },
            );
            draws.push(draw);
            row += 1;
        }
        Frame {
            draws,
            cursor: TerminalPos {
                x: (cursor.x - scroll.x) as u16,
                y: (cursor.y - scroll.y) as u16,
            },
        }
    }
}

} // verus!
