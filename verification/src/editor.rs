//! The editor's state and its reactions to input.
//!
//! The editor reads no keyboard and paints no screen. Whoever runs it hands
//! it each input event together with the screen's size, and paints the
//! frames it produces.
//!
//! A key that moves the cursor does so twice over. It becomes a movement
//! command on the viewport, whose cursor travels through the buffer and is
//! the one that a frame shows. It also steers the editor's own screen
//! cursor, which never leaves the screen of the size given with the key.

use crate::buffer::{Buffer, BufferView};
use crate::math::Pos2u;
use crate::terminal::{DrawText, Frame, TerminalPos, TerminalSize};
use crate::view::{after_command, row_text, valid_size, View, ViewCommand};
use vstd::prelude::*;
use vstd::string::StringExecFns;
use vstd::view::View as _;

verus! {

/// The key of a key event.
#[derive(Clone, Copy, Debug, PartialEq, Eq, Structural)]
pub enum KeyCode {
    Char(char),
    Left,
    Right,
    Up,
    Down,
    Home,
    End,
    PageUp,
    PageDown,
    /// Any other key.
    Other,
}

/// The modifier keys held during a key event.
#[derive(Clone, Copy, Debug, PartialEq, Eq, Structural)]
pub struct KeyModifiers {
    pub shift: bool,
    pub control: bool,
    pub alt: bool,
    pub super_key: bool,
    pub hyper: bool,
    pub meta: bool,
}

/// What happened to the key.
#[derive(Clone, Copy, Debug, PartialEq, Eq, Structural)]
pub enum KeyEventKind {
    Press,
    Repeat,
    Release,
}

/// An input event, as far as the editor looks at it.
#[derive(Clone, Copy, Debug, PartialEq, Eq, Structural)]
pub enum InputEvent {
    Key { code: KeyCode, modifiers: KeyModifiers, kind: KeyEventKind },
    /// Anything that is not a key event.
    Other,
}

/// Whether control is the one modifier held.
pub open spec fn only_control(modifiers: KeyModifiers) -> bool {
    modifiers == (KeyModifiers {
        shift: false,
        control: true,
        alt: false,
        super_key: false,
        hyper: false,
        meta: false,
    })
}

/// Whether the event is the key press that ends the session: `q` with
/// control and no other modifier.
pub open spec fn asks_to_quit(event: InputEvent) -> bool {
    event matches InputEvent::Key { code, modifiers, kind } && kind == KeyEventKind::Press && code
        == KeyCode::Char('q') && only_control(modifiers)
}

/// The last cell of an axis with `extent` cells; cell 0 if it has none.
pub open spec fn last_cell(extent: u16) -> u16 {
    if extent > 0 {
        (extent - 1) as u16
    } else {
        0
    }
}

/// Where a pressed key puts the screen cursor on a screen of the given
/// size. The arrows move by one cell and stop at the screen's edges; Home
/// and End go to the first and last column, PageUp and PageDown to the
/// first and last row. No other key moves it.
pub open spec fn cursor_after_key(
    code: KeyCode,
    cursor: TerminalPos,
    size: TerminalSize,
) -> TerminalPos {
    match code {
        KeyCode::Left => TerminalPos {
            x: if cursor.x > 0 {
                (cursor.x - 1) as u16
            } else {
                cursor.x
            },
            ..cursor
        },
        KeyCode::Right => TerminalPos {
            x: if cursor.x + 1 < size.x {
                (cursor.x + 1) as u16
            } else {
                cursor.x
            },
            ..cursor
        },
        KeyCode::Up => TerminalPos {
            y: if cursor.y > 0 {
                (cursor.y - 1) as u16
            } else {
                cursor.y
            },
            ..cursor
        },
        KeyCode::Down => TerminalPos {
            y: if cursor.y + 1 < size.y {
                (cursor.y + 1) as u16
            } else {
                cursor.y
            },
            ..cursor
        },
        KeyCode::Home => TerminalPos { x: 0, ..cursor },
        KeyCode::End => TerminalPos { x: last_cell(size.x), ..cursor },
        KeyCode::PageUp => TerminalPos { y: 0, ..cursor },
        KeyCode::PageDown => TerminalPos { y: last_cell(size.y), ..cursor },
        KeyCode::Char(_) => cursor,
        KeyCode::Other => cursor,
    }
}

/// Where an event puts the screen cursor: a key press that does not ask to
/// quit moves it as its key says, nothing else moves it.
pub open spec fn cursor_after_event(
    event: InputEvent,
    cursor: TerminalPos,
    size: TerminalSize,
) -> TerminalPos {
    match event {
        InputEvent::Key { code, modifiers, kind } => if kind == KeyEventKind::Press
            && !asks_to_quit(event) {
            cursor_after_key(code, cursor, size)
        } else {
            cursor
        },
        InputEvent::Other => cursor,
    }
}

/// The movement command that a key stands for, if it stands for one.
pub open spec fn command_of_key(code: KeyCode) -> Option<ViewCommand> {
    match code {
        KeyCode::Left => Some(ViewCommand::MoveCursorLeft),
        KeyCode::Right => Some(ViewCommand::MoveCursorRight),
        KeyCode::Up => Some(ViewCommand::MoveCursorUp),
        KeyCode::Down => Some(ViewCommand::MoveCursorDown),
        KeyCode::Home => Some(ViewCommand::MoveCursorToStartOfLine),
        KeyCode::End => Some(ViewCommand::MoveCursorToEndOfLine),
        KeyCode::PageUp => Some(ViewCommand::MoveCursorToTopOfBuffer),
        KeyCode::PageDown => Some(ViewCommand::MoveCursorToBottomOfBuffer),
        KeyCode::Char(_) => None,
        KeyCode::Other => None,
    }
}

/// The movement command that an event asks for: that of its key if it is a
/// key press, none otherwise.
pub open spec fn command_of_event(event: InputEvent) -> Option<ViewCommand> {
    match event {
        InputEvent::Key { code, modifiers, kind } => if kind == KeyEventKind::Press {
            command_of_key(code)
        } else {
            None
        },
        InputEvent::Other => None,
    }
}

/// The viewport's cursor and scroll offset after an event: moved by the
/// event's command if it asks for one, unchanged otherwise.
pub open spec fn view_after_event(
    event: InputEvent,
    cursor: Pos2u,
    scroll: Pos2u,
    size: Pos2u,
    lines: Seq<Seq<char>>,
) -> (Pos2u, Pos2u) {
    match command_of_event(event) {
        Some(command) => after_command(command, cursor, scroll, size, lines),
        None => (cursor, scroll),
    }
}

/// Computes [`command_of_key`].
pub fn key_command(code: KeyCode) -> (command: Option<ViewCommand>)
    ensures
        command == command_of_key(code),
{
    match code {
        KeyCode::Left => Some(ViewCommand::MoveCursorLeft),
        KeyCode::Right => Some(ViewCommand::MoveCursorRight),
        KeyCode::Up => Some(ViewCommand::MoveCursorUp),
        KeyCode::Down => Some(ViewCommand::MoveCursorDown),
        KeyCode::Home => Some(ViewCommand::MoveCursorToStartOfLine),
        KeyCode::End => Some(ViewCommand::MoveCursorToEndOfLine),
        KeyCode::PageUp => Some(ViewCommand::MoveCursorToTopOfBuffer),
        KeyCode::PageDown => Some(ViewCommand::MoveCursorToBottomOfBuffer),
        KeyCode::Char(_) => None,
        KeyCode::Other => None,
    }
}

/// The status line shown when a file could not be loaded.
pub open spec fn load_failure_text(filename: Seq<char>, reason: Seq<char>) -> Seq<char> {
    "Cannot load "@ + filename + ": "@ + reason
}

/// The editor: a viewport, a screen cursor, a status line, and whether the
/// session is over.
///
/// The cursor that a frame shows is the viewport's. The screen cursor kept
/// here is steered by the same keys but bounded by the screen alone.
pub struct Editor {
    should_quit: bool,
    cursor_pos: TerminalPos,
    view: View,
    status_bar_text: String,
}

impl Editor {
    /// Whether the session is over.
    pub closed spec fn should_quit(&self) -> bool {
        self.should_quit
    }

    /// The screen cursor.
    pub closed spec fn cursor_pos(&self) -> TerminalPos {
        self.cursor_pos
    }

    /// The viewport.
    pub closed spec fn view(&self) -> View {
        self.view
    }

    /// The status line; empty if there is nothing to report.
    pub closed spec fn status_bar_text(&self) -> Seq<char> {
        self.status_bar_text@
    }

    /// An editor over an empty, untitled buffer, for a window of the given
    /// size.
    pub fn new(size: Pos2u) -> (editor: Editor)
        requires
            valid_size(size),
        ensures
            !editor.should_quit(),
            editor.cursor_pos() == (TerminalPos { x: 0, y: 0 }),
            editor.status_bar_text() == Seq::<char>::empty(),
            editor.view().wf(),
            editor.view().size() == size,
            editor.view().cursor_pos() == (Pos2u { x: 0, y: 0 }),
            editor.view().scroll_offset() == (Pos2u { x: 0, y: 0 }),
            editor.view().buffer()@ == (BufferView {
                lines: Seq::empty(),
                filename: None,
                is_dirty: false,
            }),
    {
        Editor {
            should_quit: false,
            cursor_pos: TerminalPos { x: 0, y: 0 },
            view: View::new(size),
            status_bar_text: String::new(),
        }
    }

    /// Whether the session is over.
    pub fn get_should_quit(&self) -> (quit: bool)
        ensures
            quit == self.should_quit(),
    {
        self.should_quit
    }

    /// The screen cursor.
    pub fn get_cursor_pos(&self) -> (cursor: TerminalPos)
        ensures
            cursor == self.cursor_pos(),
    {
        self.cursor_pos
    }

    /// The viewport.
    pub fn get_view(&self) -> (view: &View)
        ensures
            *view == self.view(),
    {
        &self.view
    }

    /// The status line.
    pub fn get_status_bar_text(&self) -> (text: &str)
        ensures
            text@ == self.status_bar_text(),
    {
        self.status_bar_text.as_str()
    }

    /// Takes in the outcome of loading the file named `filename`: the buffer
    /// that holds it, or the reason why it could not be read. The buffer is
    /// shown in a fresh viewport of the same size. A failure leaves the
    /// viewport alone and is reported on the status line.
    pub fn open_file(&mut self, filename: &str, loaded: Result<Buffer, &str>)
        ensures
            final(self).should_quit() == old(self).should_quit(),
            final(self).cursor_pos() == old(self).cursor_pos(),
            final(self).view().wf(),
            loaded matches Ok(buffer) ==> {
                &&& final(self).status_bar_text() == old(self).status_bar_text()
                &&& final(self).view().size() == old(self).view().size()
                &&& final(self).view().cursor_pos() == (Pos2u { x: 0, y: 0 })
                &&& final(self).view().scroll_offset() == (Pos2u { x: 0, y: 0 })
                &&& final(self).view().buffer() == buffer
            },
            loaded matches Err(reason) ==> {
                &&& final(self).view() == old(self).view()
                &&& final(self).status_bar_text() == load_failure_text(filename@, reason@)
            },
    {
        let size = self.view.get_size();
        match loaded {
            Ok(buffer) => {
                self.view = View::new_with_buffer(buffer, size);
            },
            Err(reason) => {
                let mut text = String::from_str("Cannot load ");
                text.append(filename);
                text.append(": ");
                text.append(reason);
                self.status_bar_text = text;
            },
        }
    }

    /// Reacts to one input event on a screen of the given size. Control-q
    /// ends the session. The arrow, Home, End, PageUp and PageDown keys
    /// become movement commands on the viewport: one step, the start or the
    /// end of the line, the top or the bottom of the buffer. They also move
    /// the screen cursor inside the screen. Only key presses count.
    pub fn handle_event(&mut self, event: &InputEvent, size: TerminalSize)
        ensures
            final(self).status_bar_text() == old(self).status_bar_text(),
            final(self).should_quit() == (old(self).should_quit() || asks_to_quit(*event)),
            final(self).cursor_pos() == cursor_after_event(*event, old(self).cursor_pos(), size),
            final(self).view().buffer() == old(self).view().buffer(),
            final(self).view().size() == old(self).view().size(),
            (final(self).view().cursor_pos(), final(self).view().scroll_offset())
                == view_after_event(
                *event,
                old(self).view().cursor_pos(),
                old(self).view().scroll_offset(),
                old(self).view().size(),
                old(self).view().buffer()@.lines,
            ),
            command_of_event(*event) is None ==> final(self).view() == old(self).view(),
    {
        match *event {
            InputEvent::Key { code, modifiers, kind: KeyEventKind::Press } => {
                match key_command(code) {
                    Some(command) => {
                        self.view.execute_command(command);
                    },
                    None => {},
                }
                let control_alone = modifiers.control && !modifiers.shift && !modifiers.alt
                    && !modifiers.super_key && !modifiers.hyper && !modifiers.meta;
                match code {
                    KeyCode::Char(c) => {
                        if c == 'q' && control_alone {
                            self.should_quit = true;
                        }
                    },
                    KeyCode::Left => {
                        if self.cursor_pos.x > 0 {
                            self.cursor_pos.x -= 1;
                        }
                    },
                    KeyCode::Right => {
                        if self.cursor_pos.x < u16::MAX && self.cursor_pos.x + 1 < size.x {
                            self.cursor_pos.x += 1;
                        }
                    },
                    KeyCode::Up => {
                        if self.cursor_pos.y > 0 {
                            self.cursor_pos.y -= 1;
                        }
                    },
                    KeyCode::Down => {
                        if self.cursor_pos.y < u16::MAX && self.cursor_pos.y + 1 < size.y {
                            self.cursor_pos.y += 1;
                        }
                    },
                    KeyCode::Home => {
                        self.cursor_pos.x = 0;
                    },
                    KeyCode::End => {
                        self.cursor_pos.x = if size.x > 0 {
                            size.x - 1
                        } else {
                            0
                        };
                    },
                    KeyCode::PageUp => {
                        self.cursor_pos.y = 0;
                    },
                    KeyCode::PageDown => {
                        self.cursor_pos.y = if size.y > 0 {
                            size.y - 1
                        } else {
                            0
                        };
                    },
                    KeyCode::Other => {},
                }
            },
            _ => {},
        }
    }

    /// The frame to paint on a screen of the given size: what the viewport
    /// shows, then the status line on the screen's last row if there is one
    /// to show. The frame's cursor is the cell that shows the viewport's
    /// cursor. The size is looked at only if there is a status line.
    pub fn draw(&self, size: TerminalSize) -> (frame: Frame)
        ensures
            self.view().wf(),
            frame.cursor == (TerminalPos {
                x: (self.view().cursor_pos().x - self.view().scroll_offset().x) as u16,
                y: (self.view().cursor_pos().y - self.view().scroll_offset().y) as u16,
            }),
            self.status_bar_text().len() == 0 ==> frame.draws@.len() == self.view().size().y,
            self.status_bar_text().len() > 0 ==> {
                &&& frame.draws@.len() == self.view().size().y + 1
                &&& frame.draws@.last().pos == (TerminalPos { x: 0, y: last_cell(size.y) })
                &&& frame.draws@.last().text@ == self.status_bar_text()
            },
            forall|row: int|
                0 <= row < self.view().size().y ==> (#[trigger] frame.draws@[row]).pos
                    == (TerminalPos { x: 0, y: row as u16 }),
            forall|row: int|
                0 <= row < self.view().size().y ==> (#[trigger] frame.draws@[row]).text@
                    == row_text(
                    self.view().buffer()@.lines,
                    self.view().scroll_offset(),
                    self.view().size(),
                    row,
                ),
    {
        let shown = self.view.render();
        let mut draws = shown.draws;
        if !self.status_bar_text.as_str().is_empty() {
            let y: u16 = if size.y > 0 {
                size.y - 1
            } else {
                0
            };
            draws.push(
                DrawText { pos: TerminalPos { x: 0, y }, text: self.status_bar_text.clone() },
            );
        }
        Frame { draws, cursor: shown.cursor }
    }
}

} // verus!
