//! Plain values exchanged with a drawing surface.

use vstd::prelude::*;

verus! {

/// The extent of a drawing surface, in character cells.
#[derive(Default, Clone, Copy, Debug, PartialEq, Eq, Structural)]
pub struct TerminalSize {
    pub x: u16,
    pub y: u16,
}

/// A cell of a drawing surface: column `x`, row `y`.
#[derive(Default, Clone, Copy, Debug, PartialEq, Eq, Structural)]
pub struct TerminalPos {
    pub x: u16,
    pub y: u16,
}

/// What a drawing surface restores when a frame ends.
#[derive(Clone, Copy, Debug, PartialEq, Eq, Structural)]
pub struct TerminalRestoreState {
    pub cursor_pos: TerminalPos,
}

/// One piece of text to paint, starting at the cell `pos`.
#[derive(Debug)]
pub struct DrawText {
    pub pos: TerminalPos,
    pub text: String,
}

/// Everything one render pass paints, in painting order, and the cell where
/// the surface's cursor rests once the frame is complete.
#[derive(Debug)]
pub struct Frame {
    pub draws: Vec<DrawText>,
    pub cursor: TerminalPos,
}

} // verus!
