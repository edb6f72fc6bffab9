//! The editing core of a terminal text editor: a line-oriented text buffer
//! with fragment-indexed lines, and a viewport that keeps the cursor visible
//! while it maps a window of the buffer onto a character grid.
//!
//! The crate performs no input or output. Rendering produces a
//! [`terminal::Frame`] for a drawing surface to paint, and saving produces a
//! [`buffer::WriteRequest`] for a file system to carry out.

pub mod buffer;
pub mod document;
pub mod editor;
pub mod file_text;
pub mod math;
pub mod string_specs;
pub mod terminal;
pub mod text_line;
pub mod view;
