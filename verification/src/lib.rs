//! Rendering and input-handling core of a terminal text viewer.
//!
//! The library decides what the screen shows and where the caret stands; it
//! never touches the terminal itself. Drawing primitives are queued in a
//! [`editor::terminal::Terminal`] and handed out in batches, and everything
//! that was read from the outside world (key presses, the screen size, the
//! contents of a file) comes in as plain values.

pub mod editor;
pub mod trusted;
