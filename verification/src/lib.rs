//! The core of a small modal text editor for the terminal.
//!
//! The text of one file is held as lines in a [`FileBuffer`]; a [`Cursor`]
//! points into it; a [`TuiRenderer`] takes keys in one of two modes,
//! navigation and insertion, and moves the cursor or changes the text. What
//! each key does is stated once, over the mathematical [`session::Session`],
//! and the handlers are proved to do exactly that. Reading the file and the
//! keys, drawing the frame and writing the file back are left to the caller.

pub mod buffer;
pub mod cursor;
pub mod display;
pub mod key;
pub mod session;
pub mod text;
pub mod tui_renderer;
pub mod viewport;

pub use buffer::FileBuffer;
pub use cursor::Cursor;
pub use tui_renderer::TuiRenderer;
