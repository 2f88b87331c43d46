//! A bounded scrollback of text lines with a status line, laid out onto a
//! fixed-height terminal viewport, and the decisions behind keyboard input.

pub mod input;
pub mod layout;
pub mod log;

pub use input::{EditAction, KeyInput, LineEditor};
pub use layout::{Frame, Line, RenderError, RESERVED_ROWS};
pub use log::{LogView, CAPACITY, UI};
