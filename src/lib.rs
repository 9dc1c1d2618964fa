//! A modal terminal text editor core: a line buffer, a viewport-relative
//! cursor with its scroll offset, and the mode state machine that turns key
//! events into edits and motions.

pub mod buffer;
pub mod command;
pub mod cursor;
pub mod editor;
pub mod marker;
pub mod mode;
pub mod text;
