//! The core of a small terminal screen editor: cursor movement rules, key
//! dispatch and the drawing of a frame, as plain values that a terminal
//! front end executes.

pub mod cursor;
pub mod document;
pub mod render;
pub mod editor;

pub use cursor::{Key, Position, Size};
pub use document::{Document, Row};
pub use editor::{Editor, Outcome};
pub use render::{center_banner, welcome_message, Command};
