//! Core of a terminal line editor with vi-style navigation.
//!
//! The crate owns the text buffer, the tab-aware rendering of rows, the
//! scrolling viewport arithmetic, and the vi-style motion state machine.
//! Terminal I/O, key decoding and file access live outside; they hand the
//! core plain values and take plain values back.

pub mod buffer;
pub mod cursor;
pub mod render;
pub mod row;
pub mod session;
pub mod text;
pub mod types;
pub mod viewport;

pub use buffer::TextBuffer;
pub use cursor::CursorNavigator;
pub use row::Row;
pub use session::EditorSession;
pub use types::EditorError;
pub use types::JumpCommand;
pub use types::MoveCommand;
pub use viewport::ViewportController;
