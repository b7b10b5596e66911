//! Errors and motion commands shared across the editor core.

use vstd::prelude::*;

verus! {

/// A caller handed the core a coordinate outside the current bounds.
#[derive(Clone, Copy, Debug, PartialEq, Eq, Structural)]
pub enum EditorError {
    /// A logical column outside the row's content.
    IndexOutOfRange,
    /// A row index at or past the number of rows.
    RowOutOfRange,
}

/// Simple cursor motions: single steps and line-boundary jumps.
#[derive(Clone, Copy, Debug, PartialEq, Eq, Structural)]
pub enum MoveCommand {
    /// One column left.
    Left,
    /// One column left, or to the end of the previous row at column zero.
    BackspaceLeft,
    /// One row down.
    Down,
    /// One row up.
    Up,
    /// One column right.
    Right,
    /// End of line: one past the last content character.
    LineEnd,
    /// Column zero.
    LineStart,
    /// First non-whitespace character of the line, or column zero.
    FirstNonBlank,
}

/// Page-relative motions that move the cursor and the scroll offset jointly.
#[derive(Clone, Copy, Debug, PartialEq, Eq, Structural)]
pub enum JumpCommand {
    /// Top of the viewport, no scroll.
    High,
    /// Bottom of the viewport, no scroll.
    Low,
    /// Half a screen down.
    HalfDown,
    /// Half a screen up.
    HalfUp,
    /// A full page down.
    FullDown,
    /// A full page up.
    FullUp,
}

} // verus!
