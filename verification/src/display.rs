//! The display as the node sees it: a panel that takes short texts.

use crate::error::DisplayError;
use vstd::prelude::*;

verus! {

/// A position on the panel, in pixels from its top-left corner.
#[derive(Clone, Copy, Debug, PartialEq, Eq, Structural)]
pub struct Point {
    pub x: i32,
    pub y: i32,
}

impl Point {
    /// The position `(x, y)`.
    pub fn new(x: i32, y: i32) -> (point: Point)
        ensures
            point == (Point { x, y }),
    {
        Point { x, y }
    }

    /// The origin of the panel, its top-left corner.
    pub fn zero() -> (point: Point)
        ensures
            point == (Point { x: 0, y: 0 }),
    {
        Point { x: 0, y: 0 }
    }
}

/// Where the live status is shown: the second text line, below the line at
/// the origin that keeps the boot message.
pub open spec fn status_position() -> Point {
    Point { x: 0, y: 16 }
}

/// The position of the live status line.
pub fn status_point() -> (point: Point)
    ensures
        point == status_position(),
{
    Point::new(0, 16)
}

/// A text panel.
///
/// Every operation renders into the panel's buffer and then commits the
/// buffer to the panel, so each successful call costs one transfer. A failure
/// of rendering or transfer comes back as a [`DisplayError`] that carries the
/// cause; nothing is retried.
pub trait Display: Sized {
    /// What the panel is reached through.
    type Transport;

    /// Takes the transport and brings the panel up.
    fn new(transport: Self::Transport) -> Self;

    /// Shows `text` at the origin of the panel, over what was there.
    fn print_next(&mut self, text: &str) -> Result<(), DisplayError>;

    /// Shows `text` at `point`, over what was there.
    fn print_at_position(&mut self, text: &str, point: Point) -> Result<(), DisplayError>;

    /// Blanks the whole panel.
    fn clear(&mut self) -> Result<(), DisplayError>;
}

} // verus!
