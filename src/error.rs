use vstd::prelude::*;

use crate::point::Point;

verus! {

/// Failures reported by the display frontends.
#[derive(Clone, Copy, Debug, PartialEq, Eq, Structural)]
pub enum Error {
    /// The transport could not deliver a write (bus NAK, device unavailable).
    CommunicationError,
    /// A custom-glyph index outside `0..=7`.
    CharOutOfBounds { index: u8 },
    /// A cursor position outside the screen.
    CursorOutOfBounds { cursor: Point, screen_dimensions: Point },
}

} // verus!
