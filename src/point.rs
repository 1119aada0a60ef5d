use vstd::prelude::*;

use crate::error::Error;
use crate::Lcd;

verus! {

/// A character cell on the display: `x` is the column, `y` the row (both zero-based).
#[derive(Clone, Copy, Debug, PartialEq, Eq, Structural)]
pub struct Point {
    pub x: u8,
    pub y: u8,
}

impl Point {
    /// Whether this point lies inside a screen of the given dimensions.
    pub open spec fn inside(self, dimensions: Point) -> bool {
        self.x < dimensions.x && self.y < dimensions.y
    }

    /// Checks that this point lies on the screen of `lcd`.
    pub fn validate<L: Lcd>(&self, lcd: &L) -> (r: Result<(), Error>)
        ensures
            r is Ok <==> self.inside(lcd.dims()),
            !self.inside(lcd.dims()) ==> r == Err::<(), Error>(
                Error::CursorOutOfBounds { cursor: *self, screen_dimensions: lcd.dims() },
            ),
    {
        let dimensions = lcd.dimensions();
        if self.x < dimensions.x && self.y < dimensions.y {
            Ok(())
        } else {
            Err(Error::CursorOutOfBounds { cursor: *self, screen_dimensions: dimensions })
        }
    }
}

} // verus!
