use vstd::prelude::*;

use crate::point::Point;

verus! {

/// Character font of the panel.
#[derive(Clone, Copy, Debug, PartialEq, Eq, Structural)]
pub enum Font {
    Font5x8,
    Font5x10,
}

/// Most characters a controller line holds (its DDRAM line length).
pub const MAX_WIDTH: u8 = 40;

/// Most lines a controller addresses (one DDRAM start address per line).
pub const MAX_HEIGHT: u8 = 4;

/// Geometry and font of the attached panel, fixed at construction.
#[derive(Clone, Copy, Debug, PartialEq, Eq, Structural)]
pub struct Properties {
    /// `x`: characters per line; `y`: number of lines.
    pub dimensions: Point,
    pub font: Font,
}

impl Properties {
    /// A panel the driver can address: 1 to 40 columns, 1 to 4 lines, and the
    /// 5x10 font only on a one-line panel.
    pub open spec fn supported(self) -> bool {
        &&& 1 <= self.dimensions.x <= MAX_WIDTH
        &&& 1 <= self.dimensions.y <= MAX_HEIGHT
        &&& (self.font == Font::Font5x10 ==> self.dimensions.y == 1)
    }

    /// Tells whether these properties describe a supported panel.
    pub fn is_supported(&self) -> (r: bool)
        ensures
            r == self.supported(),
    {
        let five_by_ten = match self.font {
            Font::Font5x10 => true,
            Font::Font5x8 => false,
        };
        1 <= self.dimensions.x && self.dimensions.x <= MAX_WIDTH && 1 <= self.dimensions.y
            && self.dimensions.y <= MAX_HEIGHT && (!five_by_ten || self.dimensions.y == 1)
    }
}

} // verus!
