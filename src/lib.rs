//! Driver for HD44780 character LCDs, over a 4-bit GPIO wiring or an I2C
//! (PCF8574) expander, with a direct and a buffered frontend.
use vstd::prelude::*;

pub mod buffered;
pub mod bus;
pub mod command;
pub mod direct;
pub mod error;
pub mod gpio;
pub mod i2c;
pub mod point;
pub mod properties;

pub use buffered::BufferedLcd;
pub use bus::{Bus, BusSize, Line, Signal, Timing, Transfer};
pub use command::Command;
pub use direct::{DirectLcd, DisplayFlags};
pub use error::Error;
pub use gpio::{GpioBus, Pins};
pub use i2c::I2cBus;
pub use point::Point;
pub use properties::{Font, Properties};

verus! {

/// The text and cursor interface shared by the direct and the buffered frontend.
pub trait Lcd {
    /// The screen's dimensions: `x` characters per line, `y` lines.
    spec fn dims(&self) -> Point;

    /// The frontend's internal invariant, which every operation keeps.
    spec fn wf(&self) -> bool;

    /// Clears the screen and moves the cursor to `(0, 0)`.
    fn clear(&mut self) -> (r: Result<(), Error>)
        requires
            old(self).wf(),
        ensures
            final(self).wf(),
            final(self).dims() == old(self).dims(),
    ;

    /// Moves the cursor to `(0, 0)`.
    fn home(&mut self) -> (r: Result<(), Error>)
        requires
            old(self).wf(),
        ensures
            final(self).wf(),
            final(self).dims() == old(self).dims(),
    ;

    /// Moves the cursor to `p`; fails, changing nothing, when `p` lies outside the screen.
    fn goto(&mut self, p: Point) -> (r: Result<(), Error>)
        requires
            old(self).wf(),
        ensures
            final(self).wf(),
            final(self).dims() == old(self).dims(),
            r is Ok <==> p.inside(old(self).dims()),
            !p.inside(old(self).dims()) ==> r == Err::<(), Error>(
                Error::CursorOutOfBounds { cursor: p, screen_dimensions: old(self).dims() },
            ),
    ;

    /// Prints each character of `text` (as its low byte) at the cursor.
    fn print(&mut self, text: &str) -> (r: Result<(), Error>)
        requires
            old(self).wf(),
        ensures
            final(self).wf(),
            final(self).dims() == old(self).dims(),
    ;

    /// Prints one character code at the cursor and advances the cursor.
    fn print_char(&mut self, ch: u8) -> (r: Result<(), Error>)
        requires
            old(self).wf(),
        ensures
            final(self).wf(),
            final(self).dims() == old(self).dims(),
    ;

    /// Switches the backlight.
    fn enable_backlight(&mut self, enabled: bool) -> (r: Result<(), Error>)
        requires
            old(self).wf(),
        ensures
            final(self).wf(),
            final(self).dims() == old(self).dims(),
    ;

    /// Switches blinking of the whole character box under the cursor.
    fn enable_cursor_box_blinking(&mut self, enabled: bool) -> (r: Result<(), Error>)
        requires
            old(self).wf(),
        ensures
            final(self).wf(),
            final(self).dims() == old(self).dims(),
    ;

    /// Switches the underline cursor.
    fn enable_cursor_line_blinking(&mut self, enabled: bool) -> (r: Result<(), Error>)
        requires
            old(self).wf(),
        ensures
            final(self).wf(),
            final(self).dims() == old(self).dims(),
    ;

    /// Shows or hides the whole text at once.
    fn enable_text(&mut self, enabled: bool) -> (r: Result<(), Error>)
        requires
            old(self).wf(),
        ensures
            final(self).wf(),
            final(self).dims() == old(self).dims(),
    ;

    /// Defines custom glyph `index` (0 to 7) from eight pattern rows; fails,
    /// changing nothing, for a larger index.
    fn create_char(&mut self, index: u8, bitmap: [u8; 8]) -> (r: Result<(), Error>)
        requires
            old(self).wf(),
        ensures
            final(self).wf(),
            final(self).dims() == old(self).dims(),
            r is Ok <==> index <= 7,
            index > 7 ==> r == Err::<(), Error>(Error::CharOutOfBounds { index }),
    ;

    /// The screen's dimensions.
    fn dimensions(&self) -> (r: Point)
        ensures
            r == self.dims(),
    ;
}

} // verus!
