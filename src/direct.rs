use vstd::prelude::*;

use crate::bus::{initialize, init_transfers, Bus, BusSize, Signal, Transfer};
use crate::command::Command;
use crate::error::Error;
use crate::point::Point;
use crate::properties::{Font, Properties};
use crate::Lcd;

verus! {

/// The display switches mirrored from the controller's display register.
#[derive(Clone, Copy, Debug, PartialEq, Eq, Structural)]
pub struct DisplayFlags {
    pub cursor_blinking: bool,
    pub cursor_visible: bool,
    pub text_visible: bool,
}

/// Flags after construction: text shown, no cursor.
pub open spec fn default_flags() -> DisplayFlags {
    DisplayFlags { cursor_blinking: false, cursor_visible: false, text_visible: true }
}

/// DDRAM address of the first cell of line `y`.
pub open spec fn row_start(y: u8) -> u8 {
    if y == 0 {
        0x00
    } else if y == 1 {
        0x40
    } else if y == 2 {
        0x14
    } else {
        0x54
    }
}

/// DDRAM address of cell `p`.
pub open spec fn ddram_address(p: Point) -> u8 {
    (row_start(p.y) + p.x) as u8
}

/// The command that pushes `flags` to the controller.
pub open spec fn flags_command(flags: DisplayFlags) -> Command {
    Command::SetDisplayFlags {
        cursor_blinking: flags.cursor_blinking,
        cursor_visible: flags.cursor_visible,
        text_visible: flags.text_visible,
    }
}

/// The commands that configure the controller after the handshake: function
/// set, entry mode (increment, no shift), display flags.
pub open spec fn setup_transfers(properties: Properties, size: BusSize) -> Seq<Transfer> {
    (Command::SetFunctions {
        font_5x10: properties.font == Font::Font5x10,
        height: properties.dimensions.y,
        eight_bit_bus: size == BusSize::EightBit,
    }).transfers() + (Command::SetEntryMode {
        enable_shift: false,
        increment_counter: true,
    }).transfers() + flags_command(default_flags()).transfers()
}

/// Each byte of `bytes` written as data.
pub open spec fn data_transfers(bytes: Seq<u8>) -> Seq<Transfer> {
    bytes.map_values(|b: u8| Transfer::Byte { value: b, as_data: true })
}

/// The character codes that text prints: the low byte of each character.
pub open spec fn text_bytes(text: Seq<char>) -> Seq<u8> {
    text.map_values(|c: char| c as u8)
}

/// The unbuffered frontend: each call turns into bus transfers at once.
pub struct DirectLcd<B: Bus> {
    bus: B,
    properties: Properties,
    flags: DisplayFlags,
}

impl<B: Bus> DirectLcd<B> {
    pub closed spec fn history(&self) -> Seq<Transfer> {
        self.bus.history()
    }

    pub closed spec fn pending(&self) -> Seq<Signal> {
        self.bus.pending()
    }

    pub closed spec fn properties(&self) -> Properties {
        self.properties
    }

    pub closed spec fn flags(&self) -> DisplayFlags {
        self.flags
    }

    /// The bus, with every transfer made so far.
    pub closed spec fn bus(&self) -> B {
        self.bus
    }

    /// A well-formed frontend drives a supported panel over a faithful bus,
    /// whose transfers and pending signals are the frontend's.
    pub proof fn lemma_wf(&self)
        requires
            self.wf(),
        ensures
            self.properties().supported(),
            self.bus().faithful(),
            self.dims() == self.properties().dimensions,
            self.history() == self.bus().history(),
            self.pending() == self.bus().pending(),
    {
    }

    /// Takes the bus, runs the power-on handshake and configures the controller
    /// for the given panel.
    pub fn new(bus: B, properties: Properties) -> (r: Self)
        requires
            properties.supported(),
            bus.faithful(),
        ensures
            r.history() == bus.history() + init_transfers() + setup_transfers(
                properties,
                bus.size_spec(),
            ),
            r.properties() == properties,
            r.flags() == default_flags(),
            r.dims() == properties.dimensions,
            r.wf(),
    {
        let mut bus = bus;
        let size = bus.size();
        initialize(&mut bus);
        Command::SetFunctions {
            font_5x10: properties.font == Font::Font5x10,
            height: properties.dimensions.y,
            eight_bit_bus: size == BusSize::EightBit,
        }.write(&mut bus);
        Command::SetEntryMode { enable_shift: false, increment_counter: true }.write(&mut bus);
        let flags = DisplayFlags { cursor_blinking: false, cursor_visible: false, text_visible: true };
        Command::SetDisplayFlags {
            cursor_blinking: flags.cursor_blinking,
            cursor_visible: flags.cursor_visible,
            text_visible: flags.text_visible,
        }.write(&mut bus);
        DirectLcd { bus, properties, flags }
    }

    fn push_display_flags(&mut self)
        requires
            old(self).wf(),
        ensures
            final(self).wf(),
            final(self).history() == old(self).history() + flags_command(
                old(self).flags(),
            ).transfers(),
            final(self).properties() == old(self).properties(),
            final(self).flags() == old(self).flags(),
    {
        Command::SetDisplayFlags {
            cursor_blinking: self.flags.cursor_blinking,
            cursor_visible: self.flags.cursor_visible,
            text_visible: self.flags.text_visible,
        }.write(&mut self.bus);
    }

    /// Hands out the physical signals produced so far, for the hardware to perform.
    pub fn take_signals(&mut self) -> (r: Vec<Signal>)
        requires
            old(self).wf(),
        ensures
            final(self).wf(),
            r@ == old(self).pending(),
            final(self).pending() == Seq::<Signal>::empty(),
            final(self).history() == old(self).history(),
            final(self).dims() == old(self).dims(),
            final(self).properties() == old(self).properties(),
            final(self).flags() == old(self).flags(),
    {
        self.bus.take_signals()
    }
}

fn row_start_of(y: u8) -> (r: u8)
    ensures
        r == row_start(y),
{
    if y == 0 {
        0x00
    } else if y == 1 {
        0x40
    } else if y == 2 {
        0x14
    } else {
        0x54
    }
}

impl<B: Bus> Lcd for DirectLcd<B> {
    closed spec fn dims(&self) -> Point {
        self.properties.dimensions
    }

    closed spec fn wf(&self) -> bool {
        self.properties.supported() && self.bus.faithful()
    }

    fn clear(&mut self) -> (r: Result<(), Error>)
        ensures
            r is Ok,
            final(self).history() == old(self).history() + Command::Clear.transfers(),
            final(self).properties() == old(self).properties(),
            final(self).flags() == old(self).flags(),
    {
        Command::Clear.write(&mut self.bus);
        Ok(())
    }

    fn home(&mut self) -> (r: Result<(), Error>)
        ensures
            r is Ok,
            final(self).history() == old(self).history() + Command::Home.transfers(),
            final(self).properties() == old(self).properties(),
            final(self).flags() == old(self).flags(),
    {
        Command::Home.write(&mut self.bus);
        Ok(())
    }

    fn goto(&mut self, p: Point) -> (r: Result<(), Error>)
        ensures
            p.inside(old(self).dims()) ==> final(self).history() == old(self).history() + (
            Command::SetDDRamAddress { address: ddram_address(p) }).transfers(),
            !p.inside(old(self).dims()) ==> *final(self) == *old(self),
            final(self).properties() == old(self).properties(),
            final(self).flags() == old(self).flags(),
    {
        let dimensions = self.properties.dimensions;
        if !(p.x < dimensions.x && p.y < dimensions.y) {
            return Err(Error::CursorOutOfBounds { cursor: p, screen_dimensions: dimensions });
        }
        let address = row_start_of(p.y) + p.x;
        Command::SetDDRamAddress { address }.write(&mut self.bus);
        Ok(())
    }

    fn print(&mut self, text: &str) -> (r: Result<(), Error>)
        ensures
            r is Ok,
            final(self).history() == old(self).history() + data_transfers(text_bytes(text@)),
            final(self).properties() == old(self).properties(),
            final(self).flags() == old(self).flags(),
    {
        let n = text.unicode_len();
        let mut i: usize = 0;
        while i < n
            invariant
                n == text@.len(),
                0 <= i <= n,
                self.history() == old(self).history() + data_transfers(
                    text_bytes(text@.take(i as int)),
                ),
                self.bus.faithful(),
                self.properties() == old(self).properties(),
                self.flags() == old(self).flags(),
            decreases n - i,
        {
            let ch = text.get_char(i);
            self.bus.write_byte(ch as u8, true);
            proof {
                assert(text@.take(i + 1) =~= text@.take(i as int).push(ch));
                assert(data_transfers(text_bytes(text@.take(i + 1))) =~= data_transfers(
                    text_bytes(text@.take(i as int)),
                ).push(Transfer::Byte { value: ch as u8, as_data: true }));
            }
            i = i + 1;
        }
        proof {
            assert(text@.take(n as int) =~= text@);
        }
        Ok(())
    }

    fn print_char(&mut self, ch: u8) -> (r: Result<(), Error>)
        ensures
            r is Ok,
            final(self).history() == old(self).history().push(
                Transfer::Byte { value: ch, as_data: true },
            ),
            final(self).properties() == old(self).properties(),
            final(self).flags() == old(self).flags(),
    {
        self.bus.write_byte(ch, true);
        Ok(())
    }

    fn enable_backlight(&mut self, enabled: bool) -> (r: Result<(), Error>)
        ensures
            r is Ok,
            final(self).history() == old(self).history().push(Transfer::Backlight { enabled }),
            final(self).properties() == old(self).properties(),
            final(self).flags() == old(self).flags(),
    {
        self.bus.set_backlight(enabled);
        Ok(())
    }

    fn enable_cursor_box_blinking(&mut self, enabled: bool) -> (r: Result<(), Error>)
        ensures
            r is Ok,
            final(self).flags() == (DisplayFlags { cursor_blinking: enabled, ..old(self).flags() }),
            final(self).history() == old(self).history() + flags_command(
                final(self).flags(),
            ).transfers(),
            final(self).properties() == old(self).properties(),
    {
        self.flags.cursor_blinking = enabled;
        self.push_display_flags();
        Ok(())
    }

    fn enable_cursor_line_blinking(&mut self, enabled: bool) -> (r: Result<(), Error>)
        ensures
            r is Ok,
            final(self).flags() == (DisplayFlags { cursor_visible: enabled, ..old(self).flags() }),
            final(self).history() == old(self).history() + flags_command(
                final(self).flags(),
            ).transfers(),
            final(self).properties() == old(self).properties(),
    {
        self.flags.cursor_visible = enabled;
        self.push_display_flags();
        Ok(())
    }

    fn enable_text(&mut self, enabled: bool) -> (r: Result<(), Error>)
        ensures
            r is Ok,
            final(self).flags() == (DisplayFlags { text_visible: enabled, ..old(self).flags() }),
            final(self).history() == old(self).history() + flags_command(
                final(self).flags(),
            ).transfers(),
            final(self).properties() == old(self).properties(),
    {
        self.flags.text_visible = enabled;
        self.push_display_flags();
        Ok(())
    }

    fn create_char(&mut self, index: u8, bitmap: [u8; 8]) -> (r: Result<(), Error>)
        ensures
            index <= 7 ==> final(self).history() == old(self).history() + (
            Command::SetCGRamAddress { index }).transfers() + data_transfers(bitmap@),
            index > 7 ==> *final(self) == *old(self),
            final(self).properties() == old(self).properties(),
            final(self).flags() == old(self).flags(),
    {
        if index > 7 {
            return Err(Error::CharOutOfBounds { index });
        }
        Command::SetCGRamAddress { index }.write(&mut self.bus);
        let ghost start = self.history();
        let mut i: usize = 0;
        while i < 8
            invariant
                0 <= i <= 8,
                bitmap@.len() == 8,
                self.history() == start + data_transfers(bitmap@.take(i as int)),
                self.bus.faithful(),
                self.properties() == old(self).properties(),
                self.flags() == old(self).flags(),
            decreases 8 - i,
        {
            self.bus.write_byte(bitmap[i], true);
            proof {
                assert(bitmap@.take(i + 1) =~= bitmap@.take(i as int).push(bitmap@[i as int]));
                assert(data_transfers(bitmap@.take(i + 1)) =~= data_transfers(
                    bitmap@.take(i as int),
                ).push(Transfer::Byte { value: bitmap@[i as int], as_data: true }));
            }
            i = i + 1;
        }
        proof {
            assert(bitmap@.take(8) =~= bitmap@);
        }
        Ok(())
    }

    fn dimensions(&self) -> (r: Point) {
        self.properties.dimensions
    }
}

} // verus!
