use vstd::prelude::*;

use crate::bus::{Bus, Transfer};

verus! {

/// Nanoseconds the controller needs after `Clear` or `Home`.
pub const LONG_COMMAND_SETTLE_NS: u32 = 1_000_000;

/// An instruction of the controller, encoded by [`Command::encode`].
#[derive(Clone, Copy, Debug, PartialEq, Eq, Structural)]
pub enum Command {
    Clear,
    Home,
    SetEntryMode { enable_shift: bool, increment_counter: bool },
    SetDisplayFlags { cursor_blinking: bool, cursor_visible: bool, text_visible: bool },
    SetFunctions { font_5x10: bool, height: u8, eight_bit_bus: bool },
    /// Selects custom glyph `index` (its first pattern row) in CGRAM.
    SetCGRamAddress { index: u8 },
    SetDDRamAddress { address: u8 },
}

/// `mask` when `flag` holds, else nothing.
pub open spec fn bit(flag: bool, mask: u8) -> u8 {
    if flag {
        mask
    } else {
        0
    }
}

impl Command {
    /// The instruction byte: the base opcode with the command's flag bits.
    pub open spec fn byte(self) -> u8 {
        match self {
            Command::Clear => 0x01,
            Command::Home => 0x02,
            Command::SetEntryMode { enable_shift, increment_counter } => 0x04 | bit(
                enable_shift,
                0x01,
            ) | bit(increment_counter, 0x02),
            Command::SetDisplayFlags { cursor_blinking, cursor_visible, text_visible } => 0x08
                | bit(cursor_blinking, 0x01) | bit(cursor_visible, 0x02) | bit(text_visible, 0x04),
            Command::SetFunctions { font_5x10, height, eight_bit_bus } => 0x20 | bit(
                font_5x10,
                0x04,
            ) | bit(height >= 2, 0x08) | bit(eight_bit_bus, 0x10),
            Command::SetCGRamAddress { index } => 0x40 | (index << 3u8),
            Command::SetDDRamAddress { address } => 0x80 | address,
        }
    }

    /// Whether the controller needs the long settle time after this command.
    pub open spec fn is_slow(self) -> bool {
        self is Clear || self is Home
    }

    /// What the bus carries for this command: its byte as a command, then the
    /// long settle time for `Clear` and `Home`.
    pub open spec fn transfers(self) -> Seq<Transfer> {
        let sent = seq![Transfer::Byte { value: self.byte(), as_data: false }];
        if self.is_slow() {
            sent.push(Transfer::Delay { ns: LONG_COMMAND_SETTLE_NS })
        } else {
            sent
        }
    }

    /// Sends the command over `bus`, waiting afterwards where the controller needs it.
    pub fn write<B: Bus>(self, bus: &mut B)
        requires
            old(bus).faithful(),
        ensures
            final(bus).faithful(),
            final(bus).history() == old(bus).history() + self.transfers(),
    {
        let byte = self.encode();
        bus.write_byte(byte, false);
        if self.needs_long_settle() {
            bus.delay_ns(LONG_COMMAND_SETTLE_NS);
        }
        proof {
            assert(bus.history() =~= old(bus).history() + self.transfers());
        }
    }

    /// Encodes the command into its instruction byte.
    pub fn encode(&self) -> (r: u8)
        ensures
            r == self.byte(),
    {
        match *self {
            Command::Clear => 0x01,
            Command::Home => 0x02,
            Command::SetEntryMode { enable_shift, increment_counter } => {
                0x04 | flag(enable_shift, 0x01) | flag(increment_counter, 0x02)
            },
            Command::SetDisplayFlags { cursor_blinking, cursor_visible, text_visible } => {
                0x08 | flag(cursor_blinking, 0x01) | flag(cursor_visible, 0x02) | flag(
                    text_visible,
                    0x04,
                )
            },
            Command::SetFunctions { font_5x10, height, eight_bit_bus } => {
                0x20 | flag(font_5x10, 0x04) | flag(height >= 2, 0x08) | flag(eight_bit_bus, 0x10)
            },
            Command::SetCGRamAddress { index } => 0x40 | (index << 3u8),
            Command::SetDDRamAddress { address } => 0x80 | address,
        }
    }

    /// Whether this command needs the long settle time after transmission.
    pub fn needs_long_settle(&self) -> (r: bool)
        ensures
            r == self.is_slow(),
    {
        match *self {
            Command::Clear | Command::Home => true,
            _ => false,
        }
    }
}

fn flag(on: bool, mask: u8) -> (r: u8)
    ensures
        r == bit(on, mask),
{
    if on {
        mask
    } else {
        0
    }
}

/// Address commands round-trip: a DDRAM address below `0x80` encodes as
/// `0x80 | address` and is read back from the low seven bits; a glyph index
/// below 8 encodes as `0x40 | (index << 3)` and is read back from bits 3 to 5.
pub proof fn lemma_address_round_trip(address: u8, index: u8)
    requires
        address < 0x80,
        index < 8,
    ensures
        (Command::SetDDRamAddress { address }).byte() == 0x80 | address,
        (Command::SetDDRamAddress { address }).byte() & 0x80 == 0x80,
        (Command::SetDDRamAddress { address }).byte() & 0x7f == address,
        (Command::SetCGRamAddress { index }).byte() == 0x40 | (index << 3u8),
        (Command::SetCGRamAddress { index }).byte() & 0xc7 == 0x40,
        ((Command::SetCGRamAddress { index }).byte() >> 3u8) & 0x07 == index,
{
    assert((0x80u8 | address) & 0x80 == 0x80 && (0x80u8 | address) & 0x7f == address)
        by (bit_vector)
        requires
            address < 0x80,
    ;
    assert((0x40u8 | (index << 3u8)) & 0xc7 == 0x40 && ((0x40u8 | (index << 3u8)) >> 3u8) & 0x07
        == index) by (bit_vector)
        requires
            index < 8,
    ;
}

} // verus!
