use vstd::prelude::*;

verus! {

/// Nanoseconds to wait after each nibble of the initialization handshake.
pub const INIT_SETTLE_NS: u32 = 100_000;

/// Shortest time, in nanoseconds, that data and RS lines settle before Enable rises.
pub const MIN_SETUP_NS: u32 = 1_000;

/// Shortest Enable pulse, in nanoseconds.
pub const MIN_PULSE_NS: u32 = 450;

/// Shortest time, in nanoseconds, that the controller needs to latch and run a nibble.
pub const MIN_SETTLE_NS: u32 = 37_000;

/// Width of the data path between the transport and the controller.
#[derive(Clone, Copy, Debug, PartialEq, Eq, Structural)]
pub enum BusSize {
    FourBit,
    EightBit,
}

/// One logical operation handed to a bus.
#[derive(Clone, Copy, Debug, PartialEq, Eq, Structural)]
pub enum Transfer {
    /// A lone nibble (low four bits of `value`) sent as a command; used by the handshake.
    Nibble { value: u8 },
    /// A full byte, sent as data (`as_data`) or as a command.
    Byte { value: u8, as_data: bool },
    /// Switches the backlight.
    Backlight { enabled: bool },
    /// Waits the given number of nanoseconds.
    Delay { ns: u32 },
}

/// An output line of the parallel (GPIO) wiring.
#[derive(Clone, Copy, Debug, PartialEq, Eq, Structural)]
pub enum Line {
    D4,
    D5,
    D6,
    D7,
    Rs,
    Enable,
    Backlight,
}

/// One physical step that a transport performs on the hardware.
#[derive(Clone, Copy, Debug, PartialEq, Eq, Structural)]
pub enum Signal {
    /// Drives a GPIO line high or low.
    Pin { line: Line, high: bool },
    /// Writes one byte to the I2C expander.
    Send { byte: u8 },
    /// Waits the given number of nanoseconds.
    Wait { ns: u32 },
}

/// Per-nibble timing of a transport, in nanoseconds.
#[derive(Clone, Copy, Debug, PartialEq, Eq, Structural)]
pub struct Timing {
    /// Settle time of data and RS lines before Enable rises.
    pub setup_ns: u32,
    /// Length of the Enable pulse.
    pub pulse_ns: u32,
    /// Wait after Enable falls.
    pub settle_ns: u32,
}

pub open spec fn at_least(value: u32, minimum: u32) -> u32 {
    if value < minimum {
        minimum
    } else {
        value
    }
}

impl Timing {
    /// Timing that meets the controller's minimums.
    pub open spec fn meets_minimums(self) -> bool {
        self.setup_ns >= MIN_SETUP_NS && self.pulse_ns >= MIN_PULSE_NS && self.settle_ns
            >= MIN_SETTLE_NS
    }

    /// The controller's minimum timing.
    pub fn standard() -> (r: Timing)
        ensures
            r.setup_ns == MIN_SETUP_NS,
            r.pulse_ns == MIN_PULSE_NS,
            r.settle_ns == MIN_SETTLE_NS,
    {
        Timing { setup_ns: MIN_SETUP_NS, pulse_ns: MIN_PULSE_NS, settle_ns: MIN_SETTLE_NS }
    }

    /// This timing with each wait raised to the controller's minimum: delays
    /// can be lengthened, never dropped.
    pub fn normalized(&self) -> (r: Timing)
        ensures
            r.setup_ns == at_least(self.setup_ns, MIN_SETUP_NS),
            r.pulse_ns == at_least(self.pulse_ns, MIN_PULSE_NS),
            r.settle_ns == at_least(self.settle_ns, MIN_SETTLE_NS),
            r.meets_minimums(),
    {
        Timing {
            setup_ns: if self.setup_ns < MIN_SETUP_NS {
                MIN_SETUP_NS
            } else {
                self.setup_ns
            },
            pulse_ns: if self.pulse_ns < MIN_PULSE_NS {
                MIN_PULSE_NS
            } else {
                self.pulse_ns
            },
            settle_ns: if self.settle_ns < MIN_SETTLE_NS {
                MIN_SETTLE_NS
            } else {
                self.settle_ns
            },
        }
    }
}

/// The power-on handshake: nibbles `0x3, 0x3, 0x3, 0x2`, each followed by
/// the init settle time.
pub open spec fn init_transfers() -> Seq<Transfer> {
    seq![
        Transfer::Nibble { value: 0x3 },
        Transfer::Delay { ns: INIT_SETTLE_NS },
        Transfer::Nibble { value: 0x3 },
        Transfer::Delay { ns: INIT_SETTLE_NS },
        Transfer::Nibble { value: 0x3 },
        Transfer::Delay { ns: INIT_SETTLE_NS },
        Transfer::Nibble { value: 0x2 },
        Transfer::Delay { ns: INIT_SETTLE_NS },
    ]
}

/// A transport to the controller. `history` is every transfer made since
/// construction; `pending` the physical signals not yet taken for the hardware.
pub trait Bus {
    spec fn history(&self) -> Seq<Transfer>;

    spec fn pending(&self) -> Seq<Signal>;

    spec fn size_spec(&self) -> BusSize;

    /// The signals produced so far, taken or pending, are exactly this
    /// transport's encoding of `history`.
    spec fn faithful(&self) -> bool;

    /// Sends the low four bits of `value` as one command nibble.
    fn write_nibble(&mut self, value: u8)
        requires
            old(self).faithful(),
            value < 16,
        ensures
            final(self).faithful(),
            final(self).history() == old(self).history().push(Transfer::Nibble { value }),
    ;

    /// Sends a byte, as data when `as_data` holds, else as a command.
    fn write_byte(&mut self, value: u8, as_data: bool)
        requires
            old(self).faithful(),
        ensures
            final(self).faithful(),
            final(self).history() == old(self).history().push(
                Transfer::Byte { value, as_data },
            ),
    ;

    /// Switches the backlight, where the transport has one.
    fn set_backlight(&mut self, enabled: bool)
        requires
            old(self).faithful(),
        ensures
            final(self).faithful(),
            final(self).history() == old(self).history().push(Transfer::Backlight { enabled }),
    ;

    /// Waits `ns` nanoseconds before the next transfer.
    fn delay_ns(&mut self, ns: u32)
        requires
            old(self).faithful(),
        ensures
            final(self).faithful(),
            final(self).history() == old(self).history().push(Transfer::Delay { ns }),
    ;

    /// The width of the data path.
    fn size(&self) -> (r: BusSize)
        ensures
            r == self.size_spec(),
    ;

    /// Hands out the pending signals, in order, and forgets them.
    fn take_signals(&mut self) -> (r: Vec<Signal>)
        requires
            old(self).faithful(),
        ensures
            final(self).faithful(),
            r@ == old(self).pending(),
            final(self).pending() == Seq::<Signal>::empty(),
            final(self).history() == old(self).history(),
    ;
}

/// Runs the power-on handshake, which puts the controller in 4-bit mode from
/// any prior state.
pub fn initialize<B: Bus>(bus: &mut B)
    requires
        old(bus).faithful(),
    ensures
        final(bus).faithful(),
        final(bus).history() == old(bus).history() + init_transfers(),
{
    let nibbles: [u8; 4] = [0x3, 0x3, 0x3, 0x2];
    let mut i: usize = 0;
    while i < 4
        invariant
            0 <= i <= 4,
            nibbles@ == seq![0x3u8, 0x3u8, 0x3u8, 0x2u8],
            bus.history() == old(bus).history() + init_transfers().take(2 * i as int),
            bus.faithful(),
        decreases 4 - i,
    {
        bus.write_nibble(nibbles[i]);
        bus.delay_ns(INIT_SETTLE_NS);
        proof {
            assert(init_transfers().take(2 * (i + 1) as int) =~= init_transfers().take(
                2 * i as int,
            ).push(init_transfers()[2 * i as int]).push(init_transfers()[2 * i + 1]));
        }
        i = i + 1;
    }
    proof {
        assert(init_transfers().take(8) =~= init_transfers());
    }
}

} // verus!
