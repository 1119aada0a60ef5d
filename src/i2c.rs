use vstd::prelude::*;

use crate::bus::{Bus, BusSize, Signal, Timing, Transfer, at_least, MIN_PULSE_NS, MIN_SETTLE_NS, MIN_SETUP_NS};
use crate::command::bit;

verus! {

/// Expander line `Rs`: set for data, clear for commands.
pub const RS_MASK: u8 = 0b0000_0001;

/// Expander line `Enable`, pulsed to latch a nibble.
pub const ENABLE_MASK: u8 = 0b0000_0100;

/// Expander line of the backlight.
pub const BACKLIGHT_MASK: u8 = 0b0000_1000;

/// The low expander lines that go with a byte: backlight and RS.
pub open spec fn control_bits(as_data: bool, backlight: bool) -> u8 {
    bit(backlight, BACKLIGHT_MASK) | bit(as_data, RS_MASK)
}

/// One expander byte latched into the controller: written with Enable high,
/// then again with Enable low, each followed by its wait.
pub open spec fn latch_signals(frame: u8, timing: Timing) -> Seq<Signal> {
    seq![
        Signal::Send { byte: frame | ENABLE_MASK },
        Signal::Wait { ns: timing.pulse_ns },
        Signal::Send { byte: frame & !ENABLE_MASK },
        Signal::Wait { ns: timing.settle_ns },
    ]
}

/// A byte through the expander: high nibble, then low nibble, each on lines
/// D4..D7 together with the control bits.
pub open spec fn byte_signals(value: u8, as_data: bool, backlight: bool, timing: Timing) -> Seq<
    Signal,
> {
    latch_signals((value & 0xf0) | control_bits(as_data, backlight), timing) + latch_signals(
        ((value << 4u8) & 0xf0) | control_bits(as_data, backlight),
        timing,
    )
}

/// A lone handshake nibble: the nibble on D4..D7 and no control bit.
pub open spec fn nibble_signals(value: u8, timing: Timing) -> Seq<Signal> {
    latch_signals((value << 4u8) & 0xf0, timing)
}

/// The backlight state after `ts`: the last switch among them, on when there
/// was none.
pub open spec fn backlight_after(ts: Seq<Transfer>) -> bool
    decreases ts.len(),
{
    if ts.len() == 0 {
        true
    } else {
        match ts.last() {
            Transfer::Backlight { enabled } => enabled,
            _ => backlight_after(ts.drop_last()),
        }
    }
}

/// The signals of one transfer through the expander, with the backlight in
/// state `backlight` before it. Switching the backlight sends a dummy
/// command byte `0` that carries the new state.
pub open spec fn transfer_signals(t: Transfer, backlight: bool, timing: Timing) -> Seq<Signal> {
    match t {
        Transfer::Nibble { value } => nibble_signals(value, timing),
        Transfer::Byte { value, as_data } => byte_signals(value, as_data, backlight, timing),
        Transfer::Backlight { enabled } => byte_signals(0, false, enabled, timing),
        Transfer::Delay { ns } => seq![Signal::Wait { ns }],
    }
}

/// The signals of a sequence of transfers through the expander, in order,
/// starting with the backlight on.
pub open spec fn encode_all(ts: Seq<Transfer>, timing: Timing) -> Seq<Signal>
    decreases ts.len(),
{
    if ts.len() == 0 {
        Seq::empty()
    } else {
        encode_all(ts.drop_last(), timing) + transfer_signals(
            ts.last(),
            backlight_after(ts.drop_last()),
            timing,
        )
    }
}

/// The I2C transport through a PCF8574 expander, whose eight lines are
/// `D7 D6 D5 D4 | Backlight Enable RW Rs`.
pub struct I2cBus {
    backlight: bool,
    timing: Timing,
    signals: Vec<Signal>,
    taken: Ghost<Seq<Signal>>,
    history: Ghost<Seq<Transfer>>,
}

impl I2cBus {
    pub closed spec fn timing(&self) -> Timing {
        self.timing
    }

    /// The backlight state that every write carries.
    pub closed spec fn backlight_on(&self) -> bool {
        self.backlight
    }

    /// Every signal produced since construction, taken or pending.
    pub closed spec fn produced(&self) -> Seq<Signal> {
        self.taken@ + self.signals@
    }

    proof fn lemma_push(self, t: Transfer)
        ensures
            encode_all(self.history@.push(t), self.timing) == encode_all(self.history@, self.timing)
                + transfer_signals(t, backlight_after(self.history@), self.timing),
            backlight_after(self.history@.push(t)) == match t {
                Transfer::Backlight { enabled } => enabled,
                _ => backlight_after(self.history@),
            },
    {
        assert(self.history@.push(t).drop_last() =~= self.history@);
    }

    /// A bus with the backlight on and the given timing, each wait raised to
    /// the controller's minimum.
    pub fn new(timing: Timing) -> (r: I2cBus)
        ensures
            r.history() == Seq::<Transfer>::empty(),
            r.pending() == Seq::<Signal>::empty(),
            r.produced() == Seq::<Signal>::empty(),
            r.faithful(),
            r.backlight_on(),
            r.timing().setup_ns == at_least(timing.setup_ns, MIN_SETUP_NS),
            r.timing().pulse_ns == at_least(timing.pulse_ns, MIN_PULSE_NS),
            r.timing().settle_ns == at_least(timing.settle_ns, MIN_SETTLE_NS),
    {
        I2cBus {
            backlight: true,
            timing: timing.normalized(),
            signals: Vec::new(),
            taken: Ghost(Seq::empty()),
            history: Ghost(Seq::empty()),
        }
    }

    fn push_latch(&mut self, frame: u8)
        ensures
            final(self).signals@ == old(self).signals@ + latch_signals(frame, old(self).timing),
            final(self).timing == old(self).timing,
            final(self).backlight == old(self).backlight,
            final(self).history == old(self).history,
            final(self).taken == old(self).taken,
    {
        let timing = self.timing;
        self.signals.push(Signal::Send { byte: frame | ENABLE_MASK });
        self.signals.push(Signal::Wait { ns: timing.pulse_ns });
        self.signals.push(Signal::Send { byte: frame & !ENABLE_MASK });
        self.signals.push(Signal::Wait { ns: timing.settle_ns });
        proof {
            assert(self.signals@ =~= old(self).signals@ + latch_signals(frame, timing));
        }
    }

    fn push_byte(&mut self, value: u8, as_data: bool)
        ensures
            final(self).signals@ == old(self).signals@ + byte_signals(
                value,
                as_data,
                old(self).backlight,
                old(self).timing,
            ),
            final(self).timing == old(self).timing,
            final(self).backlight == old(self).backlight,
            final(self).history == old(self).history,
            final(self).taken == old(self).taken,
    {
        let control = if self.backlight {
            BACKLIGHT_MASK
        } else {
            0
        } | if as_data {
            RS_MASK
        } else {
            0
        };
        self.push_latch((value & 0xf0) | control);
        self.push_latch(((value << 4) & 0xf0) | control);
        proof {
            assert(self.signals@ =~= old(self).signals@ + byte_signals(
                value,
                as_data,
                self.backlight,
                self.timing,
            ));
        }
    }
}

impl Bus for I2cBus {
    closed spec fn history(&self) -> Seq<Transfer> {
        self.history@
    }

    closed spec fn pending(&self) -> Seq<Signal> {
        self.signals@
    }

    closed spec fn size_spec(&self) -> BusSize {
        BusSize::FourBit
    }

    open spec fn faithful(&self) -> bool {
        &&& self.produced() == encode_all(self.history(), self.timing())
        &&& self.backlight_on() == backlight_after(self.history())
    }

    fn write_nibble(&mut self, value: u8)
        ensures
            final(self).pending() == old(self).pending() + nibble_signals(
                value,
                old(self).timing(),
            ),
            final(self).timing() == old(self).timing(),
            final(self).backlight_on() == old(self).backlight_on(),
    {
        proof {
            old(self).lemma_push(Transfer::Nibble { value });
        }
        self.push_latch((value << 4) & 0xf0);
        self.history = Ghost(self.history@.push(Transfer::Nibble { value }));
        proof {
            assert(self.produced() =~= old(self).produced() + nibble_signals(value, self.timing));
        }
    }

    fn write_byte(&mut self, value: u8, as_data: bool)
        ensures
            final(self).pending() == old(self).pending() + byte_signals(
                value,
                as_data,
                old(self).backlight_on(),
                old(self).timing(),
            ),
            final(self).timing() == old(self).timing(),
            final(self).backlight_on() == old(self).backlight_on(),
    {
        proof {
            old(self).lemma_push(Transfer::Byte { value, as_data });
        }
        self.push_byte(value, as_data);
        self.history = Ghost(self.history@.push(Transfer::Byte { value, as_data }));
        proof {
            assert(self.produced() =~= old(self).produced() + byte_signals(
                value,
                as_data,
                self.backlight,
                self.timing,
            ));
        }
    }

    /// Records the new backlight state and makes it visible at once with a
    /// dummy command byte `0`, which carries the backlight bit.
    fn set_backlight(&mut self, enabled: bool)
        ensures
            final(self).pending() == old(self).pending() + byte_signals(
                0,
                false,
                enabled,
                old(self).timing(),
            ),
            final(self).timing() == old(self).timing(),
            final(self).backlight_on() == enabled,
    {
        proof {
            old(self).lemma_push(Transfer::Backlight { enabled });
        }
        self.backlight = enabled;
        self.push_byte(0, false);
        self.history = Ghost(self.history@.push(Transfer::Backlight { enabled }));
        proof {
            assert(self.produced() =~= old(self).produced() + byte_signals(
                0,
                false,
                enabled,
                self.timing,
            ));
        }
    }

    fn delay_ns(&mut self, ns: u32)
        ensures
            final(self).pending() == old(self).pending().push(Signal::Wait { ns }),
            final(self).timing() == old(self).timing(),
            final(self).backlight_on() == old(self).backlight_on(),
    {
        proof {
            old(self).lemma_push(Transfer::Delay { ns });
        }
        self.signals.push(Signal::Wait { ns });
        self.history = Ghost(self.history@.push(Transfer::Delay { ns }));
        proof {
            assert(self.produced() =~= old(self).produced() + seq![Signal::Wait { ns }]);
        }
    }

    fn size(&self) -> (r: BusSize) {
        BusSize::FourBit
    }

    fn take_signals(&mut self) -> (r: Vec<Signal>)
        ensures
            final(self).timing() == old(self).timing(),
            final(self).backlight_on() == old(self).backlight_on(),
    {
        let mut taken: Vec<Signal> = Vec::new();
        std::mem::swap(&mut taken, &mut self.signals);
        self.taken = Ghost(self.taken@ + taken@);
        proof {
            assert(self.produced() =~= old(self).produced());
        }
        taken
    }
}

/// Switching the backlight costs one dummy command byte `0` whose four
/// expander writes all carry the new backlight bit and nothing else but Enable.
pub proof fn lemma_backlight_dummy_write(enabled: bool, timing: Timing)
    ensures
        byte_signals(0, false, enabled, timing) == seq![
            Signal::Send { byte: bit(enabled, BACKLIGHT_MASK) | ENABLE_MASK },
            Signal::Wait { ns: timing.pulse_ns },
            Signal::Send { byte: bit(enabled, BACKLIGHT_MASK) },
            Signal::Wait { ns: timing.settle_ns },
            Signal::Send { byte: bit(enabled, BACKLIGHT_MASK) | ENABLE_MASK },
            Signal::Wait { ns: timing.pulse_ns },
            Signal::Send { byte: bit(enabled, BACKLIGHT_MASK) },
            Signal::Wait { ns: timing.settle_ns },
        ],
{
    let b = bit(enabled, BACKLIGHT_MASK);
    assert(control_bits(false, enabled) == b | 0);
    assert(b == 0 || b == 8);
    assert((0u8 & 0xf0) | (b | 0u8) == b && ((0u8 << 4u8) & 0xf0) | (b | 0u8) == b && (b
        | 0x04u8) & !0x04u8 == b && b & !0x04u8 == b) by (bit_vector)
        requires
            b == 0 || b == 8,
    ;
    assert(latch_signals((0u8 & 0xf0) | control_bits(false, enabled), timing) =~= latch_signals(b, timing));
    assert(latch_signals(((0u8 << 4u8) & 0xf0) | control_bits(false, enabled), timing) =~= latch_signals(b, timing));
    assert(byte_signals(0, false, enabled, timing) =~= seq![
        Signal::Send { byte: b | ENABLE_MASK },
        Signal::Wait { ns: timing.pulse_ns },
        Signal::Send { byte: b },
        Signal::Wait { ns: timing.settle_ns },
        Signal::Send { byte: b | ENABLE_MASK },
        Signal::Wait { ns: timing.pulse_ns },
        Signal::Send { byte: b },
        Signal::Wait { ns: timing.settle_ns },
    ]);
}

} // verus!
