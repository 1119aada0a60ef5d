use vstd::prelude::*;

use crate::bus::{Bus, BusSize, Line, Signal, Timing, Transfer, at_least, MIN_PULSE_NS, MIN_SETTLE_NS, MIN_SETUP_NS};

verus! {

/// The signals that latch one nibble over the 4-bit parallel wiring: Enable
/// low, RS and D4..D7 driven, setup wait, then an Enable pulse and the settle wait.
pub open spec fn nibble_signals(nibble: u8, as_data: bool, timing: Timing) -> Seq<Signal> {
    seq![
        Signal::Pin { line: Line::Enable, high: false },
        Signal::Pin { line: Line::Rs, high: as_data },
        Signal::Pin { line: Line::D4, high: nibble & 0x01 != 0 },
        Signal::Pin { line: Line::D5, high: nibble & 0x02 != 0 },
        Signal::Pin { line: Line::D6, high: nibble & 0x04 != 0 },
        Signal::Pin { line: Line::D7, high: nibble & 0x08 != 0 },
        Signal::Wait { ns: timing.setup_ns },
        Signal::Pin { line: Line::Enable, high: true },
        Signal::Wait { ns: timing.pulse_ns },
        Signal::Pin { line: Line::Enable, high: false },
        Signal::Wait { ns: timing.settle_ns },
    ]
}

/// A byte over the parallel wiring: high nibble first, then low nibble.
pub open spec fn byte_signals(value: u8, as_data: bool, timing: Timing) -> Seq<Signal> {
    nibble_signals(value >> 4u8, as_data, timing) + nibble_signals(value & 0x0f, as_data, timing)
}

/// The signals of one transfer over the parallel wiring.
pub open spec fn transfer_signals(t: Transfer, backlight_wired: bool, timing: Timing) -> Seq<Signal> {
    match t {
        Transfer::Nibble { value } => nibble_signals(value, false, timing),
        Transfer::Byte { value, as_data } => byte_signals(value, as_data, timing),
        Transfer::Backlight { enabled } => if backlight_wired {
            seq![Signal::Pin { line: Line::Backlight, high: enabled }]
        } else {
            Seq::empty()
        },
        Transfer::Delay { ns } => seq![Signal::Wait { ns }],
    }
}

/// The signals of a sequence of transfers over the parallel wiring, in order.
pub open spec fn encode_all(ts: Seq<Transfer>, backlight_wired: bool, timing: Timing) -> Seq<
    Signal,
>
    decreases ts.len(),
{
    if ts.len() == 0 {
        Seq::empty()
    } else {
        encode_all(ts.drop_last(), backlight_wired, timing) + transfer_signals(
            ts.last(),
            backlight_wired,
            timing,
        )
    }
}

/// Wiring of the parallel transport: the pin number behind each line.
#[derive(Clone, Copy, Debug)]
pub struct Pins {
    /// Pins of D4, D5, D6 and D7.
    pub data: [u8; 4],
    /// Register-select pin.
    pub rs: u8,
    /// Enable pin.
    pub en: u8,
    /// Backlight pin, where one is wired.
    pub backlight: Option<u8>,
}

impl Pins {
    /// The pin behind `line`, or `None` for an unwired backlight.
    pub fn pin_for(&self, line: Line) -> (r: Option<u8>)
        ensures
            r == match line {
                Line::D4 => Some(self.data@[0]),
                Line::D5 => Some(self.data@[1]),
                Line::D6 => Some(self.data@[2]),
                Line::D7 => Some(self.data@[3]),
                Line::Rs => Some(self.rs),
                Line::Enable => Some(self.en),
                Line::Backlight => self.backlight,
            },
    {
        match line {
            Line::D4 => Some(self.data[0]),
            Line::D5 => Some(self.data[1]),
            Line::D6 => Some(self.data[2]),
            Line::D7 => Some(self.data[3]),
            Line::Rs => Some(self.rs),
            Line::Enable => Some(self.en),
            Line::Backlight => self.backlight,
        }
    }
}

/// The 4-bit parallel transport: data lines D4..D7, RS, Enable, and an
/// optional backlight line.
pub struct GpioBus {
    backlight_wired: bool,
    timing: Timing,
    signals: Vec<Signal>,
    taken: Ghost<Seq<Signal>>,
    history: Ghost<Seq<Transfer>>,
}

impl GpioBus {
    pub closed spec fn timing(&self) -> Timing {
        self.timing
    }

    pub closed spec fn has_backlight(&self) -> bool {
        self.backlight_wired
    }

    /// Every signal produced since construction, taken or pending.
    pub closed spec fn produced(&self) -> Seq<Signal> {
        self.taken@ + self.signals@
    }

    proof fn lemma_push(self, t: Transfer)
        ensures
            encode_all(self.history@.push(t), self.backlight_wired, self.timing) == encode_all(
                self.history@,
                self.backlight_wired,
                self.timing,
            ) + transfer_signals(t, self.backlight_wired, self.timing),
    {
        assert(self.history@.push(t).drop_last() =~= self.history@);
    }

    /// A bus with the given timing, each wait raised to the controller's
    /// minimum; `backlight_wired` tells whether a backlight line is connected.
    pub fn new(backlight_wired: bool, timing: Timing) -> (r: GpioBus)
        ensures
            r.history() == Seq::<Transfer>::empty(),
            r.pending() == Seq::<Signal>::empty(),
            r.produced() == Seq::<Signal>::empty(),
            r.faithful(),
            r.has_backlight() == backlight_wired,
            r.timing().setup_ns == at_least(timing.setup_ns, MIN_SETUP_NS),
            r.timing().pulse_ns == at_least(timing.pulse_ns, MIN_PULSE_NS),
            r.timing().settle_ns == at_least(timing.settle_ns, MIN_SETTLE_NS),
    {
        GpioBus {
            backlight_wired,
            timing: timing.normalized(),
            signals: Vec::new(),
            taken: Ghost(Seq::empty()),
            history: Ghost(Seq::empty()),
        }
    }

    fn push_nibble(&mut self, nibble: u8, as_data: bool)
        ensures
            final(self).signals@ == old(self).signals@ + nibble_signals(
                nibble,
                as_data,
                old(self).timing,
            ),
            final(self).timing == old(self).timing,
            final(self).backlight_wired == old(self).backlight_wired,
            final(self).history == old(self).history,
            final(self).taken == old(self).taken,
    {
        let timing = self.timing;
        self.signals.push(Signal::Pin { line: Line::Enable, high: false });
        self.signals.push(Signal::Pin { line: Line::Rs, high: as_data });
        self.signals.push(Signal::Pin { line: Line::D4, high: nibble & 0x01 != 0 });
        self.signals.push(Signal::Pin { line: Line::D5, high: nibble & 0x02 != 0 });
        self.signals.push(Signal::Pin { line: Line::D6, high: nibble & 0x04 != 0 });
        self.signals.push(Signal::Pin { line: Line::D7, high: nibble & 0x08 != 0 });
        self.signals.push(Signal::Wait { ns: timing.setup_ns });
        self.signals.push(Signal::Pin { line: Line::Enable, high: true });
        self.signals.push(Signal::Wait { ns: timing.pulse_ns });
        self.signals.push(Signal::Pin { line: Line::Enable, high: false });
        self.signals.push(Signal::Wait { ns: timing.settle_ns });
        proof {
            assert(self.signals@ =~= old(self).signals@ + nibble_signals(nibble, as_data, timing));
        }
    }
}

impl Bus for GpioBus {
    closed spec fn history(&self) -> Seq<Transfer> {
        self.history@
    }

    closed spec fn pending(&self) -> Seq<Signal> {
        self.signals@
    }

    closed spec fn size_spec(&self) -> BusSize {
        BusSize::FourBit
    }

    open spec fn faithful(&self) -> bool {
        self.produced() == encode_all(self.history(), self.has_backlight(), self.timing())
    }

    fn write_nibble(&mut self, value: u8)
        ensures
            final(self).pending() == old(self).pending() + nibble_signals(
                value,
                false,
                old(self).timing(),
            ),
            final(self).timing() == old(self).timing(),
            final(self).has_backlight() == old(self).has_backlight(),
    {
        proof {
            old(self).lemma_push(Transfer::Nibble { value });
        }
        self.push_nibble(value, false);
        self.history = Ghost(self.history@.push(Transfer::Nibble { value }));
        proof {
            assert(self.produced() =~= old(self).produced() + nibble_signals(
                value,
                false,
                self.timing,
            ));
        }
    }

    fn write_byte(&mut self, value: u8, as_data: bool)
        ensures
            final(self).pending() == old(self).pending() + byte_signals(
                value,
                as_data,
                old(self).timing(),
            ),
            final(self).timing() == old(self).timing(),
            final(self).has_backlight() == old(self).has_backlight(),
    {
        proof {
            old(self).lemma_push(Transfer::Byte { value, as_data });
        }
        self.push_nibble(value >> 4, as_data);
        self.push_nibble(value & 0x0f, as_data);
        self.history = Ghost(self.history@.push(Transfer::Byte { value, as_data }));
        proof {
            assert(self.signals@ =~= old(self).signals@ + byte_signals(
                value,
                as_data,
                self.timing,
            ));
            assert(self.produced() =~= old(self).produced() + byte_signals(
                value,
                as_data,
                self.timing,
            ));
        }
    }

    fn set_backlight(&mut self, enabled: bool)
        ensures
            final(self).pending() == old(self).pending() + if old(self).has_backlight() {
                seq![Signal::Pin { line: Line::Backlight, high: enabled }]
            } else {
                Seq::<Signal>::empty()
            },
            final(self).timing() == old(self).timing(),
            final(self).has_backlight() == old(self).has_backlight(),
    {
        proof {
            old(self).lemma_push(Transfer::Backlight { enabled });
        }
        if self.backlight_wired {
            self.signals.push(Signal::Pin { line: Line::Backlight, high: enabled });
        }
        self.history = Ghost(self.history@.push(Transfer::Backlight { enabled }));
        proof {
            let delta = if old(self).backlight_wired {
                seq![Signal::Pin { line: Line::Backlight, high: enabled }]
            } else {
                Seq::<Signal>::empty()
            };
            assert(self.signals@ =~= old(self).signals@ + delta);
            assert(self.produced() =~= old(self).produced() + delta);
        }
    }

    fn delay_ns(&mut self, ns: u32)
        ensures
            final(self).pending() == old(self).pending().push(Signal::Wait { ns }),
            final(self).timing() == old(self).timing(),
            final(self).has_backlight() == old(self).has_backlight(),
    {
        proof {
            old(self).lemma_push(Transfer::Delay { ns });
        }
        self.signals.push(Signal::Wait { ns });
        self.history = Ghost(self.history@.push(Transfer::Delay { ns }));
        proof {
            assert(self.produced() =~= old(self).produced() + seq![Signal::Wait { ns }]);
        }
    }

    fn size(&self) -> (r: BusSize) {
        BusSize::FourBit
    }

    fn take_signals(&mut self) -> (r: Vec<Signal>)
        ensures
            final(self).timing() == old(self).timing(),
            final(self).has_backlight() == old(self).has_backlight(),
    {
        let mut taken: Vec<Signal> = Vec::new();
        std::mem::swap(&mut taken, &mut self.signals);
        self.taken = Ghost(self.taken@ + taken@);
        proof {
            assert(self.produced() =~= old(self).produced());
        }
        taken
    }
}

} // verus!
