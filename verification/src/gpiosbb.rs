//! GPIO pin handles for synchronous bit-bang mode, and the model of the
//! chip's one-byte read lag.
//!
//! In synchronous bit-bang mode the parallel I/O pins are sampled first,
//! before a written byte is driven out, so the sample read back for a write
//! is the bus state from just before that write — one byte behind.  The
//! handles below compensate: a read first re-transmits the last written
//! output byte, so that a fresh sample of the current bus state becomes
//! available, and a write first drains the chip's response buffer, so that
//! the buffer cannot fill up during long write sequences.

use vstd::prelude::*;

use crate::error::Error;
use crate::error::ErrorKind;
use crate::fthalsbb::FtHalSbb;
use crate::transport::SbbEvent;
use crate::transport::SbbTransport;
use crate::Pin;
use crate::PinUse;

verus! {

/// The bit mask selecting a pin within its bank.
pub open spec fn pin_mask(pin: Pin) -> u8 {
    match pin {
        Pin::Lower(idx) => 1u8 << idx,
        Pin::Upper(idx) => 1u8 << idx,
    }
}

/// The samples the chip queues while the bytes `writes` are driven out, in
/// order: the bus is sampled just before each write takes effect, so the
/// sample of the first write is the idle (power-up) bus state, and the
/// sample of every later write is the previously written byte.
pub open spec fn sbb_samples(idle: u8, writes: Seq<u8>) -> Seq<u8> {
    Seq::new(
        writes.len(),
        |k: int|
            if k == 0 {
                idle
            } else {
                writes[k - 1]
            },
    )
}

/// One-byte read lag, compensated by the re-send discipline: after output
/// bytes `writes` have been driven in order and a read re-transmits one more
/// byte, the freshest queued sample is the last written byte — and before
/// any write it is the idle (power-up) bus state, not a value written by
/// this session.
pub proof fn lemma_bitbang_lag(idle: u8, writes: Seq<u8>, resend: u8)
    ensures
        sbb_samples(idle, writes.push(resend)).len() == writes.len() + 1,
        writes.len() > 0 ==> sbb_samples(idle, writes.push(resend)).last() == writes.last(),
        writes.len() == 0 ==> sbb_samples(idle, writes.push(resend)).last() == idle,
{
    let s = sbb_samples(idle, writes.push(resend));
    assert(s.last() == if writes.len() == 0 {
        idle
    } else {
        writes[writes.len() - 1]
    });
}

/// The outcome of acquiring an output pin on a bit-bang session: the pin
/// owned as an output and the widened direction mask configured — or an
/// allocation conflict, exactly when the pin was already owned, detected
/// before any device activity and leaving everything untouched.
pub open spec fn sbb_output_acquired<D: SbbTransport>(
    o: FtHalSbb<D>,
    n: FtHalSbb<D>,
    r: Result<OutputPinSbb, Error>,
    idx: u8,
) -> bool {
    &&& n.inner.wf()
    &&& n.inner.lower.value == o.inner.lower.value
    &&& n.inner.upper.direction == o.inner.upper.direction
    &&& n.inner.upper.value == o.inner.upper.value
    &&& n.inner.upper.pins@ == o.inner.upper.pins@
    &&& match r {
        Ok(p) => {
            &&& p.pin == Pin::Lower(idx)
            &&& o.inner.lower.pins@[idx as int] is None
            &&& n.inner.lower.pins@ == o.inner.lower.pins@.update(idx as int, Some(PinUse::Output))
            &&& n.inner.lower.direction == o.inner.lower.direction | pin_mask(Pin::Lower(idx))
            &&& n.inner.ft.events() == o.inner.ft.events().push(
                SbbEvent::Mode(n.inner.lower.direction),
            )
        },
        Err(e) => {
            &&& (e == Error::Hal(ErrorKind::AllocationConflict)
                <==> o.inner.lower.pins@[idx as int] is Some)
            &&& (e == Error::Hal(ErrorKind::AllocationConflict) ==> {
                &&& n.inner.lower.pins@ == o.inner.lower.pins@
                &&& n.inner.lower.direction == o.inner.lower.direction
                &&& n.inner.ft.events() == o.inner.ft.events()
            })
            &&& (e == Error::Transport ==> {
                &&& n.inner.lower.pins@ == o.inner.lower.pins@.update(
                    idx as int,
                    Some(PinUse::Output),
                )
                &&& n.inner.lower.direction == o.inner.lower.direction | pin_mask(Pin::Lower(idx))
                &&& n.inner.ft.events() == o.inner.ft.events()
            })
            &&& (e == Error::Hal(ErrorKind::AllocationConflict) || e == Error::Transport)
        },
    }
}

/// The outcome of acquiring an input pin on a bit-bang session: the pin
/// owned as an input and the narrowed direction mask configured — or an
/// allocation conflict, exactly when the pin was already owned, detected
/// before any device activity and leaving everything untouched.
pub open spec fn sbb_input_acquired<D: SbbTransport>(
    o: FtHalSbb<D>,
    n: FtHalSbb<D>,
    r: Result<InputPinSbb, Error>,
    idx: u8,
) -> bool {
    &&& n.inner.wf()
    &&& n.inner.lower.value == o.inner.lower.value
    &&& n.inner.upper.direction == o.inner.upper.direction
    &&& n.inner.upper.value == o.inner.upper.value
    &&& n.inner.upper.pins@ == o.inner.upper.pins@
    &&& match r {
        Ok(p) => {
            &&& p.pin == Pin::Lower(idx)
            &&& o.inner.lower.pins@[idx as int] is None
            &&& n.inner.lower.pins@ == o.inner.lower.pins@.update(idx as int, Some(PinUse::Input))
            &&& n.inner.lower.direction == o.inner.lower.direction & !pin_mask(Pin::Lower(idx))
            &&& n.inner.ft.events() == o.inner.ft.events().push(
                SbbEvent::Mode(n.inner.lower.direction),
            )
        },
        Err(e) => {
            &&& (e == Error::Hal(ErrorKind::AllocationConflict)
                <==> o.inner.lower.pins@[idx as int] is Some)
            &&& (e == Error::Hal(ErrorKind::AllocationConflict) ==> {
                &&& n.inner.lower.pins@ == o.inner.lower.pins@
                &&& n.inner.lower.direction == o.inner.lower.direction
                &&& n.inner.ft.events() == o.inner.ft.events()
            })
            &&& (e == Error::Transport ==> {
                &&& n.inner.lower.pins@ == o.inner.lower.pins@.update(
                    idx as int,
                    Some(PinUse::Input),
                )
                &&& n.inner.lower.direction == o.inner.lower.direction & !pin_mask(Pin::Lower(idx))
                &&& n.inner.ft.events() == o.inner.ft.events()
            })
            &&& (e == Error::Hal(ErrorKind::AllocationConflict) || e == Error::Transport)
        },
    }
}

/// FTDI output pin, synchronous bit-bang mode.
///
/// This is created by calling [`FtHalSbb::ad0`] through [`FtHalSbb::ad7`].
pub struct OutputPinSbb {
    /// GPIO pin number.  Only the lower bank is supported in bit-bang mode.
    pub pin: Pin,
}

impl OutputPinSbb {
    /// Allocate the pin, widen the bit-bang direction mask, and re-enter
    /// synchronous bit-bang mode with it.
    ///
    /// Only the lower bank is usable: bit-bang interfaces have no secondary
    /// bank, so an upper-bank pin is rejected at the contract level.
    pub fn new<D: SbbTransport>(hal: &mut FtHalSbb<D>, pin: Pin) -> (r: Result<
        OutputPinSbb,
        Error,
    >)
        requires
            old(hal).inner.wf(),
            pin matches Pin::Lower(i) && i < 8,
        ensures
            sbb_output_acquired(
                *old(hal),
                *final(hal),
                r,
                match pin {
                    Pin::Lower(i) => i,
                    Pin::Upper(i) => i,
                },
            ),
    {
        let idx: u8 = match pin {
            Pin::Lower(i) => i,
            Pin::Upper(i) => i,
        };
        match hal.inner.allocate_pin_any(pin, PinUse::Output) {
            Ok(()) => (),
            Err(e) => {
                return Err(e);
            },
        }
        hal.inner.lower.direction = hal.inner.lower.direction | (1u8 << idx);
        let out_mask: u8 = hal.inner.lower.direction;
        match hal.inner.ft.set_sync_bitbang(out_mask) {
            Ok(()) => (),
            Err(e) => {
                return Err(e);
            },
        }
        Ok(OutputPinSbb { pin })
    }

    /// Drive the pin high or low.
    ///
    /// The response buffer is drained (and discarded) first, so that the
    /// chip's USB TX FIFO cannot fill up across many writes; then the
    /// updated output byte is driven out.
    pub fn set<D: SbbTransport>(&self, hal: &mut FtHalSbb<D>, state: bool) -> (r: Result<
        (),
        Error,
    >)
        requires
            old(hal).inner.wf(),
        ensures
            final(hal).inner.wf(),
            final(hal).inner.lower.value == if state {
                old(hal).inner.lower.value | pin_mask(self.pin)
            } else {
                old(hal).inner.lower.value & !pin_mask(self.pin)
            },
            final(hal).inner.lower.direction == old(hal).inner.lower.direction,
            final(hal).inner.lower.pins@ == old(hal).inner.lower.pins@,
            final(hal).inner.upper == old(hal).inner.upper,
            r is Ok ==> exists|d: Seq<u8>|
                #![auto]
                final(hal).inner.ft.events() == old(hal).inner.ft.events().push(
                    SbbEvent::Drain(d),
                ).push(SbbEvent::Write(final(hal).inner.lower.value)),
            r matches Err(e) ==> e == Error::Transport && (final(hal).inner.ft.events() == old(hal).inner.ft.events() || exists|d: Seq<u8>|
                #![auto]
                final(hal).inner.ft.events() == old(hal).inner.ft.events().push(
                    SbbEvent::Drain(d),
                )),
    {
        let mask: u8 = self.mask();
        if state {
            hal.inner.lower.value = hal.inner.lower.value | mask;
        } else {
            hal.inner.lower.value = hal.inner.lower.value & !mask;
        }
        let drained_bytes: Vec<u8> = match hal.inner.ft.drain() {
            Ok(v) => v,
            Err(e) => {
                return Err(e);
            },
        };
        let out: u8 = hal.inner.lower.value;
        match hal.inner.ft.write_byte(out) {
            Ok(()) => (),
            Err(e) => {
                proof {
                    assert(hal.inner.ft.events() == old(hal).inner.ft.events().push(
                        SbbEvent::Drain(drained_bytes@),
                    ));
                }
                return Err(e);
            },
        }
        proof {
            assert(hal.inner.ft.events() == old(hal).inner.ft.events().push(
                SbbEvent::Drain(drained_bytes@),
            ).push(SbbEvent::Write(out)));
        }
        Ok(())
    }

    /// Convert the GPIO pin index to a pin mask.
    pub fn mask(&self) -> (r: u8)
        ensures
            r == pin_mask(self.pin),
    {
        let idx: u8 = match self.pin {
            Pin::Lower(idx) => idx,
            Pin::Upper(idx) => idx,
        };
        if idx < 8 {
            1u8 << idx
        } else {
            proof {
                assert(1u8 << idx == 0) by (bit_vector)
                    requires
                        idx >= 8,
                ;
            }
            0u8
        }
    }
}

/// FTDI input pin, synchronous bit-bang mode.
///
/// This is created by calling [`FtHalSbb::adi0`] through [`FtHalSbb::adi7`].
pub struct InputPinSbb {
    /// GPIO pin number.  Only the lower bank is supported in bit-bang mode.
    pub pin: Pin,
}

impl InputPinSbb {
    /// Allocate the pin, clear its bit in the bit-bang direction mask, and
    /// re-enter synchronous bit-bang mode with it.
    ///
    /// Only the lower bank is usable: bit-bang interfaces have no secondary
    /// bank, so an upper-bank pin is rejected at the contract level.
    pub fn new<D: SbbTransport>(hal: &mut FtHalSbb<D>, pin: Pin) -> (r: Result<InputPinSbb, Error>)
        requires
            old(hal).inner.wf(),
            pin matches Pin::Lower(i) && i < 8,
        ensures
            sbb_input_acquired(
                *old(hal),
                *final(hal),
                r,
                match pin {
                    Pin::Lower(i) => i,
                    Pin::Upper(i) => i,
                },
            ),
    {
        let idx: u8 = match pin {
            Pin::Lower(i) => i,
            Pin::Upper(i) => i,
        };
        match hal.inner.allocate_pin_any(pin, PinUse::Input) {
            Ok(()) => (),
            Err(e) => {
                return Err(e);
            },
        }
        hal.inner.lower.direction = hal.inner.lower.direction & !(1u8 << idx);
        let out_mask: u8 = hal.inner.lower.direction;
        match hal.inner.ft.set_sync_bitbang(out_mask) {
            Ok(()) => (),
            Err(e) => {
                return Err(e);
            },
        }
        Ok(InputPinSbb { pin })
    }

    /// Sample the pin.
    ///
    /// Because reads lag writes by one byte, the current output byte is
    /// re-transmitted first; the freshest sample is then the last byte of
    /// the drained response buffer, and the requested bit is masked out of
    /// it.  An empty response buffer is a transport fault: the preceding
    /// write must have queued a sample.
    pub fn get<D: SbbTransport>(&self, hal: &mut FtHalSbb<D>) -> (r: Result<bool, Error>)
        requires
            old(hal).inner.wf(),
        ensures
            final(hal).inner.wf(),
            final(hal).inner.lower == old(hal).inner.lower,
            final(hal).inner.upper == old(hal).inner.upper,
            r matches Ok(b) ==> exists|d: Seq<u8>|
                #![auto]
                {
                    &&& final(hal).inner.ft.events() == old(hal).inner.ft.events().push(
                        SbbEvent::Write(old(hal).inner.lower.value),
                    ).push(SbbEvent::Drain(d))
                    &&& d.len() > 0
                    &&& b == ((d.last() & pin_mask(self.pin)) != 0)
                },
            r matches Err(e) ==> e == Error::Transport && (final(hal).inner.ft.events() == old(hal).inner.ft.events() || final(hal).inner.ft.events() == old(hal).inner.ft.events().push(SbbEvent::Write(old(hal).inner.lower.value)) || exists|
                d: Seq<u8>,
            |
                #![auto]
                final(hal).inner.ft.events() == old(hal).inner.ft.events().push(
                    SbbEvent::Write(old(hal).inner.lower.value),
                ).push(SbbEvent::Drain(d))),
    {
        let out: u8 = hal.inner.lower.value;
        match hal.inner.ft.write_byte(out) {
            Ok(()) => (),
            Err(e) => {
                return Err(e);
            },
        }
        let read_bytes: Vec<u8> = match hal.inner.ft.drain() {
            Ok(v) => v,
            Err(e) => {
                return Err(e);
            },
        };
        if read_bytes.len() == 0 {
            // The write above queued a sample; an empty response buffer
            // means the transport lost it.
            proof {
                assert(hal.inner.ft.events() == old(hal).inner.ft.events().push(
                    SbbEvent::Write(out),
                ).push(SbbEvent::Drain(read_bytes@)));
            }
            return Err(Error::Transport);
        }
        let pin_states: u8 = read_bytes[read_bytes.len() - 1];
        let mask: u8 = self.mask();
        proof {
            assert(hal.inner.ft.events() == old(hal).inner.ft.events().push(
                SbbEvent::Write(out),
            ).push(SbbEvent::Drain(read_bytes@)));
        }
        Ok((pin_states & mask) != 0)
    }

    /// Convert the GPIO pin index to a pin mask.
    pub fn mask(&self) -> (r: u8)
        ensures
            r == pin_mask(self.pin),
    {
        let idx: u8 = match self.pin {
            Pin::Lower(idx) => idx,
            Pin::Upper(idx) => idx,
        };
        if idx < 8 {
            1u8 << idx
        } else {
            proof {
                assert(1u8 << idx == 0) by (bit_vector)
                    requires
                        idx >= 8,
                ;
            }
            0u8
        }
    }
}

} // verus!
