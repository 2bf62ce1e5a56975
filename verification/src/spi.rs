//! The SPI clocked-transfer engine.
//!
//! Acquiring the bus allocates pins 0 (SCK), 1 (MOSI) and 2 (MISO), sets
//! the two output directions and idles the lines.  Clock polarity selects
//! between the idle-low and idle-high edge pairs (SPI mode 0 and mode 2);
//! clock phase is fixed.  Every operation is one command batch whose bytes
//! the contracts state exactly; reads consume the matching number of
//! response bytes in issuance order.

use vstd::prelude::*;

use crate::error::Error;
use crate::error::ErrorKind;
use crate::mpsse::clock_data_falling_in;
use crate::mpsse::clock_data_out_falling;
use crate::mpsse::clock_data_out_rising;
use crate::mpsse::clock_data_rising_in;
use crate::mpsse::clock_data_seq;
use crate::mpsse::flush_seq;
use crate::mpsse::sgl_seq;
use crate::mpsse::CLOCK_DATA_NEG_IN;
use crate::mpsse::CLOCK_DATA_OUT_NEG;
use crate::mpsse::CLOCK_DATA_OUT_POS;
use crate::mpsse::CLOCK_DATA_POS_IN;
use crate::transport::Transport;
use crate::FtHal;
use crate::PinUse;

verus! {

/// SPI clock polarity.
///
/// Only two of the four standard SPI modes are available: idle-low
/// (mode 0) and idle-high (mode 2); the clock phase is fixed.
#[derive(Debug, Clone, Copy, PartialEq, Eq, Structural)]
pub enum Polarity {
    /// The clock idles low; data is sampled on the rising edge and driven
    /// on the falling edge.
    IdleLow,
    /// The clock idles high; data is sampled on the falling edge and
    /// driven on the rising edge.
    IdleHigh,
}

/// The full-duplex clocking opcode selected by the polarity.
pub open spec fn data_opcode(p: Polarity) -> u8 {
    match p {
        Polarity::IdleLow => CLOCK_DATA_POS_IN,
        Polarity::IdleHigh => CLOCK_DATA_NEG_IN,
    }
}

/// The write-only clocking opcode selected by the polarity.
pub open spec fn data_out_opcode(p: Polarity) -> u8 {
    match p {
        Polarity::IdleLow => CLOCK_DATA_OUT_NEG,
        Polarity::IdleHigh => CLOCK_DATA_OUT_POS,
    }
}

/// A sequence of `n` zero bytes, clocked out when the engine only reads.
pub open spec fn zeros(n: nat) -> Seq<u8> {
    Seq::new(n, |i: int| 0u8)
}

/// Append a full-duplex clocking command with the polarity's opcode.
fn clock_data_pol(b: ftdi_mpsse::MpsseCmdBuilder, pol: Polarity, data: &[u8]) -> (r:
    ftdi_mpsse::MpsseCmdBuilder)
    requires
        1 <= data@.len() <= 65536,
    ensures
        r.0@ == b.0@ + clock_data_seq(data_opcode(pol), data@),
{
    match pol {
        Polarity::IdleLow => clock_data_rising_in(b, data),
        Polarity::IdleHigh => clock_data_falling_in(b, data),
    }
}

/// Append a write-only clocking command with the polarity's opcode.
fn clock_data_out_pol(b: ftdi_mpsse::MpsseCmdBuilder, pol: Polarity, data: &[u8]) -> (r:
    ftdi_mpsse::MpsseCmdBuilder)
    requires
        1 <= data@.len() <= 65536,
    ensures
        r.0@ == b.0@ + clock_data_seq(data_out_opcode(pol), data@),
{
    match pol {
        Polarity::IdleLow => clock_data_out_falling(b, data),
        Polarity::IdleHigh => clock_data_out_rising(b, data),
    }
}

/// A vector of `n` zero bytes.
fn make_zeros(n: usize) -> (r: Vec<u8>)
    ensures
        r@ == zeros(n as nat),
{
    let mut out: Vec<u8> = Vec::new();
    let mut k: usize = 0;
    while k < n
        invariant
            k <= n,
            out@.len() == k,
            forall|i: int| 0 <= i < k ==> out@[i] == 0u8,
        decreases n - k,
    {
        out.push(0u8);
        k = k + 1;
    }
    proof {
        assert(out@ =~= zeros(n as nat));
    }
    out
}

/// The outcome of acquiring the SPI bus: pins 0-2 owned for SPI, SCK and
/// MOSI made outputs, the lines idled — or an allocation conflict
/// detected before any bus activity, with nothing touched.
pub open spec fn spi_acquired<D: Transport>(o: FtHal<D>, n_: FtHal<D>, r: Result<Spi, Error>) -> bool {
    &&& n_.inner.wf()
    &&& n_.inner.upper.direction == o.inner.upper.direction
    &&& n_.inner.upper.value == o.inner.upper.value
    &&& n_.inner.upper.pins@ == o.inner.upper.pins@
    &&& n_.inner.lower.value == o.inner.lower.value
    &&& match r {
        Ok(spi) => {
            &&& spi == (Spi { pol: Polarity::IdleLow })
            &&& o.inner.lower.pins@[0] is None
            &&& o.inner.lower.pins@[1] is None
            &&& o.inner.lower.pins@[2] is None
            &&& n_.inner.lower.pins@ == o.inner.lower.pins@.update(0, Some(PinUse::Spi)).update(
                1,
                Some(PinUse::Spi),
            ).update(2, Some(PinUse::Spi))
            &&& n_.inner.lower.direction == (o.inner.lower.direction & !0x07) | 0x03
            &&& n_.inner.ft.sent() == o.inner.ft.sent().push(
                sgl_seq(o.inner.lower.value, n_.inner.lower.direction) + flush_seq(),
            )
            &&& n_.inner.ft.received() == o.inner.ft.received()
        },
        Err(e) => {
            &&& (e == Error::Hal(ErrorKind::AllocationConflict) <==> (o.inner.lower.pins@[0]
                is Some || o.inner.lower.pins@[1] is Some || o.inner.lower.pins@[2] is Some))
            &&& (e == Error::Hal(ErrorKind::AllocationConflict) ==> {
                &&& n_.inner.same_pin_state(&o.inner)
                &&& n_.inner.ft.sent() == o.inner.ft.sent()
                &&& n_.inner.ft.received() == o.inner.ft.received()
            })
            &&& (e == Error::Transport ==> {
                &&& n_.inner.lower.pins@ == o.inner.lower.pins@.update(
                    0,
                    Some(PinUse::Spi),
                ).update(1, Some(PinUse::Spi)).update(2, Some(PinUse::Spi))
                &&& n_.inner.lower.direction == (o.inner.lower.direction & !0x07) | 0x03
                &&& n_.inner.ft.sent() == o.inner.ft.sent()
                &&& n_.inner.ft.received() == o.inner.ft.received()
            })
            &&& (e == Error::Hal(ErrorKind::AllocationConflict) || e == Error::Transport)
        },
    }
}

/// FTDI SPI bus.
///
/// This is created by calling [`FtHal::spi`].  Operations take the
/// session explicitly; the caller is expected to hold it exclusively for
/// the duration of each call.
#[derive(Debug, Clone, Copy, PartialEq, Eq, Structural)]
pub struct Spi {
    /// SPI clock polarity.
    pub pol: Polarity,
}

impl Spi {
    /// Allocate pins 0 (SCK), 1 (MOSI) and 2 (MISO) for SPI, make SCK and
    /// MOSI outputs, and idle the lines.
    ///
    /// Fails with [`ErrorKind::AllocationConflict`], before any bus
    /// activity and without touching any state, if one of the three pins
    /// is already owned.
    pub fn new<D: Transport>(hal: &mut FtHal<D>) -> (r: Result<Spi, Error>)
        requires
            old(hal).inner.wf(),
        ensures
            spi_acquired(*old(hal), *final(hal), r),
    {
        if hal.inner.lower.pins[0].is_some() || hal.inner.lower.pins[1].is_some()
            || hal.inner.lower.pins[2].is_some() {
            return Err(Error::Hal(ErrorKind::AllocationConflict));
        }
        match hal.inner.allocate_pin(0, PinUse::Spi) {
            Ok(()) => (),
            Err(e) => {
                return Err(e);
            },
        }
        match hal.inner.allocate_pin(1, PinUse::Spi) {
            Ok(()) => (),
            Err(e) => {
                return Err(e);
            },
        }
        match hal.inner.allocate_pin(2, PinUse::Spi) {
            Ok(()) => (),
            Err(e) => {
                return Err(e);
            },
        }
        // SCK (AD0) and MOSI (AD1) drive the bus; MISO (AD2) is an input.
        hal.inner.lower.direction = (hal.inner.lower.direction & !0x07) | 0x03;
        let cmd = ftdi_mpsse::MpsseCmdBuilder::new().set_gpio_lower(
            hal.inner.lower.value,
            hal.inner.lower.direction,
        ).send_immediate();
        match hal.inner.ft.send(cmd.as_slice()) {
            Ok(()) => (),
            Err(e) => {
                return Err(e);
            },
        }
        Ok(Spi { pol: Polarity::IdleLow })
    }

    /// Set the SPI clock polarity.
    ///
    /// Only SPI modes 0 and 2 are supported; the clock phase is fixed.
    pub fn set_clock_polarity(&mut self, cpol: Polarity)
        ensures
            final(self).pol == cpol,
    {
        self.pol = cpol
    }

    /// Clock `words` out; nothing is read back.
    ///
    /// An empty buffer is rejected with [`ErrorKind::MalformedParameter`]
    /// before any command is built.
    pub fn write<D: Transport>(&self, hal: &mut FtHal<D>, words: &[u8]) -> (r: Result<(), Error>)
        requires
            old(hal).inner.wf(),
            words@.len() <= 65536,
        ensures
            final(hal).inner.wf(),
            final(hal).inner.same_pin_state(&old(hal).inner),
            final(hal).inner.ft.received() == old(hal).inner.ft.received(),
            match r {
                Ok(()) => {
                    &&& words@.len() > 0
                    &&& final(hal).inner.ft.sent() == old(hal).inner.ft.sent().push(
                        clock_data_seq(data_out_opcode(self.pol), words@) + flush_seq(),
                    )
                },
                Err(e) => {
                    &&& (e == Error::Hal(ErrorKind::MalformedParameter) <==> words@.len() == 0)
                    &&& (words@.len() == 0 ==> final(hal).inner.ft.sent() == old(hal).inner.ft.sent())
                    &&& (e == Error::Transport ==> final(hal).inner.ft.sent() == old(hal).inner.ft.sent())
                    &&& (e == Error::Hal(ErrorKind::MalformedParameter) || e == Error::Transport)
                },
            },
    {
        if words.len() == 0 {
            return Err(Error::Hal(ErrorKind::MalformedParameter));
        }
        let cmd = ftdi_mpsse::MpsseCmdBuilder::new();
        let cmd = clock_data_out_pol(cmd, self.pol, words);
        let cmd = cmd.send_immediate();
        match hal.inner.ft.send(cmd.as_slice()) {
            Ok(()) => Ok(()),
            Err(e) => Err(e),
        }
    }

    /// Clock `len` zero bytes out and read `len` bytes back.
    ///
    /// A zero-length read is rejected with
    /// [`ErrorKind::MalformedParameter`] before any command is built.
    pub fn read<D: Transport>(&self, hal: &mut FtHal<D>, len: usize) -> (r: Result<Vec<u8>, Error>)
        requires
            old(hal).inner.wf(),
            len <= 65536,
        ensures
            final(hal).inner.wf(),
            final(hal).inner.same_pin_state(&old(hal).inner),
            match r {
                Ok(data) => {
                    &&& len > 0
                    &&& data@.len() == len
                    &&& final(hal).inner.ft.sent() == old(hal).inner.ft.sent().push(
                        clock_data_seq(data_opcode(self.pol), zeros(len as nat)) + flush_seq(),
                    )
                    &&& final(hal).inner.ft.received() == old(hal).inner.ft.received().push(data@)
                },
                Err(e) => {
                    &&& (e == Error::Hal(ErrorKind::MalformedParameter) <==> len == 0)
                    &&& (len == 0 ==> final(hal).inner.ft.sent() == old(hal).inner.ft.sent()
                        && final(hal).inner.ft.received() == old(hal).inner.ft.received())
                    &&& (e == Error::Transport ==> {
                        &&& (final(hal).inner.ft.sent() == old(hal).inner.ft.sent() || final(hal).inner.ft.sent() == old(hal).inner.ft.sent().push(
                            clock_data_seq(data_opcode(self.pol), zeros(len as nat)) + flush_seq(),
                        ))
                        &&& final(hal).inner.ft.received() == old(hal).inner.ft.received()
                    })
                    &&& (e == Error::Hal(ErrorKind::MalformedParameter) || e == Error::Transport)
                },
            },
    {
        if len == 0 {
            return Err(Error::Hal(ErrorKind::MalformedParameter));
        }
        let data_out: Vec<u8> = make_zeros(len);
        let cmd = ftdi_mpsse::MpsseCmdBuilder::new();
        let cmd = clock_data_pol(cmd, self.pol, data_out.as_slice());
        let cmd = cmd.send_immediate();
        match hal.inner.ft.send(cmd.as_slice()) {
            Ok(()) => (),
            Err(e) => {
                return Err(e);
            },
        }
        match hal.inner.ft.recv(len) {
            Ok(b) => Ok(b),
            Err(e) => Err(e),
        }
    }

    /// Clock all of `write` out while capturing the first `read_len`
    /// response bytes; the remaining response bytes are read back and
    /// discarded, so the chip's response buffer cannot grow across calls.
    ///
    /// An empty buffer on either side is rejected with
    /// [`ErrorKind::MalformedParameter`], as is a read longer than the
    /// write: the write length bounds the clock cycles, so nothing beyond
    /// it could be captured.
    pub fn transfer<D: Transport>(&self, hal: &mut FtHal<D>, read_len: usize, write: &[u8]) -> (r:
        Result<Vec<u8>, Error>)
        requires
            old(hal).inner.wf(),
            write@.len() <= 65536,
        ensures
            final(hal).inner.wf(),
            final(hal).inner.same_pin_state(&old(hal).inner),
            match r {
                Ok(data) => {
                    &&& 0 < read_len <= write@.len()
                    &&& write@.len() > 0
                    &&& data@.len() == read_len
                    &&& final(hal).inner.ft.sent() == old(hal).inner.ft.sent().push(
                        clock_data_seq(data_opcode(self.pol), write@) + flush_seq(),
                    )
                    &&& (read_len < write@.len() ==> exists|drained: Seq<u8>|
                        #![auto]
                        final(hal).inner.ft.received() == old(hal).inner.ft.received().push(
                            data@,
                        ).push(drained) && drained.len() == write@.len() - read_len)
                    &&& (read_len == write@.len() ==> final(hal).inner.ft.received() == old(hal).inner.ft.received().push(data@))
                },
                Err(e) => {
                    &&& (e == Error::Hal(ErrorKind::MalformedParameter) <==> (read_len == 0
                        || write@.len() == 0 || read_len > write@.len()))
                    &&& ((read_len == 0 || write@.len() == 0 || read_len > write@.len()) ==> final(hal).inner.ft.sent() == old(hal).inner.ft.sent() && final(hal).inner.ft.received()
                        == old(hal).inner.ft.received())
                    &&& (e == Error::Transport ==> {
                        &&& (final(hal).inner.ft.sent() == old(hal).inner.ft.sent() || final(hal).inner.ft.sent() == old(hal).inner.ft.sent().push(
                            clock_data_seq(data_opcode(self.pol), write@) + flush_seq(),
                        ))
                        &&& old(hal).inner.ft.received().is_prefix_of(
                            final(hal).inner.ft.received(),
                        )
                    })
                    &&& (e == Error::Hal(ErrorKind::MalformedParameter) || e == Error::Transport)
                },
            },
    {
        if read_len == 0 || write.len() == 0 || read_len > write.len() {
            return Err(Error::Hal(ErrorKind::MalformedParameter));
        }
        let cmd = ftdi_mpsse::MpsseCmdBuilder::new();
        let cmd = clock_data_pol(cmd, self.pol, write);
        let cmd = cmd.send_immediate();
        match hal.inner.ft.send(cmd.as_slice()) {
            Ok(()) => (),
            Err(e) => {
                return Err(e);
            },
        }
        let data: Vec<u8> = match hal.inner.ft.recv(read_len) {
            Ok(b) => b,
            Err(e) => {
                proof {
                    crate::i2c::lemma_concat_prefix(
                        old(hal).inner.ft.received(),
                        Seq::<Seq<u8>>::empty(),
                    );
                    assert(old(hal).inner.ft.received() + Seq::<Seq<u8>>::empty() =~= old(hal).inner.ft.received());
                }
                return Err(e);
            },
        };
        let remain: usize = write.len() - read_len;
        if remain != 0 {
            match hal.inner.ft.recv(remain) {
                Ok(_) => (),
                Err(e) => {
                    proof {
                        crate::i2c::lemma_concat_prefix(
                            old(hal).inner.ft.received(),
                            seq![data@],
                        );
                        assert(old(hal).inner.ft.received() + seq![data@] =~= old(hal).inner.ft.received().push(data@));
                    }
                    return Err(e);
                },
            }
        }
        Ok(data)
    }

    /// Clock the buffer out while reading the same number of bytes back
    /// into it, with no extra allocation visible to the caller.
    ///
    /// An empty buffer is rejected with [`ErrorKind::MalformedParameter`]
    /// before any command is built.
    pub fn transfer_in_place<D: Transport>(&self, hal: &mut FtHal<D>, words: &mut Vec<u8>) -> (r:
        Result<(), Error>)
        requires
            old(hal).inner.wf(),
            old(words)@.len() <= 65536,
        ensures
            final(hal).inner.wf(),
            final(hal).inner.same_pin_state(&old(hal).inner),
            match r {
                Ok(()) => {
                    &&& old(words)@.len() > 0
                    &&& final(words)@.len() == old(words)@.len()
                    &&& final(hal).inner.ft.sent() == old(hal).inner.ft.sent().push(
                        clock_data_seq(data_opcode(self.pol), old(words)@) + flush_seq(),
                    )
                    &&& final(hal).inner.ft.received() == old(hal).inner.ft.received().push(
                        final(words)@,
                    )
                },
                Err(e) => {
                    &&& final(words)@ == old(words)@
                    &&& (e == Error::Hal(ErrorKind::MalformedParameter) <==> old(words)@.len()
                        == 0)
                    &&& (old(words)@.len() == 0 ==> final(hal).inner.ft.sent() == old(hal).inner.ft.sent() && final(hal).inner.ft.received() == old(hal).inner.ft.received())
                    &&& (e == Error::Transport ==> {
                        &&& (final(hal).inner.ft.sent() == old(hal).inner.ft.sent() || final(hal).inner.ft.sent() == old(hal).inner.ft.sent().push(
                            clock_data_seq(data_opcode(self.pol), old(words)@) + flush_seq(),
                        ))
                        &&& final(hal).inner.ft.received() == old(hal).inner.ft.received()
                    })
                    &&& (e == Error::Hal(ErrorKind::MalformedParameter) || e == Error::Transport)
                },
            },
    {
        if words.len() == 0 {
            return Err(Error::Hal(ErrorKind::MalformedParameter));
        }
        let cmd = ftdi_mpsse::MpsseCmdBuilder::new();
        let cmd = clock_data_pol(cmd, self.pol, words.as_slice());
        let cmd = cmd.send_immediate();
        match hal.inner.ft.send(cmd.as_slice()) {
            Ok(()) => (),
            Err(e) => {
                return Err(e);
            },
        }
        let data: Vec<u8> = match hal.inner.ft.recv(words.len()) {
            Ok(b) => b,
            Err(e) => {
                return Err(e);
            },
        };
        *words = data;
        Ok(())
    }

    /// All buffered operations have been flushed with their batches;
    /// nothing is pending.
    pub fn flush<D: Transport>(&self, hal: &mut FtHal<D>) -> (r: Result<(), Error>)
        ensures
            *final(hal) == *old(hal),
            r matches Ok(()),
    {
        Ok(())
    }
}


/// One operation of an SPI transaction run under an asserted chip select.
#[derive(Debug, Clone, PartialEq, Eq)]
pub enum SpiOp {
    /// Clock the bytes out; nothing is captured.
    Write(Vec<u8>),
    /// Clock that many zero bytes out and capture the response.
    Read(usize),
    /// Clock the bytes out and capture that many response bytes; the rest
    /// of the response is read back and discarded.
    Transfer(Vec<u8>, usize),
    /// Clock the bytes out and capture as many response bytes.
    TransferInPlace(Vec<u8>),
}

/// The payload an operation clocks out.
pub open spec fn op_data(pol: Polarity, op: SpiOp) -> Seq<u8> {
    match op {
        SpiOp::Write(w) => w@,
        SpiOp::Read(n) => zeros(n as nat),
        SpiOp::Transfer(w, _) => w@,
        SpiOp::TransferInPlace(w) => w@,
    }
}

/// The command batch of one operation.
pub open spec fn op_batch(pol: Polarity, op: SpiOp) -> Seq<u8> {
    match op {
        SpiOp::Write(w) => clock_data_seq(data_out_opcode(pol), w@) + flush_seq(),
        _ => clock_data_seq(data_opcode(pol), op_data(pol, op)) + flush_seq(),
    }
}

/// The number of response bytes an operation hands to the caller.
pub open spec fn op_resp_len(op: SpiOp) -> nat {
    match op {
        SpiOp::Write(_) => 0,
        SpiOp::Read(n) => n as nat,
        SpiOp::Transfer(_, r) => r as nat,
        SpiOp::TransferInPlace(w) => w@.len(),
    }
}

/// An operation is acceptable: nothing empty, nothing beyond the 65536
/// byte clocking limit, and a transfer captures no more than it clocks
/// out.
pub open spec fn op_ok(op: SpiOp) -> bool {
    match op {
        SpiOp::Write(w) => 1 <= w@.len() <= 65536,
        SpiOp::Read(n) => 1 <= n <= 65536,
        SpiOp::Transfer(w, r) => 1 <= w@.len() <= 65536 && 1 <= r <= w@.len(),
        SpiOp::TransferInPlace(w) => 1 <= w@.len() <= 65536,
    }
}

/// The command batches of the first `k` operations, in issuance order.
pub open spec fn op_batches(pol: Polarity, ops: Seq<SpiOp>, k: nat) -> Seq<Seq<u8>>
    decreases k,
{
    if k == 0 {
        Seq::empty()
    } else {
        op_batches(pol, ops, (k - 1) as nat).push(op_batch(pol, ops[k - 1 as int]))
    }
}

/// The outcome of acquiring the SPI device: pins 0-2 owned for SPI and
/// the chip select owned as an output, with SCK, MOSI and CS made
/// outputs — or an allocation conflict detected before any bus activity,
/// with nothing touched.
pub open spec fn spi_device_acquired<D: Transport>(
    o: FtHal<D>,
    n_: FtHal<D>,
    r: Result<SpiDevice, Error>,
    cs_idx: u8,
) -> bool {
    &&& n_.inner.wf()
    &&& n_.inner.upper.direction == o.inner.upper.direction
    &&& n_.inner.upper.value == o.inner.upper.value
    &&& n_.inner.upper.pins@ == o.inner.upper.pins@
    &&& n_.inner.lower.value == o.inner.lower.value
    &&& match r {
        Ok(dev) => {
            &&& dev == (SpiDevice { pol: Polarity::IdleLow, cs_idx })
            &&& dev.wf()
            &&& cs_idx >= 3
            &&& o.inner.lower.pins@[0] is None
            &&& o.inner.lower.pins@[1] is None
            &&& o.inner.lower.pins@[2] is None
            &&& o.inner.lower.pins@[cs_idx as int] is None
            &&& n_.inner.lower.pins@ == o.inner.lower.pins@.update(0, Some(PinUse::Spi)).update(
                1,
                Some(PinUse::Spi),
            ).update(2, Some(PinUse::Spi)).update(cs_idx as int, Some(PinUse::Output))
            &&& n_.inner.lower.direction == (o.inner.lower.direction & !(0x07 | (1u8 << cs_idx)))
                | 0x03 | (1u8 << cs_idx)
            &&& n_.inner.ft.sent() == o.inner.ft.sent().push(
                sgl_seq(o.inner.lower.value, n_.inner.lower.direction) + flush_seq(),
            )
            &&& n_.inner.ft.received() == o.inner.ft.received()
        },
        Err(e) => {
            &&& (e == Error::Hal(ErrorKind::AllocationConflict) <==> (cs_idx < 3
                || o.inner.lower.pins@[0] is Some || o.inner.lower.pins@[1] is Some
                || o.inner.lower.pins@[2] is Some || o.inner.lower.pins@[cs_idx as int] is Some))
            &&& (e == Error::Hal(ErrorKind::AllocationConflict) ==> {
                &&& n_.inner.same_pin_state(&o.inner)
                &&& n_.inner.ft.sent() == o.inner.ft.sent()
                &&& n_.inner.ft.received() == o.inner.ft.received()
            })
            &&& (e == Error::Transport ==> {
                &&& n_.inner.lower.pins@ == o.inner.lower.pins@.update(
                    0,
                    Some(PinUse::Spi),
                ).update(1, Some(PinUse::Spi)).update(2, Some(PinUse::Spi)).update(
                    cs_idx as int,
                    Some(PinUse::Output),
                )
                &&& n_.inner.lower.direction == (o.inner.lower.direction & !(0x07 | (1u8
                    << cs_idx))) | 0x03 | (1u8 << cs_idx)
                &&& n_.inner.ft.sent() == o.inner.ft.sent()
                &&& n_.inner.ft.received() == o.inner.ft.received()
            })
            &&& (e == Error::Hal(ErrorKind::AllocationConflict) || e == Error::Transport)
        },
    }
}

/// FTDI SPI device: an SPI bus with a chip select pin.
///
/// This is created by calling [`FtHal::spi_device`].  A transaction wraps
/// a sequence of bus operations between chip-select assert (low) and
/// deassert; the caller is expected to hold the session exclusively for
/// the whole transaction, so that no other peripheral can interleave bus
/// activity.
#[derive(Debug, Clone, Copy, PartialEq, Eq, Structural)]
pub struct SpiDevice {
    /// SPI clock polarity.
    pub pol: Polarity,
    /// Chip select pin index, 0-7.
    pub cs_idx: u8,
}

impl SpiDevice {
    /// The chip select index names a real pin.
    pub open spec fn wf(&self) -> bool {
        self.cs_idx < 8
    }

    /// Allocate pins 0 (SCK), 1 (MOSI), 2 (MISO) for SPI and `cs_idx` as
    /// the chip select output, make SCK, MOSI and CS outputs, and idle
    /// the lines.
    ///
    /// Fails with [`ErrorKind::AllocationConflict`], before any bus
    /// activity and without touching any state, if one of the pins is
    /// already owned — in particular whenever `cs_idx` names one of the
    /// three bus pins.
    pub fn new<D: Transport>(hal: &mut FtHal<D>, cs_idx: u8) -> (r: Result<SpiDevice, Error>)
        requires
            old(hal).inner.wf(),
            cs_idx < 8,
        ensures
            spi_device_acquired(*old(hal), *final(hal), r, cs_idx),
    {
        if cs_idx < 3 || hal.inner.lower.pins[0].is_some() || hal.inner.lower.pins[1].is_some()
            || hal.inner.lower.pins[2].is_some() || hal.inner.lower.pins[cs_idx as usize].is_some()
        {
            return Err(Error::Hal(ErrorKind::AllocationConflict));
        }
        match hal.inner.allocate_pin(0, PinUse::Spi) {
            Ok(()) => (),
            Err(e) => {
                return Err(e);
            },
        }
        match hal.inner.allocate_pin(1, PinUse::Spi) {
            Ok(()) => (),
            Err(e) => {
                return Err(e);
            },
        }
        match hal.inner.allocate_pin(2, PinUse::Spi) {
            Ok(()) => (),
            Err(e) => {
                return Err(e);
            },
        }
        match hal.inner.allocate_pin(cs_idx, PinUse::Output) {
            Ok(()) => (),
            Err(e) => {
                return Err(e);
            },
        }
        let cs_mask: u8 = 1u8 << cs_idx;
        // SCK (AD0), MOSI (AD1) and CS drive the bus; MISO (AD2) is an
        // input.
        hal.inner.lower.direction = (hal.inner.lower.direction & !(0x07 | cs_mask)) | 0x03
            | cs_mask;
        let cmd = ftdi_mpsse::MpsseCmdBuilder::new().set_gpio_lower(
            hal.inner.lower.value,
            hal.inner.lower.direction,
        ).send_immediate();
        match hal.inner.ft.send(cmd.as_slice()) {
            Ok(()) => (),
            Err(e) => {
                return Err(e);
            },
        }
        Ok(SpiDevice { pol: Polarity::IdleLow, cs_idx })
    }

    /// Convert the chip select pin index to a pin mask.
    pub fn cs_mask(&self) -> (r: u8)
        requires
            self.wf(),
        ensures
            r == (1u8 << self.cs_idx),
    {
        1u8 << self.cs_idx
    }

    /// Set the SPI clock polarity.
    ///
    /// Only SPI modes 0 and 2 are supported; the clock phase is fixed.
    pub fn set_clock_polarity(&mut self, cpol: Polarity)
        ensures
            final(self).pol == cpol,
            final(self).cs_idx == old(self).cs_idx,
    {
        self.pol = cpol
    }

    /// Assert the chip select pin (drive it low).
    pub fn cs_assert<D: Transport>(&self, hal: &mut FtHal<D>) -> (r: Result<(), Error>)
        requires
            old(hal).inner.wf(),
            self.wf(),
        ensures
            final(hal).inner.wf(),
            final(hal).inner.same_pin_state(&old(hal).inner),
            final(hal).inner.ft.received() == old(hal).inner.ft.received(),
            r matches Ok(()) ==> final(hal).inner.ft.sent() == old(hal).inner.ft.sent().push(
                sgl_seq(
                    old(hal).inner.lower.value & !(1u8 << self.cs_idx),
                    old(hal).inner.lower.direction,
                ) + flush_seq(),
            ),
            r matches Err(e) ==> e == Error::Transport && final(hal).inner.ft.sent() == old(hal).inner.ft.sent(),
    {
        let value_cs_asserted: u8 = hal.inner.lower.value & !self.cs_mask();
        let cmd = ftdi_mpsse::MpsseCmdBuilder::new().set_gpio_lower(
            value_cs_asserted,
            hal.inner.lower.direction,
        ).send_immediate();
        hal.inner.ft.send(cmd.as_slice())
    }

    /// Deassert the chip select pin (drive it high).
    pub fn cs_deassert<D: Transport>(&self, hal: &mut FtHal<D>) -> (r: Result<(), Error>)
        requires
            old(hal).inner.wf(),
            self.wf(),
        ensures
            final(hal).inner.wf(),
            final(hal).inner.same_pin_state(&old(hal).inner),
            final(hal).inner.ft.received() == old(hal).inner.ft.received(),
            r matches Ok(()) ==> final(hal).inner.ft.sent() == old(hal).inner.ft.sent().push(
                sgl_seq(
                    old(hal).inner.lower.value | (1u8 << self.cs_idx),
                    old(hal).inner.lower.direction,
                ) + flush_seq(),
            ),
            r matches Err(e) ==> e == Error::Transport && final(hal).inner.ft.sent() == old(hal).inner.ft.sent(),
    {
        let value_cs_deasserted: u8 = hal.inner.lower.value | self.cs_mask();
        let cmd = ftdi_mpsse::MpsseCmdBuilder::new().set_gpio_lower(
            value_cs_deasserted,
            hal.inner.lower.direction,
        ).send_immediate();
        hal.inner.ft.send(cmd.as_slice())
    }

    /// Run a whole sequence of bus operations as one transaction: the
    /// chip select is asserted before the first clock edge, every
    /// operation's batch is issued in order, and the chip select is
    /// deasserted after the last.  The result holds one response buffer
    /// per operation (empty for writes).
    ///
    /// A malformed operation (empty buffer, or a transfer capturing more
    /// than it clocks out) is rejected with
    /// [`ErrorKind::MalformedParameter`] before any bus activity.
    pub fn transaction<D: Transport>(&self, hal: &mut FtHal<D>, ops: &Vec<SpiOp>) -> (r: Result<
        Vec<Vec<u8>>,
        Error,
    >)
        requires
            old(hal).inner.wf(),
            self.wf(),
            forall|i: int|
                0 <= i < ops@.len() ==> op_data(self.pol, #[trigger] ops@[i]).len() <= 65536,
        ensures
            final(hal).inner.wf(),
            final(hal).inner.same_pin_state(&old(hal).inner),
            match r {
                Ok(resps) => {
                    &&& forall|i: int| 0 <= i < ops@.len() ==> op_ok(#[trigger] ops@[i])
                    &&& resps@.len() == ops@.len()
                    &&& forall|i: int|
                        0 <= i < resps@.len() ==> (#[trigger] resps@[i])@.len() == op_resp_len(
                            ops@[i],
                        )
                    &&& final(hal).inner.ft.sent() == old(hal).inner.ft.sent() + seq![
                        sgl_seq(
                            old(hal).inner.lower.value & !(1u8 << self.cs_idx),
                            old(hal).inner.lower.direction,
                        ) + flush_seq(),
                    ] + op_batches(self.pol, ops@, ops@.len()) + seq![
                        sgl_seq(
                            old(hal).inner.lower.value | (1u8 << self.cs_idx),
                            old(hal).inner.lower.direction,
                        ) + flush_seq(),
                    ]
                },
                Err(e) => {
                    &&& (e == Error::Hal(ErrorKind::MalformedParameter) <==> exists|i: int|
                        0 <= i < ops@.len() && !op_ok(#[trigger] ops@[i]))
                    &&& ((exists|i: int| 0 <= i < ops@.len() && !op_ok(#[trigger] ops@[i]))
                        ==> final(hal).inner.ft.sent() == old(hal).inner.ft.sent() && final(hal).inner.ft.received() == old(hal).inner.ft.received())
                    &&& (e == Error::Transport ==> (final(hal).inner.ft.sent() == old(
                        hal,
                    ).inner.ft.sent() || exists|k: nat|
                        k <= ops@.len() && final(hal).inner.ft.sent() == old(
                            hal,
                        ).inner.ft.sent() + seq![
                            sgl_seq(
                                old(hal).inner.lower.value & !(1u8 << self.cs_idx),
                                old(hal).inner.lower.direction,
                            ) + flush_seq(),
                        ] + #[trigger] op_batches(self.pol, ops@, k)))
                    &&& (e == Error::Hal(ErrorKind::MalformedParameter) || e == Error::Transport)
                },
            },
            old(hal).inner.ft.received().is_prefix_of(final(hal).inner.ft.received()),
    {
        // Validate every operation before any bus activity.
        let mut i: usize = 0;
        let n: usize = ops.len();
        while i < n
            invariant
                i <= n,
                n == ops@.len(),
                *hal == *old(hal),
                old(hal).inner.wf(),
                forall|j: int| 0 <= j < i ==> op_ok(#[trigger] ops@[j]),
            decreases n - i,
        {
            let ok: bool = match &ops[i] {
                SpiOp::Write(w) => w.len() >= 1 && w.len() <= 65536,
                SpiOp::Read(rd) => *rd >= 1 && *rd <= 65536,
                SpiOp::Transfer(w, rd) => w.len() >= 1 && w.len() <= 65536 && *rd >= 1 && *rd
                    <= w.len(),
                SpiOp::TransferInPlace(w) => w.len() >= 1 && w.len() <= 65536,
            };
            if !ok {
                return Err(Error::Hal(ErrorKind::MalformedParameter));
            }
            i = i + 1;
        }
        proof {
            crate::i2c::lemma_concat_prefix(old(hal).inner.ft.received(), Seq::empty());
            assert(old(hal).inner.ft.received() + Seq::<Seq<u8>>::empty() =~= old(hal).inner.ft.received());
        }

        let ghost sent0 = hal.inner.ft.sent();
        let ghost csa = sgl_seq(
            hal.inner.lower.value & !(1u8 << self.cs_idx),
            hal.inner.lower.direction,
        ) + flush_seq();

        // Assert the chip select pin.
        match self.cs_assert(hal) {
            Ok(()) => (),
            Err(e) => {
                return Err(e);
            },
        }

        let mut resps: Vec<Vec<u8>> = Vec::new();
        let mut k: usize = 0;
        while k < n
            invariant
                k <= n,
                n == ops@.len(),
                forall|j: int| 0 <= j < n ==> op_ok(#[trigger] ops@[j]),
                forall|j: int|
                    0 <= j < ops@.len() ==> op_data(self.pol, #[trigger] ops@[j]).len() <= 65536,
                self.wf(),
                hal.inner.wf(),
                hal.inner.same_pin_state(&old(hal).inner),
                hal.inner.ft.sent() == sent0 + seq![csa] + op_batches(self.pol, ops@, k as nat),
                old(hal).inner.ft.received().is_prefix_of(hal.inner.ft.received()),
                resps@.len() == k,
                forall|j: int|
                    0 <= j < k ==> (#[trigger] resps@[j])@.len() == op_resp_len(ops@[j]),
                sent0 == old(hal).inner.ft.sent(),
                csa == sgl_seq(
                    old(hal).inner.lower.value & !(1u8 << self.cs_idx),
                    old(hal).inner.lower.direction,
                ) + flush_seq(),
            decreases n - k,
        {
            proof {
                assert(op_batches(self.pol, ops@, (k + 1) as nat) == op_batches(
                    self.pol,
                    ops@,
                    k as nat,
                ).push(op_batch(self.pol, ops@[k as int])));
            }
            let resp: Vec<u8> = match &ops[k] {
                SpiOp::Write(w) => {
                    let cmd = ftdi_mpsse::MpsseCmdBuilder::new();
                    let cmd = clock_data_out_pol(cmd, self.pol, w.as_slice());
                    let cmd = cmd.send_immediate();
                    match hal.inner.ft.send(cmd.as_slice()) {
                        Ok(()) => (),
                        Err(e) => {
                            proof {
                                assert(hal.inner.ft.sent() =~= old(hal).inner.ft.sent() + seq![
                                    sgl_seq(
                                        old(hal).inner.lower.value & !(1u8 << self.cs_idx),
                                        old(hal).inner.lower.direction,
                                    ) + flush_seq(),
                                ] + op_batches(self.pol, ops@, k as nat));
                            }
                            return Err(e);
                        },
                    }
                    Vec::new()
                },
                SpiOp::Read(rd) => {
                    let data_out: Vec<u8> = make_zeros(*rd);
                    let cmd = ftdi_mpsse::MpsseCmdBuilder::new();
                    let cmd = clock_data_pol(cmd, self.pol, data_out.as_slice());
                    let cmd = cmd.send_immediate();
                    match hal.inner.ft.send(cmd.as_slice()) {
                        Ok(()) => (),
                        Err(e) => {
                            proof {
                                assert(hal.inner.ft.sent() =~= old(hal).inner.ft.sent() + seq![
                                    sgl_seq(
                                        old(hal).inner.lower.value & !(1u8 << self.cs_idx),
                                        old(hal).inner.lower.direction,
                                    ) + flush_seq(),
                                ] + op_batches(self.pol, ops@, k as nat));
                            }
                            return Err(e);
                        },
                    }
                    match hal.inner.ft.recv(*rd) {
                        Ok(b) => b,
                        Err(e) => {
                            proof {
                                assert(hal.inner.ft.sent() =~= old(hal).inner.ft.sent() + seq![
                                    sgl_seq(
                                        old(hal).inner.lower.value & !(1u8 << self.cs_idx),
                                        old(hal).inner.lower.direction,
                                    ) + flush_seq(),
                                ] + op_batches(self.pol, ops@, (k + 1) as nat));
                            }
                            return Err(e);
                        },
                    }
                },
                SpiOp::Transfer(w, rd) => {
                    let cmd = ftdi_mpsse::MpsseCmdBuilder::new();
                    let cmd = clock_data_pol(cmd, self.pol, w.as_slice());
                    let cmd = cmd.send_immediate();
                    match hal.inner.ft.send(cmd.as_slice()) {
                        Ok(()) => (),
                        Err(e) => {
                            proof {
                                assert(hal.inner.ft.sent() =~= old(hal).inner.ft.sent() + seq![
                                    sgl_seq(
                                        old(hal).inner.lower.value & !(1u8 << self.cs_idx),
                                        old(hal).inner.lower.direction,
                                    ) + flush_seq(),
                                ] + op_batches(self.pol, ops@, k as nat));
                            }
                            return Err(e);
                        },
                    }
                    let data: Vec<u8> = match hal.inner.ft.recv(*rd) {
                        Ok(b) => b,
                        Err(e) => {
                            proof {
                                assert(hal.inner.ft.sent() =~= old(hal).inner.ft.sent() + seq![
                                    sgl_seq(
                                        old(hal).inner.lower.value & !(1u8 << self.cs_idx),
                                        old(hal).inner.lower.direction,
                                    ) + flush_seq(),
                                ] + op_batches(self.pol, ops@, (k + 1) as nat));
                            }
                            return Err(e);
                        },
                    };
                    let remain: usize = w.len() - *rd;
                    if remain != 0 {
                        match hal.inner.ft.recv(remain) {
                            Ok(_) => (),
                            Err(e) => {
                                proof {
                                    assert(hal.inner.ft.sent() =~= old(hal).inner.ft.sent() + seq![
                                        sgl_seq(
                                            old(hal).inner.lower.value & !(1u8 << self.cs_idx),
                                            old(hal).inner.lower.direction,
                                        ) + flush_seq(),
                                    ] + op_batches(self.pol, ops@, (k + 1) as nat));
                                }
                                return Err(e);
                            },
                        }
                    }
                    data
                },
                SpiOp::TransferInPlace(w) => {
                    let cmd = ftdi_mpsse::MpsseCmdBuilder::new();
                    let cmd = clock_data_pol(cmd, self.pol, w.as_slice());
                    let cmd = cmd.send_immediate();
                    match hal.inner.ft.send(cmd.as_slice()) {
                        Ok(()) => (),
                        Err(e) => {
                            proof {
                                assert(hal.inner.ft.sent() =~= old(hal).inner.ft.sent() + seq![
                                    sgl_seq(
                                        old(hal).inner.lower.value & !(1u8 << self.cs_idx),
                                        old(hal).inner.lower.direction,
                                    ) + flush_seq(),
                                ] + op_batches(self.pol, ops@, k as nat));
                            }
                            return Err(e);
                        },
                    }
                    match hal.inner.ft.recv(w.len()) {
                        Ok(b) => b,
                        Err(e) => {
                            proof {
                                assert(hal.inner.ft.sent() =~= old(hal).inner.ft.sent() + seq![
                                    sgl_seq(
                                        old(hal).inner.lower.value & !(1u8 << self.cs_idx),
                                        old(hal).inner.lower.direction,
                                    ) + flush_seq(),
                                ] + op_batches(self.pol, ops@, (k + 1) as nat));
                            }
                            return Err(e);
                        },
                    }
                },
            };
            resps.push(resp);
            k = k + 1;
        }

        // Deassert the chip select pin.
        match self.cs_deassert(hal) {
            Ok(()) => (),
            Err(e) => {
                proof {
                    assert(hal.inner.ft.sent() =~= old(hal).inner.ft.sent() + seq![
                        sgl_seq(
                            old(hal).inner.lower.value & !(1u8 << self.cs_idx),
                            old(hal).inner.lower.direction,
                        ) + flush_seq(),
                    ] + op_batches(self.pol, ops@, ops@.len()));
                }
                return Err(e);
            },
        }
        proof {
            assert(final(hal).inner.ft.sent() =~= old(hal).inner.ft.sent() + seq![csa]
                + op_batches(self.pol, ops@, ops@.len()) + seq![
                sgl_seq(
                    old(hal).inner.lower.value | (1u8 << self.cs_idx),
                    old(hal).inner.lower.direction,
                ) + flush_seq(),
            ]);
        }
        Ok(resps)
    }
}

} // verus!
