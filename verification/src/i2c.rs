//! The I2C bit-banging engine.
//!
//! Two wires are modeled as three GPIO bits of the lower bank: clock
//! (output), data-out (output, driven only while the master owns the bus)
//! and data-in (input, sampled while the peripheral may drive).
//! Tri-stating is approximated by toggling the direction bits.
//!
//! A transaction is one of two byte-identical command streams:
//! START, address byte with its ACK probe, data phases, STOP, idle.  The
//! *slow* strategy flushes and checks each ACK per protocol step; the
//! *fast* strategy flushes the entire stream once and scans all ACK
//! positions at the end.  The spec functions here state both streams
//! byte for byte, and [`lemma_strategy_equivalence_write`],
//! [`lemma_strategy_equivalence_read`] and
//! [`lemma_strategy_equivalence_write_read`] prove that the two
//! strategies put the same bytes on the wire, differing only in flush
//! grouping.

use vstd::prelude::*;

use crate::error::Error;
use crate::error::ErrorKind;
use crate::mpsse::cbi_seq;
use crate::mpsse::cbo_seq;
use crate::mpsse::clock_bits_in_rising;
use crate::mpsse::clock_bits_out_falling;
use crate::mpsse::flush_seq;
use crate::mpsse::sgl_seq;
use crate::mpsse::ENABLE_3PHASE_CLOCKING;
use crate::transport::Transport;
use crate::FtHal;
use crate::PinUse;

verus! {

/// SCL bitmask.
pub const SCL: u8 = 0x01;

/// SDA bitmask.
pub const SDA: u8 = 0x02;

/// An ACK bit is reported in bit 0 of the sampled byte: low is ACK,
/// high is NAK, whatever the upper seven bits hold.
pub open spec fn ack_ok(sample: u8) -> bool {
    sample & 1 == 0
}

/// Decode one sampled ACK byte: `true` is ACK, `false` is NAK.  Only bit 0
/// decides, independent of the upper seven bits.
pub fn decode_ack(sample: u8) -> (r: bool)
    ensures
        r == ack_ok(sample),
{
    (sample & 0b1) == 0x00
}

/// `s` repeated `n` times.
pub open spec fn rep(s: Seq<u8>, n: nat) -> Seq<u8>
    decreases n,
{
    if n == 0 {
        Seq::empty()
    } else {
        rep(s, (n - 1) as nat) + s
    }
}

/// START condition: clock and data high, then data falls while the clock
/// stays high; each held `m` commands for electrical settling.
pub open spec fn start_seq(v: u8, d: u8, m: nat) -> Seq<u8> {
    rep(sgl_seq(v | SCL | SDA, SCL | SDA | d), m) + rep(sgl_seq(v | SCL, SCL | SDA | d), m)
}

/// Repeated-START lead-in: as START, then the clock falls as well, each
/// held `m` commands.
pub open spec fn rstart_seq(v: u8, d: u8, m: nat) -> Seq<u8> {
    rep(sgl_seq(v | SCL | SDA, SCL | SDA | d), m) + rep(sgl_seq(v | SCL, SCL | SDA | d), m) + rep(
        sgl_seq(v, SCL | SDA | d),
        m,
    )
}

/// STOP condition: clock rises, then data rises while the clock stays
/// high, each held `m` commands.
pub open spec fn stop_seq(v: u8, d: u8, m: nat) -> Seq<u8> {
    rep(sgl_seq(v, SCL | SDA | d), m) + rep(sgl_seq(v | SCL, SCL | SDA | d), m) + rep(
        sgl_seq(v | SCL | SDA, SCL | SDA | d),
        m,
    )
}

/// Release both lines to the idle (input) configuration.
pub open spec fn idle_seq(v: u8, d: u8) -> Seq<u8> {
    sgl_seq(v, d)
}

/// Master drives one byte out, MSB first, then releases data and samples
/// the slave's ACK bit.
pub open spec fn out_byte_seq(v: u8, d: u8, byte: u8) -> Seq<u8> {
    sgl_seq(v, SCL | SDA | d) + cbo_seq(byte, 8) + sgl_seq(v, SCL | d) + cbi_seq(1)
}

/// Address phase of a repeated start: the data line is already released,
/// so only the byte, the ACK release and the ACK probe remain.
pub open spec fn raddr_seq(v: u8, d: u8, byte: u8) -> Seq<u8> {
    cbo_seq(byte, 8) + sgl_seq(v, SCL | d) + cbi_seq(1)
}

/// Master samples one byte, then drives the acknowledge bit: a `more` bit
/// (low) after every byte but the last, a `done` bit (high) after the last,
/// signalling end-of-read to the slave.
pub open spec fn in_byte_seq(v: u8, d: u8, last: bool) -> Seq<u8> {
    sgl_seq(v, SCL | d) + cbi_seq(8) + sgl_seq(v, SCL | SDA | d) + cbo_seq(
        if last {
            0x80
        } else {
            0x00
        },
        1,
    )
}

/// The first `k` of `n` read-byte phases, in order.
pub open spec fn in_blocks_seq(v: u8, d: u8, k: nat, n: nat) -> Seq<u8>
    decreases k,
{
    if k == 0 {
        Seq::empty()
    } else {
        in_blocks_seq(v, d, (k - 1) as nat, n) + in_byte_seq(v, d, k == n)
    }
}

/// The write phases of the first `k` payload bytes, in order.
pub open spec fn out_blocks_seq(v: u8, d: u8, bytes: Seq<u8>, k: nat) -> Seq<u8>
    decreases k,
{
    if k == 0 {
        Seq::empty()
    } else {
        out_blocks_seq(v, d, bytes, (k - 1) as nat) + out_byte_seq(v, d, bytes[k - 1 as int])
    }
}

/// The complete command stream of a read transaction (flush markers
/// excluded): START, address with read bit, `n` read phases, STOP, idle.
pub open spec fn read_ops(a: u8, n: nat, v: u8, d: u8, m: nat) -> Seq<u8> {
    start_seq(v, d, m) + out_byte_seq(v, d, (a << 1) | 1) + in_blocks_seq(v, d, n, n) + stop_seq(
        v,
        d,
        m,
    ) + idle_seq(v, d)
}

/// The complete command stream of a write transaction (flush markers
/// excluded): START, address with write bit, one write phase per payload
/// byte, STOP, idle.
pub open spec fn write_ops(a: u8, bytes: Seq<u8>, v: u8, d: u8, m: nat) -> Seq<u8> {
    start_seq(v, d, m) + out_byte_seq(v, d, a << 1) + out_blocks_seq(v, d, bytes, bytes.len())
        + stop_seq(v, d, m) + idle_seq(v, d)
}

/// The complete command stream of a write-then-read transaction (flush
/// markers excluded): START, address with write bit, write phases,
/// repeated START, address with read bit, read phases, STOP, idle.
pub open spec fn write_read_ops(a: u8, bytes: Seq<u8>, n: nat, v: u8, d: u8, m: nat) -> Seq<u8> {
    start_seq(v, d, m) + out_byte_seq(v, d, a << 1) + out_blocks_seq(v, d, bytes, bytes.len())
        + rstart_seq(v, d, m) + raddr_seq(v, d, (a << 1) | 1) + in_blocks_seq(v, d, n, n)
        + stop_seq(v, d, m) + idle_seq(v, d)
}

/// The slow strategy's batches for a read transaction: address phase
/// first, then — only after its ACK checked out — all read phases.
pub open spec fn read_slow_ops(a: u8, n: nat, v: u8, d: u8, m: nat) -> Seq<Seq<u8>> {
    seq![
        start_seq(v, d, m) + out_byte_seq(v, d, (a << 1) | 1),
        in_blocks_seq(v, d, n, n) + stop_seq(v, d, m) + idle_seq(v, d),
    ]
}

/// The slow strategy's per-payload-byte batches of a write transaction,
/// for the first `k` bytes; the batch of the final byte carries the STOP
/// condition and the return to idle.
pub open spec fn write_byte_batches(v: u8, d: u8, bytes: Seq<u8>, m: nat, k: nat) -> Seq<Seq<u8>>
    decreases k,
{
    if k == 0 {
        Seq::empty()
    } else {
        write_byte_batches(v, d, bytes, m, (k - 1) as nat).push(
            out_byte_seq(v, d, bytes[k - 1 as int]) + if k == bytes.len() {
                stop_seq(v, d, m) + idle_seq(v, d)
            } else {
                Seq::empty()
            },
        )
    }
}

/// The slow strategy's batches for a write transaction: address phase,
/// then one batch per payload byte, each checked for its ACK before the
/// next is issued.
pub open spec fn write_slow_ops(a: u8, bytes: Seq<u8>, v: u8, d: u8, m: nat) -> Seq<Seq<u8>> {
    seq![start_seq(v, d, m) + out_byte_seq(v, d, a << 1)] + write_byte_batches(
        v,
        d,
        bytes,
        m,
        bytes.len(),
    )
}

/// The slow strategy's per-payload-byte batches of a write-then-read
/// transaction, for the first `k` bytes; here the STOP comes much later,
/// so each batch is one write phase alone.
pub open spec fn plain_byte_batches(v: u8, d: u8, bytes: Seq<u8>, k: nat) -> Seq<Seq<u8>>
    decreases k,
{
    if k == 0 {
        Seq::empty()
    } else {
        plain_byte_batches(v, d, bytes, (k - 1) as nat).push(
            out_byte_seq(v, d, bytes[k - 1 as int]),
        )
    }
}

/// The slow strategy's batches for a write-then-read transaction: address
/// phase, one batch per payload byte, the repeated start with the read
/// address, then all read phases.
pub open spec fn write_read_slow_ops(a: u8, bytes: Seq<u8>, n: nat, v: u8, d: u8, m: nat) -> Seq<
    Seq<u8>,
> {
    seq![start_seq(v, d, m) + out_byte_seq(v, d, a << 1)] + plain_byte_batches(
        v,
        d,
        bytes,
        bytes.len(),
    ) + seq![
        rstart_seq(v, d, m) + raddr_seq(v, d, (a << 1) | 1),
        in_blocks_seq(v, d, n, n) + stop_seq(v, d, m) + idle_seq(v, d),
    ]
}

/// Each batch with the flush marker that closes it on the wire.
pub open spec fn with_flush(batches: Seq<Seq<u8>>) -> Seq<Seq<u8>> {
    batches.map_values(|b: Seq<u8>| b + flush_seq())
}

/// Append `times` identical set-lower-bank commands.
fn push_gpio_repeat(
    b: ftdi_mpsse::MpsseCmdBuilder,
    state: u8,
    direction: u8,
    times: u8,
) -> (r: ftdi_mpsse::MpsseCmdBuilder)
    ensures
        r.0@ == b.0@ + rep(sgl_seq(state, direction), times as nat),
{
    let mut cur = b;
    let ghost start = cur.0@;
    let mut i: u8 = 0;
    while i < times
        invariant
            i <= times,
            cur.0@ == start + rep(sgl_seq(state, direction), i as nat),
        decreases times - i,
    {
        cur = cur.set_gpio_lower(state, direction);
        proof {
            assert(start + rep(sgl_seq(state, direction), (i + 1) as nat) =~= (start + rep(
                sgl_seq(state, direction),
                i as nat,
            )) + sgl_seq(state, direction));
        }
        i = i + 1;
    }
    proof {
        assert(cur.0@ =~= b.0@ + rep(sgl_seq(state, direction), times as nat));
    }
    cur
}

/// Append a START condition.
fn push_start(b: ftdi_mpsse::MpsseCmdBuilder, v: u8, d: u8, m: u8) -> (r:
    ftdi_mpsse::MpsseCmdBuilder)
    ensures
        r.0@ == b.0@ + start_seq(v, d, m as nat),
{
    let cur = push_gpio_repeat(b, v | SCL | SDA, SCL | SDA | d, m);
    let cur = push_gpio_repeat(cur, v | SCL, SCL | SDA | d, m);
    proof {
        assert(cur.0@ =~= b.0@ + start_seq(v, d, m as nat));
    }
    cur
}

/// Append a repeated-START lead-in.
fn push_rstart(b: ftdi_mpsse::MpsseCmdBuilder, v: u8, d: u8, m: u8) -> (r:
    ftdi_mpsse::MpsseCmdBuilder)
    ensures
        r.0@ == b.0@ + rstart_seq(v, d, m as nat),
{
    let cur = push_gpio_repeat(b, v | SCL | SDA, SCL | SDA | d, m);
    let cur = push_gpio_repeat(cur, v | SCL, SCL | SDA | d, m);
    let cur = push_gpio_repeat(cur, v, SCL | SDA | d, m);
    proof {
        assert(cur.0@ =~= b.0@ + rstart_seq(v, d, m as nat));
    }
    cur
}

/// Append a STOP condition.
fn push_stop(b: ftdi_mpsse::MpsseCmdBuilder, v: u8, d: u8, m: u8) -> (r:
    ftdi_mpsse::MpsseCmdBuilder)
    ensures
        r.0@ == b.0@ + stop_seq(v, d, m as nat),
{
    let cur = push_gpio_repeat(b, v, SCL | SDA | d, m);
    let cur = push_gpio_repeat(cur, v | SCL, SCL | SDA | d, m);
    let cur = push_gpio_repeat(cur, v | SCL | SDA, SCL | SDA | d, m);
    proof {
        assert(cur.0@ =~= b.0@ + stop_seq(v, d, m as nat));
    }
    cur
}

/// Append one master-out byte phase with its ACK probe.
fn push_out_byte(b: ftdi_mpsse::MpsseCmdBuilder, v: u8, d: u8, byte: u8) -> (r:
    ftdi_mpsse::MpsseCmdBuilder)
    ensures
        r.0@ == b.0@ + out_byte_seq(v, d, byte),
{
    let cur = b.set_gpio_lower(v, SCL | SDA | d);
    let cur = clock_bits_out_falling(cur, byte, 8);
    let cur = cur.set_gpio_lower(v, SCL | d);
    let cur = clock_bits_in_rising(cur, 1);
    proof {
        assert(cur.0@ =~= b.0@ + out_byte_seq(v, d, byte));
    }
    cur
}

/// Append all `n` master-in byte phases with their acknowledge bits.
fn push_in_blocks(b: ftdi_mpsse::MpsseCmdBuilder, v: u8, d: u8, n: usize) -> (r:
    ftdi_mpsse::MpsseCmdBuilder)
    ensures
        r.0@ == b.0@ + in_blocks_seq(v, d, n as nat, n as nat),
{
    let mut cur = b;
    let ghost start = cur.0@;
    let mut idx: usize = 0;
    while idx < n
        invariant
            idx <= n,
            cur.0@ == start + in_blocks_seq(v, d, idx as nat, n as nat),
        decreases n - idx,
    {
        let last: bool = idx == n - 1;
        cur = cur.set_gpio_lower(v, SCL | d);
        cur = clock_bits_in_rising(cur, 8);
        cur = cur.set_gpio_lower(v, SCL | SDA | d);
        cur = clock_bits_out_falling(
            cur,
            if last {
                0x80
            } else {
                0x00
            },
            1,
        );
        proof {
            assert((idx + 1) as nat == n as nat <==> last);
            assert(start + in_blocks_seq(v, d, (idx + 1) as nat, n as nat) =~= (start
                + in_blocks_seq(v, d, idx as nat, n as nat)) + in_byte_seq(v, d, last));
        }
        idx = idx + 1;
    }
    proof {
        assert(cur.0@ =~= b.0@ + in_blocks_seq(v, d, n as nat, n as nat));
    }
    cur
}


/// The outcome of a fast-strategy read: one batch on the wire, the ACK
/// byte and the data read back afterwards.
pub open spec fn read_fast_post<D: Transport>(
    o: FtHal<D>,
    n_: FtHal<D>,
    address: u8,
    len: usize,
    m: u8,
    r: Result<Vec<u8>, Error>,
) -> bool {
    let v = o.inner.lower.value;
    let d = o.inner.lower.direction;
    let stream = read_ops(address, len as nat, v, d, m as nat) + flush_seq();
    &&& n_.inner.same_pin_state(&o.inner)
    &&& match r {
        Ok(data) => {
            &&& len > 0
            &&& data@.len() == len
            &&& n_.inner.ft.sent() == o.inner.ft.sent().push(stream)
            &&& exists|ack: Seq<u8>|
                #![auto]
                n_.inner.ft.received() == o.inner.ft.received().push(ack).push(data@) && ack.len()
                    == 1 && ack_ok(ack[0])
        },
        Err(e) => {
            &&& (e == Error::Hal(ErrorKind::MalformedParameter) <==> len == 0)
            &&& (len == 0 ==> n_.inner.ft.sent() == o.inner.ft.sent() && n_.inner.ft.received()
                == o.inner.ft.received())
            &&& (e == Error::Hal(ErrorKind::I2cNoAck) ==> {
                &&& n_.inner.ft.sent() == o.inner.ft.sent().push(stream)
                &&& exists|ack: Seq<u8>, buf: Seq<u8>|
                    #![auto]
                    n_.inner.ft.received() == o.inner.ft.received().push(ack).push(buf)
                        && ack.len() == 1 && !ack_ok(ack[0]) && buf.len() == len
            })
            &&& (e == Error::Transport ==> {
                &&& (n_.inner.ft.sent() == o.inner.ft.sent() || n_.inner.ft.sent()
                    == o.inner.ft.sent().push(stream))
                &&& o.inner.ft.received().is_prefix_of(n_.inner.ft.received())
            })
            &&& (e == Error::Hal(ErrorKind::MalformedParameter) || e == Error::Hal(
                ErrorKind::I2cNoAck,
            ) || e == Error::Transport)
        },
    }
}

/// The outcome of a slow-strategy read: the address batch checked first,
/// the read batch only issued after its ACK.
pub open spec fn read_slow_post<D: Transport>(
    o: FtHal<D>,
    n_: FtHal<D>,
    address: u8,
    len: usize,
    m: u8,
    r: Result<Vec<u8>, Error>,
) -> bool {
    let v = o.inner.lower.value;
    let d = o.inner.lower.direction;
    let batches = with_flush(read_slow_ops(address, len as nat, v, d, m as nat));
    &&& n_.inner.same_pin_state(&o.inner)
    &&& match r {
        Ok(data) => {
            &&& len > 0
            &&& data@.len() == len
            &&& n_.inner.ft.sent() == o.inner.ft.sent() + batches
            &&& exists|ack: Seq<u8>|
                #![auto]
                n_.inner.ft.received() == o.inner.ft.received().push(ack).push(data@) && ack.len()
                    == 1 && ack_ok(ack[0])
        },
        Err(e) => {
            &&& (e == Error::Hal(ErrorKind::MalformedParameter) <==> len == 0)
            &&& (len == 0 ==> n_.inner.ft.sent() == o.inner.ft.sent() && n_.inner.ft.received()
                == o.inner.ft.received())
            &&& (e == Error::Hal(ErrorKind::I2cNoAck) ==> {
                &&& n_.inner.ft.sent() == o.inner.ft.sent().push(batches[0])
                &&& exists|ack: Seq<u8>|
                    #![auto]
                    n_.inner.ft.received() == o.inner.ft.received().push(ack) && ack.len() == 1
                        && !ack_ok(ack[0])
            })
            &&& (e == Error::Transport ==> {
                &&& o.inner.ft.sent().is_prefix_of(n_.inner.ft.sent())
                &&& n_.inner.ft.sent().len() <= o.inner.ft.sent().len() + 2
                &&& o.inner.ft.received().is_prefix_of(n_.inner.ft.received())
            })
            &&& (e == Error::Hal(ErrorKind::MalformedParameter) || e == Error::Hal(
                ErrorKind::I2cNoAck,
            ) || e == Error::Transport)
        },
    }
}

/// The outcome of acquiring the I2C engine: pins 0-2 owned for I2C, the
/// bus idled tri-stated, 3-phase clocking enabled — or an allocation
/// conflict detected before any bus activity, with nothing touched.
pub open spec fn i2c_acquired<D: Transport>(o: FtHal<D>, n_: FtHal<D>, r: Result<I2c, Error>) -> bool {
    &&& n_.inner.wf()
    &&& n_.inner.upper.direction == o.inner.upper.direction
    &&& n_.inner.upper.value == o.inner.upper.value
    &&& n_.inner.upper.pins@ == o.inner.upper.pins@
    &&& match r {
        Ok(bus) => {
            &&& bus == (I2c { start_stop_cmds: 3, fast: false })
            &&& o.inner.lower.pins@[0] is None
            &&& o.inner.lower.pins@[1] is None
            &&& o.inner.lower.pins@[2] is None
            &&& n_.inner.lower.pins@ == o.inner.lower.pins@.update(0, Some(PinUse::I2c)).update(
                1,
                Some(PinUse::I2c),
            ).update(2, Some(PinUse::I2c))
            &&& n_.inner.lower.direction == o.inner.lower.direction & !0x07
            &&& n_.inner.lower.value == o.inner.lower.value & !0x07
            &&& n_.inner.ft.sent() == o.inner.ft.sent().push(
                sgl_seq(n_.inner.lower.value, n_.inner.lower.direction) + seq![
                    ENABLE_3PHASE_CLOCKING,
                ] + flush_seq(),
            )
            &&& n_.inner.ft.received() == o.inner.ft.received()
        },
        Err(e) => {
            &&& (e == Error::Hal(ErrorKind::AllocationConflict) <==> (o.inner.lower.pins@[0]
                is Some || o.inner.lower.pins@[1] is Some || o.inner.lower.pins@[2] is Some))
            &&& (e == Error::Hal(ErrorKind::AllocationConflict) ==> {
                &&& n_.inner.same_pin_state(&o.inner)
                &&& n_.inner.ft.sent() == o.inner.ft.sent()
                &&& n_.inner.ft.received() == o.inner.ft.received()
            })
            &&& (e == Error::Transport ==> {
                &&& n_.inner.lower.pins@ == o.inner.lower.pins@.update(
                    0,
                    Some(PinUse::I2c),
                ).update(1, Some(PinUse::I2c)).update(2, Some(PinUse::I2c))
                &&& n_.inner.lower.direction == o.inner.lower.direction & !0x07
                &&& n_.inner.lower.value == o.inner.lower.value & !0x07
                &&& n_.inner.ft.sent() == o.inner.ft.sent()
                &&& n_.inner.ft.received() == o.inner.ft.received()
            })
            &&& (e == Error::Hal(ErrorKind::AllocationConflict) || e == Error::Transport)
        },
    }
}

/// FTDI I2C interface.
///
/// This is created by calling [`FtHal::i2c`].  Operations take the session
/// explicitly; the caller is expected to hold it exclusively for the
/// duration of each call.
#[derive(Debug, Clone, Copy, PartialEq, Eq, Structural)]
pub struct I2c {
    /// Length of the start, repeated start, and stop conditions, as a
    /// dimensionless number of commands.  More commands roughly correlate
    /// to more time.
    pub start_stop_cmds: u8,
    /// Send the whole transaction as one batch, checking ACKs only at the
    /// end.
    pub fast: bool,
}

impl I2c {
    /// Allocate pins 0 (SCL), 1 (SDA out) and 2 (SDA in) for I2C, idle the
    /// bus tri-stated, and enable 3-phase data clocking.
    ///
    /// Fails with [`ErrorKind::AllocationConflict`], before any bus
    /// activity and without touching any state, if one of the three pins
    /// is already owned.
    pub fn new<D: Transport>(hal: &mut FtHal<D>) -> (r: Result<I2c, Error>)
        requires
            old(hal).inner.wf(),
        ensures
            i2c_acquired(*old(hal), *final(hal), r),
    {
        if hal.inner.lower.pins[0].is_some() || hal.inner.lower.pins[1].is_some()
            || hal.inner.lower.pins[2].is_some() {
            return Err(Error::Hal(ErrorKind::AllocationConflict));
        }
        match hal.inner.allocate_pin(0, PinUse::I2c) {
            Ok(()) => (),
            Err(e) => {
                return Err(e);
            },
        }
        match hal.inner.allocate_pin(1, PinUse::I2c) {
            Ok(()) => (),
            Err(e) => {
                return Err(e);
            },
        }
        match hal.inner.allocate_pin(2, PinUse::I2c) {
            Ok(()) => (),
            Err(e) => {
                return Err(e);
            },
        }
        // AD0: SCL, AD1: SDA (master out), AD2: SDA (master in); the pins
        // idle tri-stated (as inputs).
        hal.inner.lower.direction = hal.inner.lower.direction & !0x07;
        hal.inner.lower.value = hal.inner.lower.value & !0x07;
        let cmd = ftdi_mpsse::MpsseCmdBuilder::new().set_gpio_lower(
            hal.inner.lower.value,
            hal.inner.lower.direction,
        ).enable_3phase_data_clocking().send_immediate();
        match hal.inner.ft.send(cmd.as_slice()) {
            Ok(()) => (),
            Err(e) => {
                return Err(e);
            },
        }
        Ok(I2c { start_stop_cmds: 3, fast: false })
    }

    /// Set the length of start and stop conditions.
    ///
    /// I2C start and stop conditions are generated with a number of
    /// commands; more commands roughly correlate to a longer condition.
    pub fn set_stop_start_len(&mut self, start_stop_cmds: u8)
        ensures
            final(self).start_stop_cmds == start_stop_cmds,
            final(self).fast == old(self).fast,
    {
        self.start_stop_cmds = start_stop_cmds
    }

    /// Enable faster I2C transactions by sending commands in a single
    /// write.
    ///
    /// This is disabled by default.  Normally each slave ACK is checked
    /// before the next protocol step is issued.  Enabling this sends the
    /// whole transaction at once; slave ACKs are only checked at the end
    /// of each call, and every byte is clocked onto the bus even if an
    /// earlier one was not acknowledged.
    pub fn set_fast(&mut self, fast: bool)
        ensures
            final(self).fast == fast,
            final(self).start_stop_cmds == old(self).start_stop_cmds,
    {
        self.fast = fast
    }

    /// Read `len` bytes from the slave at `address`, with the configured
    /// strategy.  An empty read is rejected with
    /// [`ErrorKind::MalformedParameter`] before any command is built.
    pub fn read<D: Transport>(&self, hal: &mut FtHal<D>, address: u8, len: usize) -> (r: Result<
        Vec<u8>,
        Error,
    >)
        requires
            old(hal).inner.wf(),
        ensures
            final(hal).inner.wf(),
            self.fast ==> read_fast_post(*old(hal), *final(hal), address, len, self.start_stop_cmds, r),
            !self.fast ==> read_slow_post(*old(hal), *final(hal), address, len, self.start_stop_cmds, r),
    {
        if self.fast {
            self.read_fast(hal, address, len)
        } else {
            self.read_slow(hal, address, len)
        }
    }

    fn read_fast<D: Transport>(&self, hal: &mut FtHal<D>, address: u8, len: usize) -> (r: Result<
        Vec<u8>,
        Error,
    >)
        requires
            old(hal).inner.wf(),
        ensures
            final(hal).inner.wf(),
            read_fast_post(*old(hal), *final(hal), address, len, self.start_stop_cmds, r),
    {
        if len == 0 {
            return Err(Error::Hal(ErrorKind::MalformedParameter));
        }
        let v: u8 = hal.inner.lower.value;
        let d: u8 = hal.inner.lower.direction;
        let m: u8 = self.start_stop_cmds;

        let cmd = ftdi_mpsse::MpsseCmdBuilder::new();
        // ST
        let cmd = push_start(cmd, v, d, m);
        // SAD + R, SAK
        let cmd = push_out_byte(cmd, v, d, (address << 1) | 1);
        // B0 .. Bn with MAK/NMAK
        let cmd = push_in_blocks(cmd, v, d, len);
        // SP, idle
        let cmd = push_stop(cmd, v, d, m);
        let cmd = cmd.set_gpio_lower(v, d);
        let cmd = cmd.send_immediate();
        proof {
            assert(cmd.0@ =~= read_ops(address, len as nat, v, d, m as nat) + flush_seq());
        }

        match hal.inner.ft.send(cmd.as_slice()) {
            Ok(()) => (),
            Err(e) => {
                return Err(e);
            },
        }
        let ack_buf: Vec<u8> = match hal.inner.ft.recv(1) {
            Ok(b) => b,
            Err(e) => {
                return Err(e);
            },
        };
        let buffer: Vec<u8> = match hal.inner.ft.recv(len) {
            Ok(b) => b,
            Err(e) => {
                return Err(e);
            },
        };
        if decode_ack(ack_buf[0]) {
            Ok(buffer)
        } else {
            Err(Error::Hal(ErrorKind::I2cNoAck))
        }
    }

    fn read_slow<D: Transport>(&self, hal: &mut FtHal<D>, address: u8, len: usize) -> (r: Result<
        Vec<u8>,
        Error,
    >)
        requires
            old(hal).inner.wf(),
        ensures
            final(hal).inner.wf(),
            read_slow_post(*old(hal), *final(hal), address, len, self.start_stop_cmds, r),
    {
        if len == 0 {
            return Err(Error::Hal(ErrorKind::MalformedParameter));
        }
        let v: u8 = hal.inner.lower.value;
        let d: u8 = hal.inner.lower.direction;
        let m: u8 = self.start_stop_cmds;
        let ghost batches = with_flush(read_slow_ops(address, len as nat, v, d, m as nat));

        // ST, SAD + R, SAK
        let cmd = ftdi_mpsse::MpsseCmdBuilder::new();
        let cmd = push_start(cmd, v, d, m);
        let cmd = push_out_byte(cmd, v, d, (address << 1) | 1);
        let cmd = cmd.send_immediate();
        proof {
            assert(cmd.0@ =~= batches[0]);
        }
        match hal.inner.ft.send(cmd.as_slice()) {
            Ok(()) => (),
            Err(e) => {
                return Err(e);
            },
        }
        let ack_buf: Vec<u8> = match hal.inner.ft.recv(1) {
            Ok(b) => b,
            Err(e) => {
                return Err(e);
            },
        };
        if !decode_ack(ack_buf[0]) {
            return Err(Error::Hal(ErrorKind::I2cNoAck));
        }

        // B0 .. Bn with MAK/NMAK, SP, idle
        let cmd = ftdi_mpsse::MpsseCmdBuilder::new();
        let cmd = push_in_blocks(cmd, v, d, len);
        let cmd = push_stop(cmd, v, d, m);
        let cmd = cmd.set_gpio_lower(v, d);
        let cmd = cmd.send_immediate();
        proof {
            assert(cmd.0@ =~= batches[1]);
        }
        match hal.inner.ft.send(cmd.as_slice()) {
            Ok(()) => (),
            Err(e) => {
                return Err(e);
            },
        }
        let buffer: Vec<u8> = match hal.inner.ft.recv(len) {
            Ok(b) => b,
            Err(e) => {
                return Err(e);
            },
        };
        proof {
            assert(final(hal).inner.ft.sent() =~= old(hal).inner.ft.sent() + batches);
        }
        Ok(buffer)
    }
}


/// The batches of a slow write whose first `j` payload bytes have been
/// issued: the address batch, then one batch per byte.
pub open spec fn write_slow_prefix(a: u8, bytes: Seq<u8>, v: u8, d: u8, m: nat, j: nat) -> Seq<
    Seq<u8>,
> {
    seq![start_seq(v, d, m) + out_byte_seq(v, d, a << 1)] + write_byte_batches(v, d, bytes, m, j)
}



/// There is exactly one batch per payload byte issued.
pub proof fn lemma_write_byte_batches_len(v: u8, d: u8, bytes: Seq<u8>, m: nat, k: nat)
    ensures
        write_byte_batches(v, d, bytes, m, k).len() == k,
    decreases k,
{
    if k > 0 {
        lemma_write_byte_batches_len(v, d, bytes, m, (k - 1) as nat);
    }
}

/// One slow-write abort state: after `j` payload-byte batches the last ACK
/// sampled was a NAK, and no further bus activity was issued.
pub open spec fn write_slow_nak_at<D: Transport>(
    o: FtHal<D>,
    n_: FtHal<D>,
    addr: u8,
    bytes: Seq<u8>,
    m: u8,
    j: nat,
    acks: Seq<Seq<u8>>,
) -> bool {
    let v = o.inner.lower.value;
    let d = o.inner.lower.direction;
    &&& j <= bytes.len()
    &&& n_.inner.ft.sent() == o.inner.ft.sent() + with_flush(
        write_slow_prefix(addr, bytes, v, d, m as nat, j),
    )
    &&& n_.inner.ft.received() == o.inner.ft.received() + acks
    &&& acks.len() == j + 1
    &&& forall|i: int|
        0 <= i < acks.len() ==> acks[i].len() == 1 && (i < acks.len() - 1 ==> ack_ok(acks[i][0]))
    &&& !ack_ok(acks[acks.len() - 1][0])
}

/// The outcome of a fast-strategy write: one batch on the wire, all ACK
/// positions scanned at the end.  Even on a NAK, every byte was clocked
/// onto the bus.
pub open spec fn write_fast_post<D: Transport>(
    o: FtHal<D>,
    n_: FtHal<D>,
    addr: u8,
    bytes: Seq<u8>,
    m: u8,
    r: Result<(), Error>,
) -> bool {
    let v = o.inner.lower.value;
    let d = o.inner.lower.direction;
    let stream = write_ops(addr, bytes, v, d, m as nat) + flush_seq();
    &&& n_.inner.same_pin_state(&o.inner)
    &&& match r {
        Ok(()) => {
            &&& bytes.len() > 0
            &&& n_.inner.ft.sent() == o.inner.ft.sent().push(stream)
            &&& exists|acks: Seq<u8>|
                #![auto]
                n_.inner.ft.received() == o.inner.ft.received().push(acks) && acks.len()
                    == bytes.len() + 1 && (forall|i: int| 0 <= i < acks.len() ==> ack_ok(acks[i]))
        },
        Err(e) => {
            &&& (e == Error::Hal(ErrorKind::MalformedParameter) <==> bytes.len() == 0)
            &&& (bytes.len() == 0 ==> n_.inner.ft.sent() == o.inner.ft.sent()
                && n_.inner.ft.received() == o.inner.ft.received())
            &&& (e == Error::Hal(ErrorKind::I2cNoAck) ==> {
                &&& n_.inner.ft.sent() == o.inner.ft.sent().push(stream)
                &&& exists|acks: Seq<u8>|
                    #![auto]
                    n_.inner.ft.received() == o.inner.ft.received().push(acks) && acks.len()
                        == bytes.len() + 1 && (exists|i: int|
                        0 <= i < acks.len() && !ack_ok(acks[i]))
            })
            &&& (e == Error::Transport ==> {
                &&& (n_.inner.ft.sent() == o.inner.ft.sent() || n_.inner.ft.sent()
                    == o.inner.ft.sent().push(stream))
                &&& o.inner.ft.received().is_prefix_of(n_.inner.ft.received())
            })
            &&& (e == Error::Hal(ErrorKind::MalformedParameter) || e == Error::Hal(
                ErrorKind::I2cNoAck,
            ) || e == Error::Transport)
        },
    }
}

/// The outcome of a slow-strategy write: the address batch and then one
/// batch per payload byte, each flushed and its ACK checked before the
/// next is issued; the transaction aborts at the first NAK, issuing no
/// further bus activity.
pub open spec fn write_slow_post<D: Transport>(
    o: FtHal<D>,
    n_: FtHal<D>,
    addr: u8,
    bytes: Seq<u8>,
    m: u8,
    r: Result<(), Error>,
) -> bool {
    let v = o.inner.lower.value;
    let d = o.inner.lower.direction;
    &&& n_.inner.same_pin_state(&o.inner)
    &&& match r {
        Ok(()) => {
            &&& bytes.len() > 0
            &&& n_.inner.ft.sent() == o.inner.ft.sent() + with_flush(
                write_slow_prefix(addr, bytes, v, d, m as nat, bytes.len()),
            )
            &&& exists|acks: Seq<Seq<u8>>|
                #![auto]
                n_.inner.ft.received() == o.inner.ft.received() + acks && acks.len() == bytes.len()
                    + 1 && (forall|j: int|
                    0 <= j < acks.len() ==> acks[j].len() == 1 && ack_ok(acks[j][0]))
        },
        Err(e) => {
            &&& (e == Error::Hal(ErrorKind::MalformedParameter) <==> bytes.len() == 0)
            &&& (bytes.len() == 0 ==> n_.inner.ft.sent() == o.inner.ft.sent()
                && n_.inner.ft.received() == o.inner.ft.received())
            &&& (e == Error::Hal(ErrorKind::I2cNoAck) ==> exists|j: nat, acks: Seq<Seq<u8>>|
                write_slow_nak_at(o, n_, addr, bytes, m, j, acks))
            &&& (e == Error::Transport ==> {
                &&& o.inner.ft.sent().is_prefix_of(n_.inner.ft.sent())
                &&& n_.inner.ft.sent().len() <= o.inner.ft.sent().len() + bytes.len() + 1
                &&& o.inner.ft.received().is_prefix_of(n_.inner.ft.received())
            })
            &&& (e == Error::Hal(ErrorKind::MalformedParameter) || e == Error::Hal(
                ErrorKind::I2cNoAck,
            ) || e == Error::Transport)
        },
    }
}

/// Append the write phases of all payload bytes.
fn push_out_blocks(b: ftdi_mpsse::MpsseCmdBuilder, v: u8, d: u8, bytes: &[u8]) -> (r:
    ftdi_mpsse::MpsseCmdBuilder)
    ensures
        r.0@ == b.0@ + out_blocks_seq(v, d, bytes@, bytes@.len()),
{
    let mut cur = b;
    let ghost start = cur.0@;
    let mut idx: usize = 0;
    let n: usize = bytes.len();
    while idx < n
        invariant
            idx <= n,
            n == bytes@.len(),
            cur.0@ == start + out_blocks_seq(v, d, bytes@, idx as nat),
        decreases n - idx,
    {
        cur = push_out_byte(cur, v, d, bytes[idx]);
        proof {
            assert(start + out_blocks_seq(v, d, bytes@, (idx + 1) as nat) =~= (start
                + out_blocks_seq(v, d, bytes@, idx as nat)) + out_byte_seq(
                v,
                d,
                bytes@[idx as int],
            ));
        }
        idx = idx + 1;
    }
    proof {
        assert(cur.0@ =~= b.0@ + out_blocks_seq(v, d, bytes@, bytes@.len()));
    }
    cur
}

impl I2c {
    /// Write `bytes` to the slave at `addr`, with the configured strategy.
    /// An empty payload is rejected with [`ErrorKind::MalformedParameter`]
    /// before any command is built.
    pub fn write<D: Transport>(&self, hal: &mut FtHal<D>, addr: u8, bytes: &[u8]) -> (r: Result<
        (),
        Error,
    >)
        requires
            old(hal).inner.wf(),
            bytes@.len() < usize::MAX,
        ensures
            final(hal).inner.wf(),
            self.fast ==> write_fast_post(
                *old(hal),
                *final(hal),
                addr,
                bytes@,
                self.start_stop_cmds,
                r,
            ),
            !self.fast ==> write_slow_post(
                *old(hal),
                *final(hal),
                addr,
                bytes@,
                self.start_stop_cmds,
                r,
            ),
    {
        if self.fast {
            self.write_fast(hal, addr, bytes)
        } else {
            self.write_slow(hal, addr, bytes)
        }
    }

    fn write_fast<D: Transport>(&self, hal: &mut FtHal<D>, addr: u8, bytes: &[u8]) -> (r: Result<
        (),
        Error,
    >)
        requires
            old(hal).inner.wf(),
            bytes@.len() < usize::MAX,
        ensures
            final(hal).inner.wf(),
            write_fast_post(*old(hal), *final(hal), addr, bytes@, self.start_stop_cmds, r),
    {
        if bytes.len() == 0 {
            return Err(Error::Hal(ErrorKind::MalformedParameter));
        }
        let v: u8 = hal.inner.lower.value;
        let d: u8 = hal.inner.lower.direction;
        let m: u8 = self.start_stop_cmds;

        let cmd = ftdi_mpsse::MpsseCmdBuilder::new();
        // ST
        let cmd = push_start(cmd, v, d, m);
        // SAD + W, SAK
        let cmd = push_out_byte(cmd, v, d, addr << 1);
        // B0 .. Bn, each with its SAK
        let cmd = push_out_blocks(cmd, v, d, bytes);
        // SP, idle
        let cmd = push_stop(cmd, v, d, m);
        let cmd = cmd.set_gpio_lower(v, d);
        let cmd = cmd.send_immediate();
        proof {
            assert(cmd.0@ =~= write_ops(addr, bytes@, v, d, m as nat) + flush_seq());
        }

        match hal.inner.ft.send(cmd.as_slice()) {
            Ok(()) => (),
            Err(e) => {
                return Err(e);
            },
        }
        let ack_buf: Vec<u8> = match hal.inner.ft.recv(1 + bytes.len()) {
            Ok(b) => b,
            Err(e) => {
                return Err(e);
            },
        };
        let mut i: usize = 0;
        let mut nak: bool = false;
        while i < ack_buf.len()
            invariant
                i <= ack_buf@.len(),
                nak <==> exists|j: int| 0 <= j < i && !ack_ok(ack_buf@[j]),
            decreases ack_buf@.len() - i,
        {
            if !decode_ack(ack_buf[i]) {
                nak = true;
            }
            i = i + 1;
        }
        if nak {
            Err(Error::Hal(ErrorKind::I2cNoAck))
        } else {
            assert(forall|j: int| 0 <= j < ack_buf@.len() ==> ack_ok(ack_buf@[j]));
            Ok(())
        }
    }

    fn write_slow<D: Transport>(&self, hal: &mut FtHal<D>, addr: u8, bytes: &[u8]) -> (r: Result<
        (),
        Error,
    >)
        requires
            old(hal).inner.wf(),
        ensures
            final(hal).inner.wf(),
            write_slow_post(*old(hal), *final(hal), addr, bytes@, self.start_stop_cmds, r),
    {
        if bytes.len() == 0 {
            return Err(Error::Hal(ErrorKind::MalformedParameter));
        }
        let v: u8 = hal.inner.lower.value;
        let d: u8 = hal.inner.lower.direction;
        let m: u8 = self.start_stop_cmds;

        // ST, SAD + W, SAK
        let cmd = ftdi_mpsse::MpsseCmdBuilder::new();
        let cmd = push_start(cmd, v, d, m);
        let cmd = push_out_byte(cmd, v, d, addr << 1);
        let cmd = cmd.send_immediate();
        proof {
            assert(with_flush(write_slow_prefix(addr, bytes@, v, d, m as nat, 0)) =~= seq![
                cmd.0@,
            ]);
        }
        match hal.inner.ft.send(cmd.as_slice()) {
            Ok(()) => (),
            Err(e) => {
                return Err(e);
            },
        }
        let ack_buf: Vec<u8> = match hal.inner.ft.recv(1) {
            Ok(b) => b,
            Err(e) => {
                return Err(e);
            },
        };
        let ghost mut acks: Seq<Seq<u8>> = seq![ack_buf@];
        proof {
            assert(hal.inner.ft.received() =~= old(hal).inner.ft.received() + acks);
            assert(hal.inner.ft.sent() =~= old(hal).inner.ft.sent() + with_flush(
                write_slow_prefix(addr, bytes@, v, d, m as nat, 0),
            ));
        }
        if !decode_ack(ack_buf[0]) {
            proof {
                assert(write_slow_nak_at(*old(hal), *hal, addr, bytes@, m, 0, acks));
            }
            return Err(Error::Hal(ErrorKind::I2cNoAck));
        }

        let n: usize = bytes.len();
        let mut idx: usize = 0;
        while idx < n
            invariant
                idx <= n,
                n == bytes@.len(),
                n >= 1,
                hal.inner.wf(),
                hal.inner.same_pin_state(&old(hal).inner),
                v == hal.inner.lower.value,
                d == hal.inner.lower.direction,
                m == self.start_stop_cmds,
                hal.inner.ft.sent() == old(hal).inner.ft.sent() + with_flush(
                    write_slow_prefix(addr, bytes@, v, d, m as nat, idx as nat),
                ),
                hal.inner.ft.received() == old(hal).inner.ft.received() + acks,
                acks.len() == idx + 1,
                forall|j: int| 0 <= j < acks.len() ==> acks[j].len() == 1 && ack_ok(acks[j][0]),
            decreases n - idx,
        {
            // Bi, SAK; the final byte's batch carries the STOP and the
            // return to idle.
            let mut cmd = ftdi_mpsse::MpsseCmdBuilder::new();
            cmd = push_out_byte(cmd, v, d, bytes[idx]);
            if idx == n - 1 {
                cmd = push_stop(cmd, v, d, m);
                cmd = cmd.set_gpio_lower(v, d);
            }
            cmd = cmd.send_immediate();
            proof {
                assert(write_byte_batches(v, d, bytes@, m as nat, (idx + 1) as nat)
                    == write_byte_batches(v, d, bytes@, m as nat, idx as nat).push(
                    out_byte_seq(v, d, bytes@[idx as int]) + if idx + 1 == n {
                        stop_seq(v, d, m as nat) + idle_seq(v, d)
                    } else {
                        Seq::empty()
                    },
                ));
                assert(cmd.0@ =~= out_byte_seq(v, d, bytes@[idx as int]) + (if idx + 1 == n {
                    stop_seq(v, d, m as nat) + idle_seq(v, d)
                } else {
                    Seq::empty()
                }) + flush_seq());
                assert(with_flush(write_slow_prefix(addr, bytes@, v, d, m as nat, (idx + 1) as nat))
                    =~= with_flush(write_slow_prefix(addr, bytes@, v, d, m as nat, idx as nat)).push(
                    cmd.0@,
                ));
            }
            match hal.inner.ft.send(cmd.as_slice()) {
                Ok(()) => (),
                Err(e) => {
                    proof {
                        lemma_write_byte_batches_len(v, d, bytes@, m as nat, idx as nat);
                        crate::i2c::lemma_concat_prefix(
                            old(hal).inner.ft.sent(),
                            with_flush(write_slow_prefix(addr, bytes@, v, d, m as nat, idx as nat)),
                        );
                        crate::i2c::lemma_concat_prefix(old(hal).inner.ft.received(), acks);
                    }
                    return Err(e);
                },
            }
            proof {
                assert(hal.inner.ft.sent() =~= old(hal).inner.ft.sent() + with_flush(
                    write_slow_prefix(addr, bytes@, v, d, m as nat, (idx + 1) as nat),
                ));
            }
            let ack_buf: Vec<u8> = match hal.inner.ft.recv(1) {
                Ok(b) => b,
                Err(e) => {
                    proof {
                        lemma_write_byte_batches_len(v, d, bytes@, m as nat, (idx + 1) as nat);
                        crate::i2c::lemma_concat_prefix(
                            old(hal).inner.ft.sent(),
                            with_flush(
                                write_slow_prefix(addr, bytes@, v, d, m as nat, (idx + 1) as nat),
                            ),
                        );
                        crate::i2c::lemma_concat_prefix(old(hal).inner.ft.received(), acks);
                    }
                    return Err(e);
                },
            };
            proof {
                acks = acks.push(ack_buf@);
                assert(hal.inner.ft.received() =~= old(hal).inner.ft.received() + acks);
            }
            if !decode_ack(ack_buf[0]) {
                proof {
                    assert(write_slow_nak_at(
                        *old(hal),
                        *hal,
                        addr,
                        bytes@,
                        m,
                        (idx + 1) as nat,
                        acks,
                    ));
                }
                return Err(Error::Hal(ErrorKind::I2cNoAck));
            }
            idx = idx + 1;
        }
        Ok(())
    }
}

/// A sequence is a prefix of itself extended by anything.
pub proof fn lemma_concat_prefix<A>(a: Seq<A>, b: Seq<A>)
    ensures
        a.is_prefix_of(a + b),
{
    assert((a + b).subrange(0, a.len() as int) =~= a);
}


/// The batches of a slow write-then-read up to abort point `j`: the
/// address batch, then `j` payload-byte batches while `j <= bytes.len()`;
/// `j == bytes.len() + 1` adds the repeated-start batch.
pub open spec fn write_read_slow_prefix(
    a: u8,
    bytes: Seq<u8>,
    v: u8,
    d: u8,
    m: nat,
    j: nat,
) -> Seq<Seq<u8>> {
    if j <= bytes.len() {
        seq![start_seq(v, d, m) + out_byte_seq(v, d, a << 1)] + plain_byte_batches(v, d, bytes, j)
    } else {
        seq![start_seq(v, d, m) + out_byte_seq(v, d, a << 1)] + plain_byte_batches(
            v,
            d,
            bytes,
            bytes.len(),
        ) + seq![rstart_seq(v, d, m) + raddr_seq(v, d, (a << 1) | 1)]
    }
}

/// One slow write-then-read abort state: after the batches of
/// [`write_read_slow_prefix`] with index `j` the last ACK sampled was a
/// NAK, and no further bus activity was issued.
pub open spec fn write_read_slow_nak_at<D: Transport>(
    o: FtHal<D>,
    n_: FtHal<D>,
    addr: u8,
    bytes: Seq<u8>,
    m: u8,
    j: nat,
    acks: Seq<Seq<u8>>,
) -> bool {
    let v = o.inner.lower.value;
    let d = o.inner.lower.direction;
    &&& j <= bytes.len() + 1
    &&& n_.inner.ft.sent() == o.inner.ft.sent() + with_flush(
        write_read_slow_prefix(addr, bytes, v, d, m as nat, j),
    )
    &&& n_.inner.ft.received() == o.inner.ft.received() + acks
    &&& acks.len() == j + 1
    &&& forall|i: int|
        0 <= i < acks.len() ==> acks[i].len() == 1 && (i < acks.len() - 1 ==> ack_ok(acks[i][0]))
    &&& !ack_ok(acks[acks.len() - 1][0])
}

/// There is exactly one batch per payload byte issued.
pub proof fn lemma_plain_byte_batches_len(v: u8, d: u8, bytes: Seq<u8>, k: nat)
    ensures
        plain_byte_batches(v, d, bytes, k).len() == k,
    decreases k,
{
    if k > 0 {
        lemma_plain_byte_batches_len(v, d, bytes, (k - 1) as nat);
    }
}

/// The outcome of a fast-strategy write-then-read: one batch on the wire,
/// all ACK positions scanned at the end.
pub open spec fn write_read_fast_post<D: Transport>(
    o: FtHal<D>,
    n_: FtHal<D>,
    address: u8,
    bytes: Seq<u8>,
    len: usize,
    m: u8,
    r: Result<Vec<u8>, Error>,
) -> bool {
    let v = o.inner.lower.value;
    let d = o.inner.lower.direction;
    let stream = write_read_ops(address, bytes, len as nat, v, d, m as nat) + flush_seq();
    &&& n_.inner.same_pin_state(&o.inner)
    &&& match r {
        Ok(data) => {
            &&& bytes.len() > 0
            &&& len > 0
            &&& data@.len() == len
            &&& n_.inner.ft.sent() == o.inner.ft.sent().push(stream)
            &&& exists|acks: Seq<u8>|
                #![auto]
                n_.inner.ft.received() == o.inner.ft.received().push(acks).push(data@)
                    && acks.len() == bytes.len() + 2 && (forall|i: int|
                    0 <= i < acks.len() ==> ack_ok(acks[i]))
        },
        Err(e) => {
            &&& (e == Error::Hal(ErrorKind::MalformedParameter) <==> (bytes.len() == 0 || len
                == 0))
            &&& ((bytes.len() == 0 || len == 0) ==> n_.inner.ft.sent() == o.inner.ft.sent()
                && n_.inner.ft.received() == o.inner.ft.received())
            &&& (e == Error::Hal(ErrorKind::I2cNoAck) ==> {
                &&& n_.inner.ft.sent() == o.inner.ft.sent().push(stream)
                &&& exists|acks: Seq<u8>, buf: Seq<u8>|
                    #![auto]
                    n_.inner.ft.received() == o.inner.ft.received().push(acks).push(buf)
                        && acks.len() == bytes.len() + 2 && (exists|i: int|
                        0 <= i < acks.len() && !ack_ok(acks[i])) && buf.len() == len
            })
            &&& (e == Error::Transport ==> {
                &&& (n_.inner.ft.sent() == o.inner.ft.sent() || n_.inner.ft.sent()
                    == o.inner.ft.sent().push(stream))
                &&& o.inner.ft.received().is_prefix_of(n_.inner.ft.received())
            })
            &&& (e == Error::Hal(ErrorKind::MalformedParameter) || e == Error::Hal(
                ErrorKind::I2cNoAck,
            ) || e == Error::Transport)
        },
    }
}

/// The outcome of a slow-strategy write-then-read: address batch, one
/// batch per payload byte, the repeated start, then all read phases, each
/// ACK checked before the next batch is issued.
pub open spec fn write_read_slow_post<D: Transport>(
    o: FtHal<D>,
    n_: FtHal<D>,
    address: u8,
    bytes: Seq<u8>,
    len: usize,
    m: u8,
    r: Result<Vec<u8>, Error>,
) -> bool {
    let v = o.inner.lower.value;
    let d = o.inner.lower.direction;
    &&& n_.inner.same_pin_state(&o.inner)
    &&& match r {
        Ok(data) => {
            &&& bytes.len() > 0
            &&& len > 0
            &&& data@.len() == len
            &&& n_.inner.ft.sent() == o.inner.ft.sent() + with_flush(
                write_read_slow_ops(address, bytes, len as nat, v, d, m as nat),
            )
            &&& exists|acks: Seq<Seq<u8>>|
                #![auto]
                n_.inner.ft.received() == o.inner.ft.received() + acks + seq![data@] && acks.len()
                    == bytes.len() + 2 && (forall|j: int|
                    0 <= j < acks.len() ==> acks[j].len() == 1 && ack_ok(acks[j][0]))
        },
        Err(e) => {
            &&& (e == Error::Hal(ErrorKind::MalformedParameter) <==> (bytes.len() == 0 || len
                == 0))
            &&& ((bytes.len() == 0 || len == 0) ==> n_.inner.ft.sent() == o.inner.ft.sent()
                && n_.inner.ft.received() == o.inner.ft.received())
            &&& (e == Error::Hal(ErrorKind::I2cNoAck) ==> exists|j: nat, acks: Seq<Seq<u8>>|
                write_read_slow_nak_at(o, n_, address, bytes, m, j, acks))
            &&& (e == Error::Transport ==> {
                &&& o.inner.ft.sent().is_prefix_of(n_.inner.ft.sent())
                &&& n_.inner.ft.sent().len() <= o.inner.ft.sent().len() + bytes.len() + 3
                &&& o.inner.ft.received().is_prefix_of(n_.inner.ft.received())
            })
            &&& (e == Error::Hal(ErrorKind::MalformedParameter) || e == Error::Hal(
                ErrorKind::I2cNoAck,
            ) || e == Error::Transport)
        },
    }
}

impl I2c {
    /// Write `bytes` to the slave at `address`, then — after a repeated
    /// start, without an intervening STOP — read `len` bytes back, with
    /// the configured strategy.  An empty payload or an empty read is
    /// rejected with [`ErrorKind::MalformedParameter`] before any command
    /// is built.
    pub fn write_read<D: Transport>(
        &self,
        hal: &mut FtHal<D>,
        address: u8,
        bytes: &[u8],
        len: usize,
    ) -> (r: Result<Vec<u8>, Error>)
        requires
            old(hal).inner.wf(),
            bytes@.len() + 2 <= usize::MAX,
        ensures
            final(hal).inner.wf(),
            self.fast ==> write_read_fast_post(
                *old(hal),
                *final(hal),
                address,
                bytes@,
                len,
                self.start_stop_cmds,
                r,
            ),
            !self.fast ==> write_read_slow_post(
                *old(hal),
                *final(hal),
                address,
                bytes@,
                len,
                self.start_stop_cmds,
                r,
            ),
    {
        if self.fast {
            self.write_read_fast(hal, address, bytes, len)
        } else {
            self.write_read_slow(hal, address, bytes, len)
        }
    }

    fn write_read_fast<D: Transport>(
        &self,
        hal: &mut FtHal<D>,
        address: u8,
        bytes: &[u8],
        len: usize,
    ) -> (r: Result<Vec<u8>, Error>)
        requires
            old(hal).inner.wf(),
            bytes@.len() + 2 <= usize::MAX,
        ensures
            final(hal).inner.wf(),
            write_read_fast_post(
                *old(hal),
                *final(hal),
                address,
                bytes@,
                len,
                self.start_stop_cmds,
                r,
            ),
    {
        if bytes.len() == 0 || len == 0 {
            return Err(Error::Hal(ErrorKind::MalformedParameter));
        }
        let v: u8 = hal.inner.lower.value;
        let d: u8 = hal.inner.lower.direction;
        let m: u8 = self.start_stop_cmds;

        let cmd = ftdi_mpsse::MpsseCmdBuilder::new();
        // ST
        let cmd = push_start(cmd, v, d, m);
        // SAD + W, SAK
        let cmd = push_out_byte(cmd, v, d, address << 1);
        // O0 .. On, each with its SAK
        let cmd = push_out_blocks(cmd, v, d, bytes);
        // SR
        let cmd = push_rstart(cmd, v, d, m);
        // SAD + R, SAK
        let cmd = clock_bits_out_falling(cmd, (address << 1) | 1, 8);
        let cmd = cmd.set_gpio_lower(v, SCL | d);
        let cmd = clock_bits_in_rising(cmd, 1);
        // B0 .. Bn with MAK/NMAK
        let cmd = push_in_blocks(cmd, v, d, len);
        // SP, idle
        let cmd = push_stop(cmd, v, d, m);
        let cmd = cmd.set_gpio_lower(v, d);
        let cmd = cmd.send_immediate();
        proof {
            assert(cmd.0@ =~= write_read_ops(address, bytes@, len as nat, v, d, m as nat)
                + flush_seq());
        }

        match hal.inner.ft.send(cmd.as_slice()) {
            Ok(()) => (),
            Err(e) => {
                return Err(e);
            },
        }
        let ack_buf: Vec<u8> = match hal.inner.ft.recv(2 + bytes.len()) {
            Ok(b) => b,
            Err(e) => {
                return Err(e);
            },
        };
        let buffer: Vec<u8> = match hal.inner.ft.recv(len) {
            Ok(b) => b,
            Err(e) => {
                return Err(e);
            },
        };
        let mut i: usize = 0;
        let mut nak: bool = false;
        while i < ack_buf.len()
            invariant
                i <= ack_buf@.len(),
                nak <==> exists|j: int| 0 <= j < i && !ack_ok(ack_buf@[j]),
            decreases ack_buf@.len() - i,
        {
            if !decode_ack(ack_buf[i]) {
                nak = true;
            }
            i = i + 1;
        }
        if nak {
            Err(Error::Hal(ErrorKind::I2cNoAck))
        } else {
            assert(forall|j: int| 0 <= j < ack_buf@.len() ==> ack_ok(ack_buf@[j]));
            Ok(buffer)
        }
    }

    fn write_read_slow<D: Transport>(
        &self,
        hal: &mut FtHal<D>,
        address: u8,
        bytes: &[u8],
        len: usize,
    ) -> (r: Result<Vec<u8>, Error>)
        requires
            old(hal).inner.wf(),
        ensures
            final(hal).inner.wf(),
            write_read_slow_post(
                *old(hal),
                *final(hal),
                address,
                bytes@,
                len,
                self.start_stop_cmds,
                r,
            ),
    {
        if bytes.len() == 0 || len == 0 {
            return Err(Error::Hal(ErrorKind::MalformedParameter));
        }
        let v: u8 = hal.inner.lower.value;
        let d: u8 = hal.inner.lower.direction;
        let m: u8 = self.start_stop_cmds;

        // ST, SAD + W, SAK
        let cmd = ftdi_mpsse::MpsseCmdBuilder::new();
        let cmd = push_start(cmd, v, d, m);
        let cmd = push_out_byte(cmd, v, d, address << 1);
        let cmd = cmd.send_immediate();
        proof {
            assert(with_flush(write_read_slow_prefix(address, bytes@, v, d, m as nat, 0)) =~= seq![
                cmd.0@,
            ]);
        }
        match hal.inner.ft.send(cmd.as_slice()) {
            Ok(()) => (),
            Err(e) => {
                return Err(e);
            },
        }
        let ack_buf: Vec<u8> = match hal.inner.ft.recv(1) {
            Ok(b) => b,
            Err(e) => {
                return Err(e);
            },
        };
        let ghost mut acks: Seq<Seq<u8>> = seq![ack_buf@];
        proof {
            assert(hal.inner.ft.received() =~= old(hal).inner.ft.received() + acks);
            assert(hal.inner.ft.sent() =~= old(hal).inner.ft.sent() + with_flush(
                write_read_slow_prefix(address, bytes@, v, d, m as nat, 0),
            ));
        }
        if !decode_ack(ack_buf[0]) {
            proof {
                assert(write_read_slow_nak_at(*old(hal), *hal, address, bytes@, m, 0, acks));
            }
            return Err(Error::Hal(ErrorKind::I2cNoAck));
        }

        let n: usize = bytes.len();
        let mut idx: usize = 0;
        while idx < n
            invariant
                idx <= n,
                n == bytes@.len(),
                n >= 1,
                len >= 1,
                hal.inner.wf(),
                hal.inner.same_pin_state(&old(hal).inner),
                v == hal.inner.lower.value,
                d == hal.inner.lower.direction,
                m == self.start_stop_cmds,
                hal.inner.ft.sent() == old(hal).inner.ft.sent() + with_flush(
                    write_read_slow_prefix(address, bytes@, v, d, m as nat, idx as nat),
                ),
                hal.inner.ft.received() == old(hal).inner.ft.received() + acks,
                acks.len() == idx + 1,
                forall|j: int| 0 <= j < acks.len() ==> acks[j].len() == 1 && ack_ok(acks[j][0]),
            decreases n - idx,
        {
            // Oi, SAK
            let mut cmd = ftdi_mpsse::MpsseCmdBuilder::new();
            cmd = push_out_byte(cmd, v, d, bytes[idx]);
            cmd = cmd.send_immediate();
            proof {
                assert(plain_byte_batches(v, d, bytes@, (idx + 1) as nat) == plain_byte_batches(
                    v,
                    d,
                    bytes@,
                    idx as nat,
                ).push(out_byte_seq(v, d, bytes@[idx as int])));
                assert(with_flush(
                    write_read_slow_prefix(address, bytes@, v, d, m as nat, (idx + 1) as nat),
                ) =~= with_flush(
                    write_read_slow_prefix(address, bytes@, v, d, m as nat, idx as nat),
                ).push(cmd.0@));
            }
            match hal.inner.ft.send(cmd.as_slice()) {
                Ok(()) => (),
                Err(e) => {
                    proof {
                        lemma_plain_byte_batches_len(v, d, bytes@, idx as nat);
                        crate::i2c::lemma_concat_prefix(
                            old(hal).inner.ft.sent(),
                            with_flush(
                                write_read_slow_prefix(address, bytes@, v, d, m as nat, idx as nat),
                            ),
                        );
                        crate::i2c::lemma_concat_prefix(old(hal).inner.ft.received(), acks);
                    }
                    return Err(e);
                },
            }
            proof {
                assert(hal.inner.ft.sent() =~= old(hal).inner.ft.sent() + with_flush(
                    write_read_slow_prefix(address, bytes@, v, d, m as nat, (idx + 1) as nat),
                ));
            }
            let ack_buf: Vec<u8> = match hal.inner.ft.recv(1) {
                Ok(b) => b,
                Err(e) => {
                    proof {
                        lemma_plain_byte_batches_len(v, d, bytes@, (idx + 1) as nat);
                        crate::i2c::lemma_concat_prefix(
                            old(hal).inner.ft.sent(),
                            with_flush(
                                write_read_slow_prefix(
                                    address,
                                    bytes@,
                                    v,
                                    d,
                                    m as nat,
                                    (idx + 1) as nat,
                                ),
                            ),
                        );
                        crate::i2c::lemma_concat_prefix(old(hal).inner.ft.received(), acks);
                    }
                    return Err(e);
                },
            };
            proof {
                acks = acks.push(ack_buf@);
                assert(hal.inner.ft.received() =~= old(hal).inner.ft.received() + acks);
            }
            if !decode_ack(ack_buf[0]) {
                proof {
                    assert(write_read_slow_nak_at(
                        *old(hal),
                        *hal,
                        address,
                        bytes@,
                        m,
                        (idx + 1) as nat,
                        acks,
                    ));
                }
                return Err(Error::Hal(ErrorKind::I2cNoAck));
            }
            idx = idx + 1;
        }

        // SR, SAD + R, SAK
        let cmd = ftdi_mpsse::MpsseCmdBuilder::new();
        let cmd = push_rstart(cmd, v, d, m);
        let cmd = clock_bits_out_falling(cmd, (address << 1) | 1, 8);
        let cmd = cmd.set_gpio_lower(v, SCL | d);
        let cmd = clock_bits_in_rising(cmd, 1);
        let cmd = cmd.send_immediate();
        proof {
            assert(cmd.0@ =~= rstart_seq(v, d, m as nat) + raddr_seq(v, d, (address << 1) | 1)
                + flush_seq());
            assert(with_flush(
                write_read_slow_prefix(address, bytes@, v, d, m as nat, (n + 1) as nat),
            ) =~= with_flush(write_read_slow_prefix(address, bytes@, v, d, m as nat, n as nat)).push(
                cmd.0@,
            ));
        }
        match hal.inner.ft.send(cmd.as_slice()) {
            Ok(()) => (),
            Err(e) => {
                proof {
                    lemma_plain_byte_batches_len(v, d, bytes@, n as nat);
                    crate::i2c::lemma_concat_prefix(
                        old(hal).inner.ft.sent(),
                        with_flush(
                            write_read_slow_prefix(address, bytes@, v, d, m as nat, n as nat),
                        ),
                    );
                    crate::i2c::lemma_concat_prefix(old(hal).inner.ft.received(), acks);
                }
                return Err(e);
            },
        }
        proof {
            assert(hal.inner.ft.sent() =~= old(hal).inner.ft.sent() + with_flush(
                write_read_slow_prefix(address, bytes@, v, d, m as nat, (n + 1) as nat),
            ));
        }
        let ack_buf: Vec<u8> = match hal.inner.ft.recv(1) {
            Ok(b) => b,
            Err(e) => {
                proof {
                    lemma_plain_byte_batches_len(v, d, bytes@, n as nat);
                    crate::i2c::lemma_concat_prefix(
                        old(hal).inner.ft.sent(),
                        with_flush(
                            write_read_slow_prefix(address, bytes@, v, d, m as nat, (n + 1) as nat),
                        ),
                    );
                    crate::i2c::lemma_concat_prefix(old(hal).inner.ft.received(), acks);
                }
                return Err(e);
            },
        };
        proof {
            acks = acks.push(ack_buf@);
            assert(hal.inner.ft.received() =~= old(hal).inner.ft.received() + acks);
        }
        if !decode_ack(ack_buf[0]) {
            proof {
                assert(write_read_slow_nak_at(
                    *old(hal),
                    *hal,
                    address,
                    bytes@,
                    m,
                    (n + 1) as nat,
                    acks,
                ));
            }
            return Err(Error::Hal(ErrorKind::I2cNoAck));
        }

        // B0 .. Bn with MAK/NMAK, SP, idle
        let cmd = ftdi_mpsse::MpsseCmdBuilder::new();
        let cmd = push_in_blocks(cmd, v, d, len);
        let cmd = push_stop(cmd, v, d, m);
        let cmd = cmd.set_gpio_lower(v, d);
        let cmd = cmd.send_immediate();
        proof {
            assert(with_flush(write_read_slow_ops(address, bytes@, len as nat, v, d, m as nat))
                =~= with_flush(
                write_read_slow_prefix(address, bytes@, v, d, m as nat, (n + 1) as nat),
            ).push(cmd.0@));
        }
        match hal.inner.ft.send(cmd.as_slice()) {
            Ok(()) => (),
            Err(e) => {
                proof {
                    lemma_plain_byte_batches_len(v, d, bytes@, n as nat);
                    crate::i2c::lemma_concat_prefix(
                        old(hal).inner.ft.sent(),
                        with_flush(
                            write_read_slow_prefix(address, bytes@, v, d, m as nat, (n + 1) as nat),
                        ),
                    );
                    crate::i2c::lemma_concat_prefix(old(hal).inner.ft.received(), acks);
                }
                return Err(e);
            },
        }
        let buffer: Vec<u8> = match hal.inner.ft.recv(len) {
            Ok(b) => b,
            Err(e) => {
                proof {
                    lemma_plain_byte_batches_len(v, d, bytes@, n as nat);
                    crate::i2c::lemma_concat_prefix(
                        old(hal).inner.ft.sent(),
                        with_flush(
                            write_read_slow_ops(address, bytes@, len as nat, v, d, m as nat),
                        ),
                    );
                    crate::i2c::lemma_concat_prefix(old(hal).inner.ft.received(), acks);
                }
                return Err(e);
            },
        };
        proof {
            assert(hal.inner.ft.received() =~= old(hal).inner.ft.received() + acks + seq![
                buffer@,
            ]);
        }
        Ok(buffer)
    }
}


/// All batches of a transaction concatenated in issuance order.
pub open spec fn concat_all(batches: Seq<Seq<u8>>) -> Seq<u8>
    decreases batches.len(),
{
    if batches.len() == 0 {
        Seq::empty()
    } else {
        concat_all(batches.drop_last()) + batches.last()
    }
}

/// Concatenation peels one batch off the end.
pub proof fn lemma_concat_all_push(s: Seq<Seq<u8>>, x: Seq<u8>)
    ensures
        concat_all(s.push(x)) == concat_all(s) + x,
{
    assert(s.push(x).drop_last() =~= s);
    assert(s.push(x).last() == x);
}

/// Strategy equivalence for reads: the slow strategy's batches,
/// concatenated in issuance order, are byte for byte the fast strategy's
/// single stream; only the number and grouping of flush points differ.
pub proof fn lemma_strategy_equivalence_read(a: u8, n: nat, v: u8, d: u8, m: nat)
    ensures
        concat_all(read_slow_ops(a, n, v, d, m)) == read_ops(a, n, v, d, m),
{
    let b = read_slow_ops(a, n, v, d, m);
    assert(b =~= Seq::<Seq<u8>>::empty().push(b[0]).push(b[1]));
    lemma_concat_all_push(Seq::<Seq<u8>>::empty(), b[0]);
    lemma_concat_all_push(Seq::<Seq<u8>>::empty().push(b[0]), b[1]);
    assert(concat_all(Seq::<Seq<u8>>::empty()) == Seq::<u8>::empty());
    assert(concat_all(b) =~= read_ops(a, n, v, d, m));
}

proof fn lemma_write_batches_concat(a: u8, bytes: Seq<u8>, v: u8, d: u8, m: nat, k: nat)
    requires
        k <= bytes.len(),
    ensures
        concat_all(write_slow_prefix(a, bytes, v, d, m, k)) == start_seq(v, d, m) + out_byte_seq(
            v,
            d,
            a << 1,
        ) + out_blocks_seq(v, d, bytes, k) + if k == bytes.len() && k > 0 {
            stop_seq(v, d, m) + idle_seq(v, d)
        } else {
            Seq::<u8>::empty()
        },
    decreases k,
{
    let first = start_seq(v, d, m) + out_byte_seq(v, d, a << 1);
    if k == 0 {
        assert(write_slow_prefix(a, bytes, v, d, m, 0) =~= Seq::<Seq<u8>>::empty().push(first));
        lemma_concat_all_push(Seq::<Seq<u8>>::empty(), first);
        assert(concat_all(Seq::<Seq<u8>>::empty()) == Seq::<u8>::empty());
        assert(concat_all(write_slow_prefix(a, bytes, v, d, m, 0)) =~= first + out_blocks_seq(
            v,
            d,
            bytes,
            0,
        ) + Seq::<u8>::empty());
    } else {
        lemma_write_batches_concat(a, bytes, v, d, m, (k - 1) as nat);
        let tail = if k == bytes.len() {
            stop_seq(v, d, m) + idle_seq(v, d)
        } else {
            Seq::<u8>::empty()
        };
        let batch = out_byte_seq(v, d, bytes[k - 1 as int]) + tail;
        assert(write_slow_prefix(a, bytes, v, d, m, k) =~= write_slow_prefix(
            a,
            bytes,
            v,
            d,
            m,
            (k - 1) as nat,
        ).push(batch));
        lemma_concat_all_push(write_slow_prefix(a, bytes, v, d, m, (k - 1) as nat), batch);
        assert(concat_all(write_slow_prefix(a, bytes, v, d, m, k)) =~= first + out_blocks_seq(
            v,
            d,
            bytes,
            k,
        ) + tail);
    }
}

/// Strategy equivalence for writes: the slow strategy's batches,
/// concatenated in issuance order, are byte for byte the fast strategy's
/// single stream; only the number and grouping of flush points differ.
pub proof fn lemma_strategy_equivalence_write(a: u8, bytes: Seq<u8>, v: u8, d: u8, m: nat)
    requires
        bytes.len() > 0,
    ensures
        concat_all(write_slow_ops(a, bytes, v, d, m)) == write_ops(a, bytes, v, d, m),
{
    lemma_write_batches_concat(a, bytes, v, d, m, bytes.len());
    assert(write_slow_ops(a, bytes, v, d, m) == write_slow_prefix(a, bytes, v, d, m, bytes.len()));
    assert(concat_all(write_slow_ops(a, bytes, v, d, m)) =~= write_ops(a, bytes, v, d, m));
}

proof fn lemma_plain_batches_concat(a: u8, bytes: Seq<u8>, v: u8, d: u8, m: nat, k: nat)
    requires
        k <= bytes.len(),
    ensures
        concat_all(
            seq![start_seq(v, d, m) + out_byte_seq(v, d, a << 1)] + plain_byte_batches(
                v,
                d,
                bytes,
                k,
            ),
        ) == start_seq(v, d, m) + out_byte_seq(v, d, a << 1) + out_blocks_seq(v, d, bytes, k),
    decreases k,
{
    let first = start_seq(v, d, m) + out_byte_seq(v, d, a << 1);
    if k == 0 {
        assert(seq![first] + plain_byte_batches(v, d, bytes, 0) =~= Seq::<Seq<u8>>::empty().push(
            first,
        ));
        lemma_concat_all_push(Seq::<Seq<u8>>::empty(), first);
        assert(concat_all(Seq::<Seq<u8>>::empty()) == Seq::<u8>::empty());
        assert(concat_all(seq![first] + plain_byte_batches(v, d, bytes, 0)) =~= first
            + out_blocks_seq(v, d, bytes, 0));
    } else {
        lemma_plain_batches_concat(a, bytes, v, d, m, (k - 1) as nat);
        let batch = out_byte_seq(v, d, bytes[k - 1 as int]);
        assert(seq![first] + plain_byte_batches(v, d, bytes, k) =~= (seq![first]
            + plain_byte_batches(v, d, bytes, (k - 1) as nat)).push(batch));
        lemma_concat_all_push(seq![first] + plain_byte_batches(v, d, bytes, (k - 1) as nat), batch);
        assert(concat_all(seq![first] + plain_byte_batches(v, d, bytes, k)) =~= first
            + out_blocks_seq(v, d, bytes, k));
    }
}

/// Strategy equivalence for write-then-read transactions: the slow
/// strategy's batches, concatenated in issuance order, are byte for byte
/// the fast strategy's single stream; only the number and grouping of
/// flush points differ.
pub proof fn lemma_strategy_equivalence_write_read(
    a: u8,
    bytes: Seq<u8>,
    n: nat,
    v: u8,
    d: u8,
    m: nat,
)
    ensures
        concat_all(write_read_slow_ops(a, bytes, n, v, d, m)) == write_read_ops(
            a,
            bytes,
            n,
            v,
            d,
            m,
        ),
{
    let first = start_seq(v, d, m) + out_byte_seq(v, d, a << 1);
    let base = seq![first] + plain_byte_batches(v, d, bytes, bytes.len());
    let srb = rstart_seq(v, d, m) + raddr_seq(v, d, (a << 1) | 1);
    let lastb = in_blocks_seq(v, d, n, n) + stop_seq(v, d, m) + idle_seq(v, d);
    lemma_plain_batches_concat(a, bytes, v, d, m, bytes.len());
    assert(write_read_slow_ops(a, bytes, n, v, d, m) =~= base.push(srb).push(lastb));
    lemma_concat_all_push(base, srb);
    lemma_concat_all_push(base.push(srb), lastb);
    assert(concat_all(write_read_slow_ops(a, bytes, n, v, d, m)) =~= write_read_ops(
        a,
        bytes,
        n,
        v,
        d,
        m,
    ));
}

} // verus!
