//! Byte-exact model of the MPSSE command stream, and the trusted bridge to
//! the `ftdi_mpsse` command builder.
//!
//! Every primitive bus operation of the engine appends a fixed opcode
//! sequence to a command batch.  The spec functions here state those
//! sequences; the `assume_specification` items and wrappers below tie them to
//! `ftdi_mpsse::MpsseCmdBuilder`, whose methods push exactly these bytes.

use vstd::prelude::*;

verus! {

/// Opcode: set value and direction of the lower GPIO bank.
pub const SET_BITS_LOW: u8 = 0x80;

/// Opcode: read the value of the lower GPIO bank.
pub const GET_BITS_LOW: u8 = 0x81;

/// Opcode: set value and direction of the upper GPIO bank.
pub const SET_BITS_HIGH: u8 = 0x82;

/// Opcode: read the value of the upper GPIO bank.
pub const GET_BITS_HIGH: u8 = 0x83;

/// Opcode: force the chip to transmit its response buffer immediately.
pub const SEND_IMMEDIATE: u8 = 0x87;

/// Opcode: enable 3-phase data clocking (needed for I2C).
pub const ENABLE_3PHASE_CLOCKING: u8 = 0x8C;

/// Opcode: clock up to 8 bits out, MSB first, on the falling clock edge.
pub const CLOCK_BITS_OUT_NEG: u8 = 0x13;

/// Opcode: clock up to 8 bits in, MSB first, sampled on the rising edge.
pub const CLOCK_BITS_IN_POS: u8 = 0x22;

/// Opcode: clock bytes out, MSB first, on the falling clock edge.
pub const CLOCK_DATA_OUT_NEG: u8 = 0x11;

/// Opcode: clock bytes out, MSB first, on the rising clock edge.
pub const CLOCK_DATA_OUT_POS: u8 = 0x10;

/// Opcode: clock bytes in and out, MSB first, out on falling, in on rising.
pub const CLOCK_DATA_POS_IN: u8 = 0x31;

/// Opcode: clock bytes in and out, MSB first, out on rising, in on falling.
pub const CLOCK_DATA_NEG_IN: u8 = 0x34;

/// Command bytes of one set-lower-bank operation.
pub open spec fn sgl_seq(state: u8, direction: u8) -> Seq<u8> {
    seq![SET_BITS_LOW, state, direction]
}

/// Command bytes of one set-upper-bank operation.
pub open spec fn sgu_seq(state: u8, direction: u8) -> Seq<u8> {
    seq![SET_BITS_HIGH, state, direction]
}

/// Command bytes of one read-lower-bank operation.
pub open spec fn gl_seq() -> Seq<u8> {
    seq![GET_BITS_LOW]
}

/// Command bytes of one read-upper-bank operation.
pub open spec fn gu_seq() -> Seq<u8> {
    seq![GET_BITS_HIGH]
}

/// The terminal flush marker of a command batch.
pub open spec fn flush_seq() -> Seq<u8> {
    seq![SEND_IMMEDIATE]
}

/// Command bytes that clock `len` bits of `data` out on the falling edge.
pub open spec fn cbo_seq(data: u8, len: u8) -> Seq<u8>
    recommends
        1 <= len <= 8,
{
    seq![CLOCK_BITS_OUT_NEG, (len - 1) as u8, data]
}

/// Command bytes that clock `len` bits in, sampled on the rising edge.
pub open spec fn cbi_seq(len: u8) -> Seq<u8>
    recommends
        1 <= len <= 8,
{
    seq![CLOCK_BITS_IN_POS, (len - 1) as u8]
}

/// Low byte of the on-wire length field, which encodes `n - 1`.
pub open spec fn len_lo(n: nat) -> u8
    recommends
        1 <= n <= 65536,
{
    (((n - 1) as nat) % 256) as u8
}

/// High byte of the on-wire length field, which encodes `n - 1`.
pub open spec fn len_hi(n: nat) -> u8
    recommends
        1 <= n <= 65536,
{
    ((((n - 1) as nat) / 256) % 256) as u8
}

/// Command bytes that clock `data` bytes out (or in and out) with the given
/// clocking opcode.
pub open spec fn clock_data_seq(op: u8, data: Seq<u8>) -> Seq<u8>
    recommends
        1 <= data.len() <= 65536,
{
    seq![op, len_lo(data.len()), len_hi(data.len())] + data
}

#[verifier::external_type_specification]
#[allow(dead_code)]
pub struct ExMpsseCmdBuilder(ftdi_mpsse::MpsseCmdBuilder);

/// Relies on `ftdi_mpsse::MpsseCmdBuilder::new`: the builder starts out as an
/// empty byte vector.
pub assume_specification[ ftdi_mpsse::MpsseCmdBuilder::new ]() -> (r:
    ftdi_mpsse::MpsseCmdBuilder)
    ensures
        r.0@ == Seq::<u8>::empty(),
;

/// Relies on `ftdi_mpsse::MpsseCmdBuilder::as_slice`: it exposes the bytes
/// accumulated so far, unchanged.
pub assume_specification[ ftdi_mpsse::MpsseCmdBuilder::as_slice ](
    b: &ftdi_mpsse::MpsseCmdBuilder,
) -> (r: &[u8])
    ensures
        r@ == b.0@,
;

/// Relies on `ftdi_mpsse::MpsseCmdBuilder::set_gpio_lower`: it appends the
/// set-lower-bank opcode, the state mask, and the direction mask.
pub assume_specification[ ftdi_mpsse::MpsseCmdBuilder::set_gpio_lower ](
    b: ftdi_mpsse::MpsseCmdBuilder,
    state: u8,
    direction: u8,
) -> (r: ftdi_mpsse::MpsseCmdBuilder)
    ensures
        r.0@ == b.0@ + sgl_seq(state, direction),
;

/// Relies on `ftdi_mpsse::MpsseCmdBuilder::set_gpio_upper`: it appends the
/// set-upper-bank opcode, the state mask, and the direction mask.
pub assume_specification[ ftdi_mpsse::MpsseCmdBuilder::set_gpio_upper ](
    b: ftdi_mpsse::MpsseCmdBuilder,
    state: u8,
    direction: u8,
) -> (r: ftdi_mpsse::MpsseCmdBuilder)
    ensures
        r.0@ == b.0@ + sgu_seq(state, direction),
;

/// Relies on `ftdi_mpsse::MpsseCmdBuilder::gpio_lower`: it appends the
/// read-lower-bank opcode, which makes the chip produce one response byte.
pub assume_specification[ ftdi_mpsse::MpsseCmdBuilder::gpio_lower ](
    b: ftdi_mpsse::MpsseCmdBuilder,
) -> (r: ftdi_mpsse::MpsseCmdBuilder)
    ensures
        r.0@ == b.0@ + gl_seq(),
;

/// Relies on `ftdi_mpsse::MpsseCmdBuilder::gpio_upper`: it appends the
/// read-upper-bank opcode, which makes the chip produce one response byte.
pub assume_specification[ ftdi_mpsse::MpsseCmdBuilder::gpio_upper ](
    b: ftdi_mpsse::MpsseCmdBuilder,
) -> (r: ftdi_mpsse::MpsseCmdBuilder)
    ensures
        r.0@ == b.0@ + gu_seq(),
;

/// Relies on `ftdi_mpsse::MpsseCmdBuilder::send_immediate`: it appends the
/// flush opcode.
pub assume_specification[ ftdi_mpsse::MpsseCmdBuilder::send_immediate ](
    b: ftdi_mpsse::MpsseCmdBuilder,
) -> (r: ftdi_mpsse::MpsseCmdBuilder)
    ensures
        r.0@ == b.0@ + flush_seq(),
;

/// Relies on `ftdi_mpsse::MpsseCmdBuilder::enable_3phase_data_clocking`: it
/// appends the enable-3-phase-clocking opcode.
pub assume_specification[ ftdi_mpsse::MpsseCmdBuilder::enable_3phase_data_clocking ](
    b: ftdi_mpsse::MpsseCmdBuilder,
) -> (r: ftdi_mpsse::MpsseCmdBuilder)
    ensures
        r.0@ == b.0@ + seq![ENABLE_3PHASE_CLOCKING],
;

/// Relies on `ftdi_mpsse::MpsseCmdBuilder::clock_bits_out` with
/// `ClockBitsOut::MsbNeg`: it appends that opcode, the bit count less one,
/// and the data byte.  Bit counts above 8 panic and a count of 0 appends
/// nothing, so both are excluded.
#[verifier::external_body]
pub fn clock_bits_out_falling(b: ftdi_mpsse::MpsseCmdBuilder, data: u8, len: u8) -> (r:
    ftdi_mpsse::MpsseCmdBuilder)
    requires
        1 <= len <= 8,
    ensures
        r.0@ == b.0@ + cbo_seq(data, len),
{
    b.clock_bits_out(ftdi_mpsse::ClockBitsOut::MsbNeg, data, len)
}

/// Relies on `ftdi_mpsse::MpsseCmdBuilder::clock_bits_in` with
/// `ClockBitsIn::MsbPos`: it appends that opcode and the bit count less one.
/// Bit counts above 8 panic and a count of 0 appends nothing, so both are
/// excluded.
#[verifier::external_body]
pub fn clock_bits_in_rising(b: ftdi_mpsse::MpsseCmdBuilder, len: u8) -> (r:
    ftdi_mpsse::MpsseCmdBuilder)
    requires
        1 <= len <= 8,
    ensures
        r.0@ == b.0@ + cbi_seq(len),
{
    b.clock_bits_in(ftdi_mpsse::ClockBitsIn::MsbPos, len)
}

/// Relies on `ftdi_mpsse::MpsseCmdBuilder::clock_data_out` with
/// `ClockDataOut::MsbNeg`: it appends that opcode, the two length bytes
/// (encoding `len - 1`), and the data.  Lengths above 65536 panic and an
/// empty slice appends nothing, so both are excluded.
#[verifier::external_body]
pub fn clock_data_out_falling(b: ftdi_mpsse::MpsseCmdBuilder, data: &[u8]) -> (r:
    ftdi_mpsse::MpsseCmdBuilder)
    requires
        1 <= data@.len() <= 65536,
    ensures
        r.0@ == b.0@ + clock_data_seq(CLOCK_DATA_OUT_NEG, data@),
{
    b.clock_data_out(ftdi_mpsse::ClockDataOut::MsbNeg, data)
}

/// Relies on `ftdi_mpsse::MpsseCmdBuilder::clock_data_out` with
/// `ClockDataOut::MsbPos`: it appends that opcode, the two length bytes
/// (encoding `len - 1`), and the data.  Lengths above 65536 panic and an
/// empty slice appends nothing, so both are excluded.
#[verifier::external_body]
pub fn clock_data_out_rising(b: ftdi_mpsse::MpsseCmdBuilder, data: &[u8]) -> (r:
    ftdi_mpsse::MpsseCmdBuilder)
    requires
        1 <= data@.len() <= 65536,
    ensures
        r.0@ == b.0@ + clock_data_seq(CLOCK_DATA_OUT_POS, data@),
{
    b.clock_data_out(ftdi_mpsse::ClockDataOut::MsbPos, data)
}

/// Relies on `ftdi_mpsse::MpsseCmdBuilder::clock_data` with
/// `ClockData::MsbPosIn`: it appends that opcode, the two length bytes
/// (encoding `len - 1`), and the data.  Lengths above 65536 panic and an
/// empty slice appends nothing, so both are excluded.
#[verifier::external_body]
pub fn clock_data_rising_in(b: ftdi_mpsse::MpsseCmdBuilder, data: &[u8]) -> (r:
    ftdi_mpsse::MpsseCmdBuilder)
    requires
        1 <= data@.len() <= 65536,
    ensures
        r.0@ == b.0@ + clock_data_seq(CLOCK_DATA_POS_IN, data@),
{
    b.clock_data(ftdi_mpsse::ClockData::MsbPosIn, data)
}

/// Relies on `ftdi_mpsse::MpsseCmdBuilder::clock_data` with
/// `ClockData::MsbNegIn`: it appends that opcode, the two length bytes
/// (encoding `len - 1`), and the data.  Lengths above 65536 panic and an
/// empty slice appends nothing, so both are excluded.
#[verifier::external_body]
pub fn clock_data_falling_in(b: ftdi_mpsse::MpsseCmdBuilder, data: &[u8]) -> (r:
    ftdi_mpsse::MpsseCmdBuilder)
    requires
        1 <= data@.len() <= 65536,
    ensures
        r.0@ == b.0@ + clock_data_seq(CLOCK_DATA_NEG_IN, data@),
{
    b.clock_data(ftdi_mpsse::ClockData::MsbNegIn, data)
}

} // verus!
