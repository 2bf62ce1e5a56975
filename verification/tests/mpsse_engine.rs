//! Tests of the MPSSE command engine against mock transports.

use ftdi_embedded_hal::i2c::I2c;
use ftdi_embedded_hal::spi::Polarity;
use ftdi_embedded_hal::spi::SpiOp;
use ftdi_embedded_hal::Error;
use ftdi_embedded_hal::ErrorKind;
use ftdi_embedded_hal::FtHal;
use ftdi_embedded_hal::GpioByte;
use ftdi_embedded_hal::MpsseSettings;
use ftdi_embedded_hal::Pin;
use ftdi_embedded_hal::PinUse;
use ftdi_embedded_hal::Transport;

/// A device that records every batch sent and answers every read with a
/// fixed fill byte.
struct FillDevice {
    sent: Vec<Vec<u8>>,
    fill: u8,
}

impl FillDevice {
    fn new(fill: u8) -> FillDevice {
        FillDevice { sent: Vec::new(), fill }
    }
}

impl Transport for FillDevice {
    fn configure(&mut self, _settings: &MpsseSettings) -> Result<(), Error> {
        Ok(())
    }

    fn send(&mut self, data: &[u8]) -> Result<(), Error> {
        self.sent.push(data.to_vec());
        Ok(())
    }

    fn recv(&mut self, n: usize) -> Result<Vec<u8>, Error> {
        Ok(vec![self.fill; n])
    }
}

/// A device that loops every full-duplex clock-data payload back into its
/// response buffer, like MISO wired to MOSI.
struct Loopback {
    sent: Vec<Vec<u8>>,
    pending: Vec<u8>,
}

impl Loopback {
    fn new() -> Loopback {
        Loopback { sent: Vec::new(), pending: Vec::new() }
    }

    fn interpret(&mut self, data: &[u8]) {
        let mut i = 0usize;
        while i < data.len() {
            match data[i] {
                // clock data in+out: the payload is looped back
                0x31 | 0x34 => {
                    let len = (data[i + 1] as usize) | ((data[i + 2] as usize) << 8);
                    let len = len + 1;
                    self.pending
                        .extend_from_slice(&data[i + 3..i + 3 + len]);
                    i += 3 + len;
                }
                // clock data out only: nothing comes back
                0x11 | 0x10 => {
                    let len = (data[i + 1] as usize) | ((data[i + 2] as usize) << 8);
                    let len = len + 1;
                    i += 3 + len;
                }
                // set bank value/direction
                0x80 | 0x82 => i += 3,
                // read bank
                0x81 | 0x83 => {
                    self.pending.push(0);
                    i += 1;
                }
                // flush, 3-phase clocking
                0x87 | 0x8C => i += 1,
                other => panic!("unexpected opcode {other:#x}"),
            }
        }
    }
}

impl Transport for Loopback {
    fn configure(&mut self, _settings: &MpsseSettings) -> Result<(), Error> {
        Ok(())
    }

    fn send(&mut self, data: &[u8]) -> Result<(), Error> {
        self.sent.push(data.to_vec());
        let copy = data.to_vec();
        self.interpret(&copy);
        Ok(())
    }

    fn recv(&mut self, n: usize) -> Result<Vec<u8>, Error> {
        if self.pending.len() < n {
            return Err(Error::Transport);
        }
        let rest = self.pending.split_off(n);
        let head = std::mem::replace(&mut self.pending, rest);
        Ok(head)
    }
}

fn strip_flush(batch: &[u8]) -> Vec<u8> {
    assert_eq!(*batch.last().unwrap(), 0x87);
    batch[..batch.len() - 1].to_vec()
}

#[test]
fn allocate_pin_exclusive() {
    let mut inner = ftdi_embedded_hal::FtInner {
        ft: FillDevice::new(0),
        lower: GpioByte::new(),
        upper: GpioByte::new(),
    };
    assert_eq!(inner.allocate_pin(3, PinUse::Output), Ok(()));
    let dir = inner.lower.direction;
    let val = inner.lower.value;
    let pins = inner.lower.pins.clone();
    // A second allocation of the same pin fails and mutates nothing.
    assert_eq!(
        inner.allocate_pin(3, PinUse::I2c),
        Err(Error::Hal(ErrorKind::AllocationConflict))
    );
    assert_eq!(inner.lower.direction, dir);
    assert_eq!(inner.lower.value, val);
    assert_eq!(inner.lower.pins, pins);
    // Other pins are unaffected.
    assert_eq!(inner.allocate_pin(4, PinUse::Input), Ok(()));
}

#[test]
fn acquire_conflicts_across_peripherals() {
    let mut hal = FtHal::init_default(FillDevice::new(0)).unwrap();
    let _i2c = hal.i2c().unwrap();
    // The I2C engine owns pins 0-2; GPIO and SPI on them must fail.
    assert!(matches!(
        hal.ad0(),
        Err(Error::Hal(ErrorKind::AllocationConflict))
    ));
    assert!(matches!(
        hal.spi(),
        Err(Error::Hal(ErrorKind::AllocationConflict))
    ));
    // Pin 5 is still free.
    assert!(hal.ad5().is_ok());
}

#[test]
fn ack_decoding_low_bit_only() {
    // ACK iff bit 0 is clear, whatever the upper seven bits hold.
    assert!(ftdi_embedded_hal::i2c::decode_ack(0x00));
    assert!(ftdi_embedded_hal::i2c::decode_ack(0xFE));
    assert!(ftdi_embedded_hal::i2c::decode_ack(0x82));
    assert!(!ftdi_embedded_hal::i2c::decode_ack(0x01));
    assert!(!ftdi_embedded_hal::i2c::decode_ack(0xFF));
    assert!(!ftdi_embedded_hal::i2c::decode_ack(0x81));
}

#[test]
fn i2c_init_batch_bytes() {
    let mut hal = FtHal::init_default(FillDevice::new(0)).unwrap();
    let _bus = hal.i2c().unwrap();
    // Idle tri-stated bus, 3-phase clocking, flush.
    assert_eq!(hal.inner.ft.sent, vec![vec![0x80, 0x00, 0x00, 0x8C, 0x87]]);
}

#[test]
fn i2c_write_slow_exact_bytes() {
    let mut hal = FtHal::init_default(FillDevice::new(0)).unwrap();
    let mut bus = hal.i2c().unwrap();
    bus.set_stop_start_len(1);
    bus.write(&mut hal, 0x50, &[0xAB]).unwrap();
    // Batch 1: START (one command per level), address 0x50 with the write
    // bit, ACK probe, flush.
    let expect1 = vec![
        0x80, 0x03, 0x03, // SCL and SDA high, both driven
        0x80, 0x01, 0x03, // SDA falls while SCL stays high
        0x80, 0x00, 0x03, // lines low, both driven
        0x13, 0x07, 0xA0, // clock out 8 bits of 0xA0 (0x50 << 1)
        0x80, 0x00, 0x01, // release SDA, keep SCL driven
        0x22, 0x00, // clock in 1 ACK bit
        0x87,
    ];
    // Batch 2: payload byte, ACK probe, STOP, idle, flush.
    let expect2 = vec![
        0x80, 0x00, 0x03, // re-take SDA
        0x13, 0x07, 0xAB, // clock out 8 bits of 0xAB
        0x80, 0x00, 0x01, // release SDA
        0x22, 0x00, // clock in 1 ACK bit
        0x80, 0x00, 0x03, // lines low
        0x80, 0x01, 0x03, // SCL rises
        0x80, 0x03, 0x03, // SDA rises while SCL high
        0x80, 0x00, 0x00, // back to idle inputs
        0x87,
    ];
    assert_eq!(hal.inner.ft.sent[1], expect1);
    assert_eq!(hal.inner.ft.sent[2], expect2);
}

#[test]
fn i2c_strategy_equivalence_write() {
    // The two strategies put identical bytes on the wire; only the
    // number and grouping of flush points differ.
    let payload = [0xDE, 0xAD, 0xBE, 0xEF];
    let mut slow_hal = FtHal::init_default(FillDevice::new(0)).unwrap();
    let mut slow_bus = slow_hal.i2c().unwrap();
    slow_bus.write(&mut slow_hal, 0x2A, &payload).unwrap();
    let mut fast_hal = FtHal::init_default(FillDevice::new(0)).unwrap();
    let mut fast_bus = fast_hal.i2c().unwrap();
    fast_bus.set_fast(true);
    fast_bus.write(&mut fast_hal, 0x2A, &payload).unwrap();

    let slow_cat: Vec<u8> = slow_hal.inner.ft.sent[1..]
        .iter()
        .flat_map(|b| strip_flush(b))
        .collect();
    let fast_cat: Vec<u8> = fast_hal.inner.ft.sent[1..]
        .iter()
        .flat_map(|b| strip_flush(b))
        .collect();
    assert_eq!(slow_hal.inner.ft.sent.len(), 1 + 1 + payload.len());
    assert_eq!(fast_hal.inner.ft.sent.len(), 1 + 1);
    assert_eq!(slow_cat, fast_cat);
}

fn concat_ops_for(fast: bool) -> Vec<u8> {
    let mut hal = FtHal::init_default(FillDevice::new(0)).unwrap();
    let mut bus = hal.i2c().unwrap();
    bus.set_fast(fast);
    bus.read(&mut hal, 0x11, 3).unwrap();
    bus.write_read(&mut hal, 0x11, &[0x01, 0x02], 3).unwrap();
    hal.inner.ft.sent[1..]
        .iter()
        .flat_map(|b| strip_flush(b))
        .collect()
}

#[test]
fn i2c_strategy_equivalence_read_and_write_read() {
    assert_eq!(concat_ops_for(false), concat_ops_for(true));
}

#[test]
fn i2c_nak_aborts_slow_write() {
    // Every sampled ACK bit reads 1: NAK at the address phase.
    let mut hal = FtHal::init_default(FillDevice::new(0x01)).unwrap();
    let mut bus = hal.i2c().unwrap();
    let r = bus.write(&mut hal, 0x50, &[0x01, 0x02, 0x03]);
    assert_eq!(r, Err(Error::Hal(ErrorKind::I2cNoAck)));
    // The slow strategy aborts immediately: only the init batch and the
    // address batch went out.
    assert_eq!(hal.inner.ft.sent.len(), 2);
}

#[test]
fn i2c_nak_fast_write_clocks_everything() {
    let mut hal = FtHal::init_default(FillDevice::new(0x01)).unwrap();
    let mut bus = hal.i2c().unwrap();
    bus.set_fast(true);
    let r = bus.write(&mut hal, 0x50, &[0x01, 0x02, 0x03]);
    assert_eq!(r, Err(Error::Hal(ErrorKind::I2cNoAck)));
    // The fast strategy has no early abort: the whole transaction was
    // already on the wire as one batch.
    assert_eq!(hal.inner.ft.sent.len(), 2);
    let full = &hal.inner.ft.sent[1];
    // STOP and idle are part of that single batch.
    assert_eq!(full[full.len() - 1], 0x87);
    assert_eq!(&full[full.len() - 4..full.len() - 1], &[0x80, 0x00, 0x00]);
}

#[test]
fn i2c_empty_buffers_rejected() {
    let mut hal = FtHal::init_default(FillDevice::new(0)).unwrap();
    let mut bus = hal.i2c().unwrap();
    let sent_before = hal.inner.ft.sent.len();
    assert_eq!(
        bus.write(&mut hal, 0x50, &[]),
        Err(Error::Hal(ErrorKind::MalformedParameter))
    );
    assert!(matches!(
        bus.read(&mut hal, 0x50, 0),
        Err(Error::Hal(ErrorKind::MalformedParameter))
    ));
    assert!(matches!(
        bus.write_read(&mut hal, 0x50, &[], 2),
        Err(Error::Hal(ErrorKind::MalformedParameter))
    ));
    assert!(matches!(
        bus.write_read(&mut hal, 0x50, &[1], 0),
        Err(Error::Hal(ErrorKind::MalformedParameter))
    ));
    bus.set_fast(true);
    assert_eq!(
        bus.write(&mut hal, 0x50, &[]),
        Err(Error::Hal(ErrorKind::MalformedParameter))
    );
    // Rejected before any command was built: nothing was sent.
    assert_eq!(hal.inner.ft.sent.len(), sent_before);
}

#[test]
fn spi_loopback_round_trip() {
    let mut hal = FtHal::init_default(Loopback::new()).unwrap();
    let spi = hal.spi().unwrap();
    let mut words = vec![0xDE, 0xAD, 0xBE, 0xEF];
    spi.transfer_in_place(&mut hal, &mut words).unwrap();
    assert_eq!(words, vec![0xDE, 0xAD, 0xBE, 0xEF]);
}

#[test]
fn spi_asymmetric_transfer() {
    let mut hal = FtHal::init_default(Loopback::new()).unwrap();
    let spi = hal.spi().unwrap();
    for _ in 0..3 {
        let read = spi
            .transfer(&mut hal, 2, &[0xDE, 0xAD, 0xBE, 0xEF])
            .unwrap();
        assert_eq!(read, vec![0xDE, 0xAD]);
        // All four bytes were clocked out and the excess response was
        // drained: the chip's buffer does not grow across calls.
        assert!(hal.inner.ft.pending.is_empty());
    }
    // A read longer than the write cannot be satisfied by the clocked
    // cycles and is rejected up front.
    assert_eq!(
        spi.transfer(&mut hal, 3, &[0x01, 0x02]),
        Err(Error::Hal(ErrorKind::MalformedParameter))
    );
}

#[test]
fn spi_write_and_read_bytes() {
    let mut hal = FtHal::init_default(Loopback::new()).unwrap();
    let mut spi = hal.spi().unwrap();
    // Bus init: SCK and MOSI outputs, idle.
    assert_eq!(hal.inner.ft.sent[0], vec![0x80, 0x00, 0x03, 0x87]);
    spi.write(&mut hal, &[0x12, 0x34]).unwrap();
    assert_eq!(
        hal.inner.ft.sent[1],
        vec![0x11, 0x01, 0x00, 0x12, 0x34, 0x87]
    );
    let data = spi.read(&mut hal, 3).unwrap();
    assert_eq!(data, vec![0x00, 0x00, 0x00]);
    assert_eq!(
        hal.inner.ft.sent[2],
        vec![0x31, 0x02, 0x00, 0x00, 0x00, 0x00, 0x87]
    );
    // Idle-high polarity switches the clocking opcodes.
    spi.set_clock_polarity(Polarity::IdleHigh);
    spi.write(&mut hal, &[0x56]).unwrap();
    assert_eq!(hal.inner.ft.sent[3], vec![0x10, 0x00, 0x00, 0x56, 0x87]);
    let mut buf = vec![0x78];
    spi.transfer_in_place(&mut hal, &mut buf).unwrap();
    assert_eq!(hal.inner.ft.sent[4], vec![0x34, 0x00, 0x00, 0x78, 0x87]);
    assert_eq!(buf, vec![0x78]);
}

#[test]
fn spi_empty_buffers_rejected() {
    let mut hal = FtHal::init_default(Loopback::new()).unwrap();
    let spi = hal.spi().unwrap();
    let sent_before = hal.inner.ft.sent.len();
    assert_eq!(
        spi.write(&mut hal, &[]),
        Err(Error::Hal(ErrorKind::MalformedParameter))
    );
    assert!(matches!(
        spi.read(&mut hal, 0),
        Err(Error::Hal(ErrorKind::MalformedParameter))
    ));
    assert!(matches!(
        spi.transfer(&mut hal, 0, &[1]),
        Err(Error::Hal(ErrorKind::MalformedParameter))
    ));
    let mut empty: Vec<u8> = Vec::new();
    assert_eq!(
        spi.transfer_in_place(&mut hal, &mut empty),
        Err(Error::Hal(ErrorKind::MalformedParameter))
    );
    assert_eq!(hal.inner.ft.sent.len(), sent_before);
}

#[test]
fn spi_device_transaction() {
    let mut hal = FtHal::init_default(Loopback::new()).unwrap();
    let dev = hal.spi_device(3).unwrap();
    // SCK, MOSI and CS are outputs.
    assert_eq!(hal.inner.ft.sent[0], vec![0x80, 0x00, 0x0B, 0x87]);
    let ops = vec![
        SpiOp::Write(vec![0x01, 0x02]),
        SpiOp::Read(2),
        SpiOp::Transfer(vec![0x05, 0x06, 0x07], 1),
        SpiOp::TransferInPlace(vec![0x09]),
    ];
    let resps = dev.transaction(&mut hal, &ops).unwrap();
    assert_eq!(
        resps,
        vec![vec![], vec![0x00, 0x00], vec![0x05], vec![0x09]]
    );
    // Chip select asserted low before the first clock edge, deasserted
    // after the last.
    assert_eq!(hal.inner.ft.sent[1], vec![0x80, 0x00, 0x0B, 0x87]);
    assert_eq!(
        hal.inner.ft.sent.last().unwrap(),
        &vec![0x80, 0x08, 0x0B, 0x87]
    );
    assert_eq!(hal.inner.ft.sent.len(), 1 + 1 + ops.len() + 1);
    // The excess transfer response was drained.
    assert!(hal.inner.ft.pending.is_empty());

    // A malformed operation is rejected before the chip select moves.
    let sent_before = hal.inner.ft.sent.len();
    assert_eq!(
        dev.transaction(&mut hal, &vec![SpiOp::Write(vec![])]),
        Err(Error::Hal(ErrorKind::MalformedParameter))
    );
    assert_eq!(hal.inner.ft.sent.len(), sent_before);
}

#[test]
fn spi_device_cs_conflicts_with_bus_pins() {
    let mut hal = FtHal::init_default(Loopback::new()).unwrap();
    assert!(matches!(
        hal.spi_device(1),
        Err(Error::Hal(ErrorKind::AllocationConflict))
    ));
}

#[test]
fn gpio_output_and_input() {
    let mut hal = FtHal::init_default(FillDevice::new(0xFF)).unwrap();
    let out = hal.ad0().unwrap();
    assert_eq!(hal.inner.ft.sent[0], vec![0x80, 0x00, 0x01, 0x87]);
    out.set(&mut hal, true).unwrap();
    assert_eq!(hal.inner.ft.sent[1], vec![0x80, 0x01, 0x01, 0x87]);
    out.set(&mut hal, false).unwrap();
    assert_eq!(hal.inner.ft.sent[2], vec![0x80, 0x00, 0x01, 0x87]);
    let input = hal.adi3().unwrap();
    assert_eq!(hal.inner.ft.sent[3], vec![0x80, 0x00, 0x01, 0x87]);
    // The full bank reads back 0xFF; bit 3 is set.
    assert_eq!(input.get(&mut hal), Ok(true));
    assert_eq!(hal.inner.ft.sent[4], vec![0x81, 0x87]);
    hal.inner.ft.fill = 0xF7;
    assert_eq!(input.get(&mut hal), Ok(false));
}

#[test]
fn gpio_upper_bank() {
    let mut hal = FtHal::init_default(FillDevice::new(0x00)).unwrap();
    let out = ftdi_embedded_hal::gpio::OutputPin::new(&mut hal, Pin::Upper(2)).unwrap();
    assert_eq!(hal.inner.ft.sent[0], vec![0x82, 0x00, 0x04, 0x87]);
    out.set(&mut hal, true).unwrap();
    assert_eq!(hal.inner.ft.sent[1], vec![0x82, 0x04, 0x04, 0x87]);
    let input = ftdi_embedded_hal::gpio::InputPin::new(&mut hal, Pin::Upper(5)).unwrap();
    assert_eq!(input.get(&mut hal), Ok(false));
    assert_eq!(hal.inner.ft.sent[3], vec![0x83, 0x87]);
}

#[test]
fn error_kind_strings() {
    assert_eq!(ErrorKind::I2cNoAck.as_str(), "No ACK from slave");
    assert_eq!(
        ErrorKind::AllocationConflict.as_str(),
        "pin is already allocated"
    );
    assert_eq!(
        ErrorKind::MalformedParameter.as_str(),
        "malformed parameter"
    );
}

#[test]
fn delay_constructors() {
    let _d = ftdi_embedded_hal::Delay::new();
    let _d2 = ftdi_embedded_hal::Delay::default();
}

#[test]
fn i2c_handle_configuration() {
    let mut bus = I2c { start_stop_cmds: 3, fast: false };
    bus.set_stop_start_len(10);
    assert_eq!(bus.start_stop_cmds, 10);
    assert!(!bus.fast);
    bus.set_fast(true);
    assert!(bus.fast);
    assert_eq!(bus.start_stop_cmds, 10);
}

/// A device whose command traffic fails outright.
struct DeadDevice;

impl Transport for DeadDevice {
    fn configure(&mut self, _settings: &MpsseSettings) -> Result<(), Error> {
        Ok(())
    }

    fn send(&mut self, _data: &[u8]) -> Result<(), Error> {
        Err(Error::Transport)
    }

    fn recv(&mut self, _n: usize) -> Result<Vec<u8>, Error> {
        Err(Error::Transport)
    }
}

#[test]
fn transport_failure_surfaces() {
    // The init command batch of the I2C engine already fails.
    let mut hal = FtHal::init_default(DeadDevice).unwrap();
    assert_eq!(hal.i2c().map(|_| ()), Err(Error::Transport));
}

#[test]
fn spi_write_length_encoding() {
    let mut hal = FtHal::init_default(FillDevice::new(0)).unwrap();
    let spi = hal.spi().unwrap();
    // 257 bytes: the on-wire length field encodes len - 1 = 0x0100.
    let words = vec![0x55u8; 257];
    spi.write(&mut hal, &words).unwrap();
    assert_eq!(&hal.inner.ft.sent[1][..3], &[0x11, 0x00, 0x01]);
    assert_eq!(hal.inner.ft.sent[1].len(), 3 + 257 + 1);
    // The largest clockable batch: 65536 bytes encode as 0xFFFF.
    let words = vec![0xAAu8; 65536];
    spi.write(&mut hal, &words).unwrap();
    assert_eq!(&hal.inner.ft.sent[2][..3], &[0x11, 0xFF, 0xFF]);
    assert_eq!(hal.inner.ft.sent[2].len(), 3 + 65536 + 1);
}

#[test]
fn i2c_read_returns_received_bytes() {
    let mut hal = FtHal::init_default(FillDevice::new(0x6A)).unwrap();
    let mut bus = hal.i2c().unwrap();
    // 0x6A has a clear low bit, so every ACK probe passes and every data
    // byte reads back as the fill value.
    let data = bus.read(&mut hal, 0x3C, 4).unwrap();
    assert_eq!(data, vec![0x6A; 4]);
    let data = bus.write_read(&mut hal, 0x3C, &[0x10], 2).unwrap();
    assert_eq!(data, vec![0x6A; 2]);
    bus.set_fast(true);
    let data = bus.read(&mut hal, 0x3C, 3).unwrap();
    assert_eq!(data, vec![0x6A; 3]);
    let data = bus.write_read(&mut hal, 0x3C, &[0x10], 5).unwrap();
    assert_eq!(data, vec![0x6A; 5]);
}
