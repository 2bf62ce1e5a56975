//! Tests of the synchronous bit-bang fallback against a mock chip that
//! reproduces the one-byte read lag.

use ftdi_embedded_hal::Error;
use ftdi_embedded_hal::ErrorKind;
use ftdi_embedded_hal::FtHalSbb;
use ftdi_embedded_hal::FtHalSbbSettings;
use ftdi_embedded_hal::SbbTransport;

/// A chip in synchronous bit-bang mode: for every written byte it first
/// queues a sample of the current bus state, then drives the output bits.
/// Input bits read as pulled high.
struct LagChip {
    bus: u8,
    out_mask: u8,
    fifo: Vec<u8>,
    written: Vec<u8>,
    modes: Vec<u8>,
}

impl LagChip {
    fn new() -> LagChip {
        LagChip {
            // Power-up idle state: every line pulled high.
            bus: 0xFF,
            out_mask: 0x00,
            fifo: Vec::new(),
            written: Vec::new(),
            modes: Vec::new(),
        }
    }
}

impl SbbTransport for LagChip {
    fn configure(&mut self, _settings: &FtHalSbbSettings) -> Result<(), Error> {
        Ok(())
    }

    fn set_sync_bitbang(&mut self, mask: u8) -> Result<(), Error> {
        self.out_mask = mask;
        self.modes.push(mask);
        Ok(())
    }

    fn write_byte(&mut self, byte: u8) -> Result<(), Error> {
        // The parallel pins are sampled first, before the written data is
        // driven out: the sample is one byte behind.
        self.fifo.push(self.bus);
        self.bus = (byte & self.out_mask) | (0xFF & !self.out_mask);
        self.written.push(byte);
        Ok(())
    }

    fn drain(&mut self) -> Result<Vec<u8>, Error> {
        Ok(std::mem::take(&mut self.fifo))
    }
}

#[test]
fn first_get_returns_power_up_state() {
    let mut hal = FtHalSbb::init(LagChip::new(), &FtHalSbbSettings::default()).unwrap();
    let input = hal.adi3().unwrap();
    // Nothing has been written by this session; the sample is the
    // power-up idle level (high), not the session's zeroed output byte.
    assert_eq!(input.get(&mut hal), Ok(true));
}

#[test]
fn get_reflects_the_previous_set() {
    let mut hal = FtHalSbb::init(LagChip::new(), &FtHalSbbSettings::default()).unwrap();
    let out = hal.ad0().unwrap();
    // A probe handle on the same line, as if an oscilloscope were
    // attached: the pin itself is owned by the output handle.
    let input = ftdi_embedded_hal::InputPinSbb { pin: ftdi_embedded_hal::Pin::Lower(0) };
    // Drive the pin low, then high, then low; after each write the
    // re-send discipline makes the freshest sample visible.
    out.set(&mut hal, false).unwrap();
    assert_eq!(input.get(&mut hal), Ok(false));
    out.set(&mut hal, true).unwrap();
    assert_eq!(input.get(&mut hal), Ok(true));
    out.set(&mut hal, false).unwrap();
    assert_eq!(input.get(&mut hal), Ok(false));
    // Every get re-transmitted the current output byte: writes alternate
    // set values with their re-sends.
    assert_eq!(
        hal.inner.ft.written,
        vec![0x00, 0x00, 0x01, 0x01, 0x00, 0x00]
    );
}

#[test]
fn set_drains_the_response_buffer() {
    let mut hal = FtHalSbb::init(LagChip::new(), &FtHalSbbSettings::default()).unwrap();
    let out = hal.ad2().unwrap();
    for i in 0..100u32 {
        out.set(&mut hal, i % 2 == 0).unwrap();
        // Each write queues one sample, but each set drained the buffer
        // first: it can never hold more than the latest sample.
        assert!(hal.inner.ft.fifo.len() <= 1);
    }
}

#[test]
fn sbb_allocation_is_exclusive() {
    let mut hal = FtHalSbb::init(LagChip::new(), &FtHalSbbSettings::default()).unwrap();
    let _out = hal.ad4().unwrap();
    let modes_before = hal.inner.ft.modes.clone();
    assert!(matches!(
        hal.adi4(),
        Err(Error::Hal(ErrorKind::AllocationConflict))
    ));
    // The conflict was detected before any device activity.
    assert_eq!(hal.inner.ft.modes, modes_before);
}

#[test]
fn sbb_direction_masks() {
    let mut hal = FtHalSbb::init(LagChip::new(), &FtHalSbbSettings::default()).unwrap();
    let _out1 = hal.ad1().unwrap();
    let _out6 = hal.ad6().unwrap();
    let _in2 = hal.adi2().unwrap();
    // init configures all-inputs; each acquisition re-enters bit-bang
    // mode with the widened (or narrowed) direction mask.
    assert_eq!(hal.inner.ft.modes, vec![0x00, 0x02, 0x42, 0x42]);
}
