//! An embedded-hal style driver engine for FTDI USB chips with a
//! multi-protocol synchronous serial engine (MPSSE).
//!
//! The engine synthesizes SPI, I2C and GPIO bus traffic as batched MPSSE
//! opcode streams.  Every command batch the engine hands to the transport is
//! pinned down byte for byte by the contracts in this crate; the USB
//! transport itself is an opaque collaborator reached through the
//! [`Transport`] trait.

use vstd::prelude::*;

mod delay;
mod error;
pub mod gpio;
pub mod i2c;
pub mod fthalsbb;
pub mod gpiosbb;
pub mod mpsse;
pub mod spi;
pub mod transport;

pub use delay::Delay;
pub use error::Error;
pub use error::ErrorKind;
pub use fthalsbb::FtHalSbb;
pub use fthalsbb::FtHalSbbSettings;
pub use gpiosbb::InputPinSbb;
pub use gpiosbb::OutputPinSbb;
pub use transport::SbbTransport;
pub use transport::Transport;


verus! {

/// State tracker for each pin on the FTDI chip.
#[derive(Debug, Clone, Copy, PartialEq, Eq, Structural)]
pub enum PinUse {
    /// Owned by the I2C engine.
    I2c,
    /// Owned by the SPI engine.
    Spi,
    /// Owned as a digital output pin.
    Output,
    /// Owned as a digital input pin.
    Input,
}

/// Pin number, on the lower (0-7) or upper (8-15) GPIO bank.
#[derive(Debug, Clone, Copy, PartialEq, Eq, Structural)]
pub enum Pin {
    /// Pin on the lower bank, index 0-7.
    Lower(u8),
    /// Pin on the upper bank, index 0-7.
    Upper(u8),
}

/// Initialization settings for the MPSSE command engine.
///
/// Timeouts and the latency timer are in milliseconds.
#[derive(Debug, Clone, Copy, PartialEq, Eq, Structural)]
pub struct MpsseSettings {
    /// Reset the device on initialization.
    pub reset: bool,
    /// USB in transfer size in bytes.
    pub in_transfer_size: u32,
    /// Read timeout in milliseconds.
    pub read_timeout_ms: u64,
    /// Write timeout in milliseconds.
    pub write_timeout_ms: u64,
    /// Latency timer in milliseconds.
    pub latency_timer_ms: u64,
    /// Bitmode mask; a bit value of `1` sets the corresponding pin to an
    /// output.
    pub mask: u8,
    /// Clock frequency.  `None` applies no frequency change.
    pub clock_frequency: Option<u32>,
}

/// The default MPSSE settings: reset, 4k USB transfer size, 1 s timeouts,
/// 16 ms latency timer, no frequency change.
pub open spec fn default_mpsse_settings() -> MpsseSettings {
    MpsseSettings {
        reset: true,
        in_transfer_size: 4096,
        read_timeout_ms: 1000,
        write_timeout_ms: 1000,
        latency_timer_ms: 16,
        mask: 0,
        clock_frequency: None,
    }
}

impl Default for MpsseSettings {
    /// The settings of [`default_mpsse_settings`].
    fn default() -> (r: MpsseSettings)
        ensures
            r == default_mpsse_settings(),
    {
        MpsseSettings {
            reset: true,
            in_transfer_size: 4096,
            read_timeout_ms: 1000,
            write_timeout_ms: 1000,
            latency_timer_ms: 16,
            mask: 0,
            clock_frequency: None,
        }
    }
}

/// Direction mask, value mask and ownership table of one 8-pin GPIO bank.
pub struct GpioByte {
    /// GPIO direction mask; `1` is output, `0` is input.
    pub direction: u8,
    /// GPIO value mask; `1` is high, `0` is low.
    pub value: u8,
    /// Pin ownership table, one entry per pin index.
    pub pins: Vec<Option<PinUse>>,
}

impl GpioByte {
    /// A bank is well formed when it has exactly one ownership slot per pin.
    pub open spec fn wf(&self) -> bool {
        self.pins@.len() == 8
    }

    /// A fresh bank: all pins are inputs, low, and unowned.
    pub fn new() -> (r: GpioByte)
        ensures
            r.wf(),
            r.direction == 0,
            r.value == 0,
            forall|i: int| 0 <= i < 8 ==> r.pins@[i] is None,
    {
        let mut pins: Vec<Option<PinUse>> = Vec::new();
        let mut k: usize = 0;
        while k < 8
            invariant
                k <= 8,
                pins@.len() == k,
                forall|i: int| 0 <= i < k ==> pins@[i] is None,
            decreases 8 - k,
        {
            pins.push(None);
            k = k + 1;
        }
        GpioByte { direction: 0, value: 0, pins }
    }
}

/// The owner of the physical device handle and the per-bank pin state.
///
/// All peripheral handles route their bus activity through one value of this
/// type; the caller is expected to serialize access to it.
pub struct FtInner<D> {
    /// FTDI device transport.
    pub ft: D,
    /// Lower pin bank.
    pub lower: GpioByte,
    /// Upper pin bank.
    pub upper: GpioByte,
}

impl<D> FtInner<D> {
    /// Both banks are well formed.
    pub open spec fn wf(&self) -> bool {
        self.lower.wf() && self.upper.wf()
    }

    /// The registry state (everything but the transport) of two sessions is
    /// identical.
    pub open spec fn same_pin_state(&self, other: &FtInner<D>) -> bool {
        &&& self.lower.direction == other.lower.direction
        &&& self.lower.value == other.lower.value
        &&& self.lower.pins@ == other.lower.pins@
        &&& self.upper.direction == other.upper.direction
        &&& self.upper.value == other.upper.value
        &&& self.upper.pins@ == other.upper.pins@
    }

    /// Allocate a pin of the lower bank for a specific use.
    ///
    /// Requesting a pin that is already owned is a wiring or programming
    /// defect; it fails with [`ErrorKind::AllocationConflict`] before any bus
    /// activity, and leaves every direction, value and ownership entry
    /// untouched.  Ownership, once granted, lasts for the life of the
    /// session.
    pub fn allocate_pin(&mut self, idx: u8, purpose: PinUse) -> (r: Result<(), Error>)
        requires
            old(self).wf(),
            idx < 8,
        ensures
            final(self).wf(),
            old(self).lower.pins@[idx as int] is None ==> {
                &&& r matches Ok(())
                &&& final(self).lower.pins@ == old(self).lower.pins@.update(
                    idx as int,
                    Some(purpose),
                )
            },
            old(self).lower.pins@[idx as int] is Some ==> {
                &&& r == Err::<(), Error>(Error::Hal(ErrorKind::AllocationConflict))
                &&& final(self).lower.pins@ == old(self).lower.pins@
            },
            final(self).lower.direction == old(self).lower.direction,
            final(self).lower.value == old(self).lower.value,
            final(self).upper.direction == old(self).upper.direction,
            final(self).upper.value == old(self).upper.value,
            final(self).upper.pins@ == old(self).upper.pins@,
            final(self).ft == old(self).ft,
    {
        if self.lower.pins[idx as usize].is_some() {
            Err(Error::Hal(ErrorKind::AllocationConflict))
        } else {
            self.lower.pins.set(idx as usize, Some(purpose));
            Ok(())
        }
    }

    /// Allocate a pin of either bank for a specific use.
    ///
    /// Behaves as [`FtInner::allocate_pin`], on the bank the pin names.
    pub fn allocate_pin_any(&mut self, pin: Pin, purpose: PinUse) -> (r: Result<(), Error>)
        requires
            old(self).wf(),
            pin matches Pin::Lower(i) ==> i < 8,
            pin matches Pin::Upper(i) ==> i < 8,
        ensures
            final(self).wf(),
            final(self).ft == old(self).ft,
            pin matches Pin::Lower(idx) ==> {
                &&& (old(self).lower.pins@[idx as int] is None ==> (r matches Ok(()))
                    && final(self).lower.pins@ == old(self).lower.pins@.update(
                    idx as int,
                    Some(purpose),
                ))
                &&& (old(self).lower.pins@[idx as int] is Some ==> r == Err::<(), Error>(
                    Error::Hal(ErrorKind::AllocationConflict),
                ) && final(self).lower.pins@ == old(self).lower.pins@)
                &&& final(self).upper.pins@ == old(self).upper.pins@
            },
            pin matches Pin::Upper(idx) ==> {
                &&& (old(self).upper.pins@[idx as int] is None ==> (r matches Ok(()))
                    && final(self).upper.pins@ == old(self).upper.pins@.update(
                    idx as int,
                    Some(purpose),
                ))
                &&& (old(self).upper.pins@[idx as int] is Some ==> r == Err::<(), Error>(
                    Error::Hal(ErrorKind::AllocationConflict),
                ) && final(self).upper.pins@ == old(self).upper.pins@)
                &&& final(self).lower.pins@ == old(self).lower.pins@
            },
            final(self).lower.direction == old(self).lower.direction,
            final(self).lower.value == old(self).lower.value,
            final(self).upper.direction == old(self).upper.direction,
            final(self).upper.value == old(self).upper.value,
    {
        match pin {
            Pin::Lower(idx) => {
                if self.lower.pins[idx as usize].is_some() {
                    Err(Error::Hal(ErrorKind::AllocationConflict))
                } else {
                    self.lower.pins.set(idx as usize, Some(purpose));
                    Ok(())
                }
            },
            Pin::Upper(idx) => {
                if self.upper.pins[idx as usize].is_some() {
                    Err(Error::Hal(ErrorKind::AllocationConflict))
                } else {
                    self.upper.pins.set(idx as usize, Some(purpose));
                    Ok(())
                }
            },
        }
    }
}


/// FTxxx device session with the MPSSE command engine initialized.
///
/// Created by [`FtHal::init`]; peripheral handles are acquired from it and
/// route their bus activity through it.  Callers are expected to serialize
/// access to the session.
pub struct FtHal<D: Transport> {
    /// The session state: device transport and per-bank pin registry.
    pub inner: FtInner<D>,
}

impl<D: Transport> FtHal<D> {
    /// Fresh session: banks zeroed, no pin owned, no traffic recorded
    /// beyond what the device had.
    pub open spec fn fresh(&self, device: D) -> bool {
        &&& self.inner.wf()
        &&& self.inner.lower.direction == 0
        &&& self.inner.lower.value == 0
        &&& self.inner.upper.direction == 0
        &&& self.inner.upper.value == 0
        &&& (forall|i: int| 0 <= i < 8 ==> self.inner.lower.pins@[i] is None)
        &&& (forall|i: int| 0 <= i < 8 ==> self.inner.upper.pins@[i] is None)
        &&& self.inner.ft.sent() == device.sent()
        &&& self.inner.ft.received() == device.received()
    }

    /// Initialize the FTDI MPSSE with custom values.
    ///
    /// Configuration must happen exactly once, before any peripheral is
    /// acquired; peripherals can only be acquired from the session this
    /// returns.  A missing clock frequency is excluded by contract.
    pub fn init(device: D, mpsse_settings: &MpsseSettings) -> (r: Result<FtHal<D>, Error>)
        requires
            mpsse_settings.clock_frequency matches Some(_),
        ensures
            r matches Ok(h) ==> h.fresh(device) && h.inner.ft.configured()
                == device.configured().push(*mpsse_settings),
            r matches Err(e) ==> e == Error::Transport,
    {
        let mut ft = device;
        match ft.configure(mpsse_settings) {
            Ok(()) => (),
            Err(e) => {
                return Err(e);
            },
        }
        Ok(FtHal { inner: FtInner { ft, lower: GpioByte::new(), upper: GpioByte::new() } })
    }

    /// Initialize the FTDI MPSSE with sane defaults: reset, 4k USB transfer
    /// size, 1 s timeouts, 16 ms latency timer, 100 kHz clock frequency.
    pub fn init_default(device: D) -> (r: Result<FtHal<D>, Error>)
        ensures
            r matches Ok(h) ==> h.fresh(device) && h.inner.ft.configured()
                == device.configured().push(
                MpsseSettings { clock_frequency: Some(100_000), ..default_mpsse_settings() },
            ),
            r matches Err(e) ==> e == Error::Transport,
    {
        let mut settings: MpsseSettings = MpsseSettings::default();
        settings.clock_frequency = Some(100_000);
        FtHal::init(device, &settings)
    }

    /// Initialize the FTDI MPSSE with sane defaults and a custom clock
    /// frequency.
    pub fn init_freq(device: D, freq: u32) -> (r: Result<FtHal<D>, Error>)
        ensures
            r matches Ok(h) ==> h.fresh(device) && h.inner.ft.configured()
                == device.configured().push(
                MpsseSettings { clock_frequency: Some(freq), ..default_mpsse_settings() },
            ),
            r matches Err(e) ==> e == Error::Transport,
    {
        let mut settings: MpsseSettings = MpsseSettings::default();
        settings.clock_frequency = Some(freq);
        FtHal::init(device, &settings)
    }
}


impl<D: Transport> FtHal<D> {
    /// Acquire the SPI peripheral: AD0 is SCK, AD1 is MOSI, AD2 is MISO.
    ///
    /// Fails with [`ErrorKind`](crate::ErrorKind)`::AllocationConflict` if
    /// pin 0, 1 or 2 is already in use.
    pub fn spi(&mut self) -> (r: Result<spi::Spi, Error>)
        requires
            old(self).inner.wf(),
        ensures
            spi::spi_acquired(*old(self), *final(self), r),
    {
        spi::Spi::new(self)
    }

    /// Acquire the SPI device peripheral: AD0 is SCK, AD1 is MOSI, AD2 is
    /// MISO, and `cs_idx` is the chip select output (asserted low).
    ///
    /// Fails with [`ErrorKind`](crate::ErrorKind)`::AllocationConflict` if
    /// one of the pins is already in use.
    pub fn spi_device(&mut self, cs_idx: u8) -> (r: Result<spi::SpiDevice, Error>)
        requires
            old(self).inner.wf(),
            cs_idx < 8,
        ensures
            spi::spi_device_acquired(*old(self), *final(self), r, cs_idx),
    {
        spi::SpiDevice::new(self, cs_idx)
    }

    /// Acquire the I2C peripheral: AD0 is SCL, AD1 and AD2 are both SDA
    /// and must be shorted together for I2C operation.
    ///
    /// Fails with [`ErrorKind`](crate::ErrorKind)`::AllocationConflict` if
    /// pin 0, 1 or 2 is already in use.
    pub fn i2c(&mut self) -> (r: Result<i2c::I2c, Error>)
        requires
            old(self).inner.wf(),
        ensures
            i2c::i2c_acquired(*old(self), *final(self), r),
    {
        i2c::I2c::new(self)
    }

    /// Acquire the digital output pin 0.
    pub fn ad0(&mut self) -> (r: Result<gpio::OutputPin, Error>)
        requires
            old(self).inner.wf(),
        ensures
            gpio::output_acquired(*old(self), *final(self), r, Pin::Lower(0)),
    {
        gpio::OutputPin::new(self, Pin::Lower(0))
    }

    /// Acquire the digital input pin 0.
    pub fn adi0(&mut self) -> (r: Result<gpio::InputPin, Error>)
        requires
            old(self).inner.wf(),
        ensures
            gpio::input_acquired(*old(self), *final(self), r, Pin::Lower(0)),
    {
        gpio::InputPin::new(self, Pin::Lower(0))
    }

    /// Acquire the digital output pin 1.
    pub fn ad1(&mut self) -> (r: Result<gpio::OutputPin, Error>)
        requires
            old(self).inner.wf(),
        ensures
            gpio::output_acquired(*old(self), *final(self), r, Pin::Lower(1)),
    {
        gpio::OutputPin::new(self, Pin::Lower(1))
    }

    /// Acquire the digital input pin 1.
    pub fn adi1(&mut self) -> (r: Result<gpio::InputPin, Error>)
        requires
            old(self).inner.wf(),
        ensures
            gpio::input_acquired(*old(self), *final(self), r, Pin::Lower(1)),
    {
        gpio::InputPin::new(self, Pin::Lower(1))
    }

    /// Acquire the digital output pin 2.
    pub fn ad2(&mut self) -> (r: Result<gpio::OutputPin, Error>)
        requires
            old(self).inner.wf(),
        ensures
            gpio::output_acquired(*old(self), *final(self), r, Pin::Lower(2)),
    {
        gpio::OutputPin::new(self, Pin::Lower(2))
    }

    /// Acquire the digital input pin 2.
    pub fn adi2(&mut self) -> (r: Result<gpio::InputPin, Error>)
        requires
            old(self).inner.wf(),
        ensures
            gpio::input_acquired(*old(self), *final(self), r, Pin::Lower(2)),
    {
        gpio::InputPin::new(self, Pin::Lower(2))
    }

    /// Acquire the digital output pin 3.
    pub fn ad3(&mut self) -> (r: Result<gpio::OutputPin, Error>)
        requires
            old(self).inner.wf(),
        ensures
            gpio::output_acquired(*old(self), *final(self), r, Pin::Lower(3)),
    {
        gpio::OutputPin::new(self, Pin::Lower(3))
    }

    /// Acquire the digital input pin 3.
    pub fn adi3(&mut self) -> (r: Result<gpio::InputPin, Error>)
        requires
            old(self).inner.wf(),
        ensures
            gpio::input_acquired(*old(self), *final(self), r, Pin::Lower(3)),
    {
        gpio::InputPin::new(self, Pin::Lower(3))
    }

    /// Acquire the digital output pin 4.
    pub fn ad4(&mut self) -> (r: Result<gpio::OutputPin, Error>)
        requires
            old(self).inner.wf(),
        ensures
            gpio::output_acquired(*old(self), *final(self), r, Pin::Lower(4)),
    {
        gpio::OutputPin::new(self, Pin::Lower(4))
    }

    /// Acquire the digital input pin 4.
    pub fn adi4(&mut self) -> (r: Result<gpio::InputPin, Error>)
        requires
            old(self).inner.wf(),
        ensures
            gpio::input_acquired(*old(self), *final(self), r, Pin::Lower(4)),
    {
        gpio::InputPin::new(self, Pin::Lower(4))
    }

    /// Acquire the digital output pin 5.
    pub fn ad5(&mut self) -> (r: Result<gpio::OutputPin, Error>)
        requires
            old(self).inner.wf(),
        ensures
            gpio::output_acquired(*old(self), *final(self), r, Pin::Lower(5)),
    {
        gpio::OutputPin::new(self, Pin::Lower(5))
    }

    /// Acquire the digital input pin 5.
    pub fn adi5(&mut self) -> (r: Result<gpio::InputPin, Error>)
        requires
            old(self).inner.wf(),
        ensures
            gpio::input_acquired(*old(self), *final(self), r, Pin::Lower(5)),
    {
        gpio::InputPin::new(self, Pin::Lower(5))
    }

    /// Acquire the digital output pin 6.
    pub fn ad6(&mut self) -> (r: Result<gpio::OutputPin, Error>)
        requires
            old(self).inner.wf(),
        ensures
            gpio::output_acquired(*old(self), *final(self), r, Pin::Lower(6)),
    {
        gpio::OutputPin::new(self, Pin::Lower(6))
    }

    /// Acquire the digital input pin 6.
    pub fn adi6(&mut self) -> (r: Result<gpio::InputPin, Error>)
        requires
            old(self).inner.wf(),
        ensures
            gpio::input_acquired(*old(self), *final(self), r, Pin::Lower(6)),
    {
        gpio::InputPin::new(self, Pin::Lower(6))
    }

    /// Acquire the digital output pin 7.
    pub fn ad7(&mut self) -> (r: Result<gpio::OutputPin, Error>)
        requires
            old(self).inner.wf(),
        ensures
            gpio::output_acquired(*old(self), *final(self), r, Pin::Lower(7)),
    {
        gpio::OutputPin::new(self, Pin::Lower(7))
    }

    /// Acquire the digital input pin 7.
    pub fn adi7(&mut self) -> (r: Result<gpio::InputPin, Error>)
        requires
            old(self).inner.wf(),
        ensures
            gpio::input_acquired(*old(self), *final(self), r, Pin::Lower(7)),
    {
        gpio::InputPin::new(self, Pin::Lower(7))
    }
}

} // verus!
