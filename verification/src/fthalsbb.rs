//! Session type for interfaces that lack the MPSSE command engine and offer
//! GPIO through synchronous bit-bang mode only.

use vstd::prelude::*;

use crate::error::Error;
use crate::error::ErrorKind;
use crate::gpiosbb::sbb_input_acquired;
use crate::gpiosbb::sbb_output_acquired;
use crate::gpiosbb::InputPinSbb;
use crate::gpiosbb::OutputPinSbb;
use crate::transport::SbbEvent;
use crate::transport::SbbTransport;
use crate::GpioByte;
use crate::Pin;
use crate::PinUse;

verus! {

/// Synchronous bit-bang mode settings.
///
/// The defaults are a sensible starting point: reset the device, 4k USB
/// transfer size for read and write, 16 ms latency timer, 100 kHz clock
/// frequency.
#[derive(Debug, Clone, Copy, PartialEq, Eq, Structural)]
pub struct FtHalSbbSettings {
    /// Reset the device on initialization.
    pub reset: bool,
    /// USB read chunk size in bytes.
    pub read_chunksize: u32,
    /// USB write chunk size in bytes.
    pub write_chunksize: u32,
    /// USB latency timer in milliseconds.
    pub latency_timer_ms: u8,
    /// Clock frequency of the baud rate generator.
    pub clock_frequency: u32,
}

impl Default for FtHalSbbSettings {
    /// The default settings named above.
    fn default() -> (r: FtHalSbbSettings)
        ensures
            r == (FtHalSbbSettings {
                reset: true,
                read_chunksize: 4096,
                write_chunksize: 4096,
                latency_timer_ms: 16,
                clock_frequency: 100_000,
            }),
    {
        FtHalSbbSettings {
            reset: true,
            read_chunksize: 4096,
            write_chunksize: 4096,
            latency_timer_ms: 16,
            clock_frequency: 100_000,
        }
    }
}

/// Session state of a synchronous bit-bang interface: the device transport
/// and the pin state of both banks (only the lower bank is usable).
pub struct FtInnerSbb<D> {
    /// FTDI device transport.
    pub ft: D,
    /// Lower pin bank.
    pub lower: GpioByte,
    /// Upper pin bank.  Never usable in bit-bang mode; kept so that the
    /// ownership table has the same shape as the MPSSE session.
    pub upper: GpioByte,
}

impl<D> FtInnerSbb<D> {
    /// Both banks are well formed.
    pub open spec fn wf(&self) -> bool {
        self.lower.wf() && self.upper.wf()
    }

    /// Allocate a pin of the lower bank for a specific use.
    ///
    /// Requesting a pin that is already owned fails with
    /// [`ErrorKind::AllocationConflict`] before any bus activity, and leaves
    /// every direction, value and ownership entry untouched.
    pub fn allocate_pin(&mut self, idx: u8, purpose: PinUse) -> (r: Result<(), Error>)
        requires
            old(self).wf(),
            idx < 8,
        ensures
            final(self).wf(),
            old(self).lower.pins@[idx as int] is None ==> {
                &&& r matches Ok(())
                &&& final(self).lower.pins@ == old(self).lower.pins@.update(
                    idx as int,
                    Some(purpose),
                )
            },
            old(self).lower.pins@[idx as int] is Some ==> {
                &&& r == Err::<(), Error>(Error::Hal(ErrorKind::AllocationConflict))
                &&& final(self).lower.pins@ == old(self).lower.pins@
            },
            final(self).lower.direction == old(self).lower.direction,
            final(self).lower.value == old(self).lower.value,
            final(self).upper.direction == old(self).upper.direction,
            final(self).upper.value == old(self).upper.value,
            final(self).upper.pins@ == old(self).upper.pins@,
            final(self).ft == old(self).ft,
    {
        if self.lower.pins[idx as usize].is_some() {
            Err(Error::Hal(ErrorKind::AllocationConflict))
        } else {
            self.lower.pins.set(idx as usize, Some(purpose));
            Ok(())
        }
    }

    /// Allocate a pin of either bank for a specific use.
    ///
    /// Behaves as [`FtInnerSbb::allocate_pin`], on the bank the pin names.
    pub fn allocate_pin_any(&mut self, pin: Pin, purpose: PinUse) -> (r: Result<(), Error>)
        requires
            old(self).wf(),
            pin matches Pin::Lower(i) ==> i < 8,
            pin matches Pin::Upper(i) ==> i < 8,
        ensures
            final(self).wf(),
            final(self).ft == old(self).ft,
            pin matches Pin::Lower(idx) ==> {
                &&& (old(self).lower.pins@[idx as int] is None ==> (r matches Ok(()))
                    && final(self).lower.pins@ == old(self).lower.pins@.update(
                    idx as int,
                    Some(purpose),
                ))
                &&& (old(self).lower.pins@[idx as int] is Some ==> r == Err::<(), Error>(
                    Error::Hal(ErrorKind::AllocationConflict),
                ) && final(self).lower.pins@ == old(self).lower.pins@)
                &&& final(self).upper.pins@ == old(self).upper.pins@
            },
            pin matches Pin::Upper(idx) ==> {
                &&& (old(self).upper.pins@[idx as int] is None ==> (r matches Ok(()))
                    && final(self).upper.pins@ == old(self).upper.pins@.update(
                    idx as int,
                    Some(purpose),
                ))
                &&& (old(self).upper.pins@[idx as int] is Some ==> r == Err::<(), Error>(
                    Error::Hal(ErrorKind::AllocationConflict),
                ) && final(self).upper.pins@ == old(self).upper.pins@)
                &&& final(self).lower.pins@ == old(self).lower.pins@
            },
            final(self).lower.direction == old(self).lower.direction,
            final(self).lower.value == old(self).lower.value,
            final(self).upper.direction == old(self).upper.direction,
            final(self).upper.value == old(self).upper.value,
    {
        match pin {
            Pin::Lower(idx) => {
                if self.lower.pins[idx as usize].is_some() {
                    Err(Error::Hal(ErrorKind::AllocationConflict))
                } else {
                    self.lower.pins.set(idx as usize, Some(purpose));
                    Ok(())
                }
            },
            Pin::Upper(idx) => {
                if self.upper.pins[idx as usize].is_some() {
                    Err(Error::Hal(ErrorKind::AllocationConflict))
                } else {
                    self.upper.pins.set(idx as usize, Some(purpose));
                    Ok(())
                }
            },
        }
    }
}

/// A GPIO-only session over synchronous bit-bang mode.
///
/// The chip returns, for any read, the bus sample captured before the most
/// recent write took effect — a one-byte lag.  The pin handles of this
/// session enforce the discipline that compensates for it: every read
/// re-transmits the last written output byte first, and every write drains
/// the chip's response buffer first.
pub struct FtHalSbb<D: SbbTransport> {
    /// The session state.  Callers are expected to serialize access.
    pub inner: FtInnerSbb<D>,
}

impl<D: SbbTransport> FtHalSbb<D> {
    /// Initialize the synchronous bit-bang interface: configure the
    /// device with the given settings, enter bit-bang mode with all pins
    /// as inputs, and drain any stray bytes from the response buffer — in
    /// that order, exactly once each.
    pub fn init(device: D, settings: &FtHalSbbSettings) -> (r: Result<FtHalSbb<D>, Error>)
        ensures
            r matches Ok(h) ==> {
                &&& h.inner.wf()
                &&& h.inner.lower.direction == 0
                &&& h.inner.lower.value == 0
                &&& h.inner.upper.direction == 0
                &&& h.inner.upper.value == 0
                &&& (forall|i: int| 0 <= i < 8 ==> h.inner.lower.pins@[i] is None)
                &&& (forall|i: int| 0 <= i < 8 ==> h.inner.upper.pins@[i] is None)
                &&& exists|stray: Seq<u8>|
                    #![auto]
                    h.inner.ft.events() == device.events().push(
                        SbbEvent::Configured(*settings),
                    ).push(SbbEvent::Mode(0u8)).push(SbbEvent::Drain(stray))
            },
            r matches Err(e) ==> e == Error::Transport,
    {
        let mut ft = device;
        let lower = GpioByte::new();
        let upper = GpioByte::new();
        match ft.configure(settings) {
            Ok(()) => (),
            Err(e) => {
                return Err(e);
            },
        }
        // All pins start as inputs; directions are widened as pins are
        // handed out.
        match ft.set_sync_bitbang(lower.direction) {
            Ok(()) => (),
            Err(e) => {
                return Err(e);
            },
        }
        // Stray bytes can sit in the response buffer at this point, and a
        // write only executes while that buffer has space, so empty it
        // before any traffic.
        let stray_bytes: Vec<u8> = match ft.drain() {
            Ok(v) => v,
            Err(e) => {
                return Err(e);
            },
        };
        proof {
            assert(ft.events() == device.events().push(SbbEvent::Configured(*settings)).push(
                SbbEvent::Mode(0u8),
            ).push(SbbEvent::Drain(stray_bytes@)));
        }
        Ok(FtHalSbb { inner: FtInnerSbb { ft, lower, upper } })
    }

    /// Acquire the digital output pin 0, using synchronous bit-bang mode.
    pub fn ad0(&mut self) -> (r: Result<OutputPinSbb, Error>)
        requires
            old(self).inner.wf(),
        ensures
            sbb_output_acquired(*old(self), *final(self), r, 0),
    {
        OutputPinSbb::new(self, Pin::Lower(0))
    }

    /// Acquire the digital input pin 0, using synchronous bit-bang mode.
    pub fn adi0(&mut self) -> (r: Result<InputPinSbb, Error>)
        requires
            old(self).inner.wf(),
        ensures
            sbb_input_acquired(*old(self), *final(self), r, 0),
    {
        InputPinSbb::new(self, Pin::Lower(0))
    }

    /// Acquire the digital output pin 1, using synchronous bit-bang mode.
    pub fn ad1(&mut self) -> (r: Result<OutputPinSbb, Error>)
        requires
            old(self).inner.wf(),
        ensures
            sbb_output_acquired(*old(self), *final(self), r, 1),
    {
        OutputPinSbb::new(self, Pin::Lower(1))
    }

    /// Acquire the digital input pin 1, using synchronous bit-bang mode.
    pub fn adi1(&mut self) -> (r: Result<InputPinSbb, Error>)
        requires
            old(self).inner.wf(),
        ensures
            sbb_input_acquired(*old(self), *final(self), r, 1),
    {
        InputPinSbb::new(self, Pin::Lower(1))
    }

    /// Acquire the digital output pin 2, using synchronous bit-bang mode.
    pub fn ad2(&mut self) -> (r: Result<OutputPinSbb, Error>)
        requires
            old(self).inner.wf(),
        ensures
            sbb_output_acquired(*old(self), *final(self), r, 2),
    {
        OutputPinSbb::new(self, Pin::Lower(2))
    }

    /// Acquire the digital input pin 2, using synchronous bit-bang mode.
    pub fn adi2(&mut self) -> (r: Result<InputPinSbb, Error>)
        requires
            old(self).inner.wf(),
        ensures
            sbb_input_acquired(*old(self), *final(self), r, 2),
    {
        InputPinSbb::new(self, Pin::Lower(2))
    }

    /// Acquire the digital output pin 3, using synchronous bit-bang mode.
    pub fn ad3(&mut self) -> (r: Result<OutputPinSbb, Error>)
        requires
            old(self).inner.wf(),
        ensures
            sbb_output_acquired(*old(self), *final(self), r, 3),
    {
        OutputPinSbb::new(self, Pin::Lower(3))
    }

    /// Acquire the digital input pin 3, using synchronous bit-bang mode.
    pub fn adi3(&mut self) -> (r: Result<InputPinSbb, Error>)
        requires
            old(self).inner.wf(),
        ensures
            sbb_input_acquired(*old(self), *final(self), r, 3),
    {
        InputPinSbb::new(self, Pin::Lower(3))
    }

    /// Acquire the digital output pin 4, using synchronous bit-bang mode.
    pub fn ad4(&mut self) -> (r: Result<OutputPinSbb, Error>)
        requires
            old(self).inner.wf(),
        ensures
            sbb_output_acquired(*old(self), *final(self), r, 4),
    {
        OutputPinSbb::new(self, Pin::Lower(4))
    }

    /// Acquire the digital input pin 4, using synchronous bit-bang mode.
    pub fn adi4(&mut self) -> (r: Result<InputPinSbb, Error>)
        requires
            old(self).inner.wf(),
        ensures
            sbb_input_acquired(*old(self), *final(self), r, 4),
    {
        InputPinSbb::new(self, Pin::Lower(4))
    }

    /// Acquire the digital output pin 5, using synchronous bit-bang mode.
    pub fn ad5(&mut self) -> (r: Result<OutputPinSbb, Error>)
        requires
            old(self).inner.wf(),
        ensures
            sbb_output_acquired(*old(self), *final(self), r, 5),
    {
        OutputPinSbb::new(self, Pin::Lower(5))
    }

    /// Acquire the digital input pin 5, using synchronous bit-bang mode.
    pub fn adi5(&mut self) -> (r: Result<InputPinSbb, Error>)
        requires
            old(self).inner.wf(),
        ensures
            sbb_input_acquired(*old(self), *final(self), r, 5),
    {
        InputPinSbb::new(self, Pin::Lower(5))
    }

    /// Acquire the digital output pin 6, using synchronous bit-bang mode.
    pub fn ad6(&mut self) -> (r: Result<OutputPinSbb, Error>)
        requires
            old(self).inner.wf(),
        ensures
            sbb_output_acquired(*old(self), *final(self), r, 6),
    {
        OutputPinSbb::new(self, Pin::Lower(6))
    }

    /// Acquire the digital input pin 6, using synchronous bit-bang mode.
    pub fn adi6(&mut self) -> (r: Result<InputPinSbb, Error>)
        requires
            old(self).inner.wf(),
        ensures
            sbb_input_acquired(*old(self), *final(self), r, 6),
    {
        InputPinSbb::new(self, Pin::Lower(6))
    }

    /// Acquire the digital output pin 7, using synchronous bit-bang mode.
    pub fn ad7(&mut self) -> (r: Result<OutputPinSbb, Error>)
        requires
            old(self).inner.wf(),
        ensures
            sbb_output_acquired(*old(self), *final(self), r, 7),
    {
        OutputPinSbb::new(self, Pin::Lower(7))
    }

    /// Acquire the digital input pin 7, using synchronous bit-bang mode.
    pub fn adi7(&mut self) -> (r: Result<InputPinSbb, Error>)
        requires
            old(self).inner.wf(),
        ensures
            sbb_input_acquired(*old(self), *final(self), r, 7),
    {
        InputPinSbb::new(self, Pin::Lower(7))
    }
}

} // verus!
