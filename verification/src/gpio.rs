//! GPIO pin handles over the MPSSE command engine.
//!
//! Each set or get is one single-operation command batch issued through
//! the session; input sampling reads the full 8-bit bank back and masks
//! the requested bit.

use vstd::prelude::*;

use crate::error::Error;
use crate::error::ErrorKind;
use crate::gpiosbb::pin_mask;
use crate::mpsse::flush_seq;
use crate::mpsse::gl_seq;
use crate::mpsse::gu_seq;
use crate::mpsse::sgl_seq;
use crate::mpsse::sgu_seq;
use crate::transport::Transport;
use crate::FtHal;
use crate::Pin;
use crate::PinUse;

verus! {

/// The set-bank batch that writes `value` and `direction` to the bank the
/// pin lies on.
pub open spec fn set_bank_batch(pin: Pin, value: u8, direction: u8) -> Seq<u8> {
    match pin {
        Pin::Lower(_) => sgl_seq(value, direction) + flush_seq(),
        Pin::Upper(_) => sgu_seq(value, direction) + flush_seq(),
    }
}

/// The read-bank batch for the bank the pin lies on.
pub open spec fn get_bank_batch(pin: Pin) -> Seq<u8> {
    match pin {
        Pin::Lower(_) => gl_seq() + flush_seq(),
        Pin::Upper(_) => gu_seq() + flush_seq(),
    }
}

/// The outcome of acquiring an output pin on an MPSSE session.
pub open spec fn output_acquired<D: Transport>(
    o: FtHal<D>,
    n_: FtHal<D>,
    r: Result<OutputPin, Error>,
    pin: Pin,
) -> bool {
    let idx = match pin {
        Pin::Lower(i) => i,
        Pin::Upper(i) => i,
    };
    &&& n_.inner.wf()
    &&& n_.inner.lower.value == o.inner.lower.value
    &&& n_.inner.upper.value == o.inner.upper.value
    &&& n_.inner.ft.received() == o.inner.ft.received()
    &&& match r {
        Ok(p) => {
            &&& p.pin == pin
            &&& match pin {
                Pin::Lower(_) => {
                    &&& o.inner.lower.pins@[idx as int] is None
                    &&& n_.inner.lower.pins@ == o.inner.lower.pins@.update(
                        idx as int,
                        Some(PinUse::Output),
                    )
                    &&& n_.inner.lower.direction == o.inner.lower.direction | pin_mask(pin)
                    &&& n_.inner.upper.direction == o.inner.upper.direction
                    &&& n_.inner.upper.pins@ == o.inner.upper.pins@
                    &&& n_.inner.ft.sent() == o.inner.ft.sent().push(
                        set_bank_batch(pin, n_.inner.lower.value, n_.inner.lower.direction),
                    )
                },
                Pin::Upper(_) => {
                    &&& o.inner.upper.pins@[idx as int] is None
                    &&& n_.inner.upper.pins@ == o.inner.upper.pins@.update(
                        idx as int,
                        Some(PinUse::Output),
                    )
                    &&& n_.inner.upper.direction == o.inner.upper.direction | pin_mask(pin)
                    &&& n_.inner.lower.direction == o.inner.lower.direction
                    &&& n_.inner.lower.pins@ == o.inner.lower.pins@
                    &&& n_.inner.ft.sent() == o.inner.ft.sent().push(
                        set_bank_batch(pin, n_.inner.upper.value, n_.inner.upper.direction),
                    )
                },
            }
        },
        Err(e) => {
            &&& (e == Error::Hal(ErrorKind::AllocationConflict) <==> (match pin {
                Pin::Lower(_) => o.inner.lower.pins@[idx as int] is Some,
                Pin::Upper(_) => o.inner.upper.pins@[idx as int] is Some,
            }))
            &&& (e == Error::Hal(ErrorKind::AllocationConflict) ==> {
                &&& n_.inner.same_pin_state(&o.inner)
                &&& n_.inner.ft.sent() == o.inner.ft.sent()
            })
            &&& (e == Error::Transport ==> {
                &&& n_.inner.ft.sent() == o.inner.ft.sent()
                &&& match pin {
                    Pin::Lower(_) => {
                        &&& n_.inner.lower.pins@ == o.inner.lower.pins@.update(
                            idx as int,
                            Some(PinUse::Output),
                        )
                        &&& n_.inner.lower.direction == o.inner.lower.direction | pin_mask(pin)
                        &&& n_.inner.upper.direction == o.inner.upper.direction
                        &&& n_.inner.upper.pins@ == o.inner.upper.pins@
                    },
                    Pin::Upper(_) => {
                        &&& n_.inner.upper.pins@ == o.inner.upper.pins@.update(
                            idx as int,
                            Some(PinUse::Output),
                        )
                        &&& n_.inner.upper.direction == o.inner.upper.direction | pin_mask(pin)
                        &&& n_.inner.lower.direction == o.inner.lower.direction
                        &&& n_.inner.lower.pins@ == o.inner.lower.pins@
                    },
                }
            })
            &&& (e == Error::Hal(ErrorKind::AllocationConflict) || e == Error::Transport)
        },
    }
}

/// The outcome of acquiring an input pin on an MPSSE session.
pub open spec fn input_acquired<D: Transport>(
    o: FtHal<D>,
    n_: FtHal<D>,
    r: Result<InputPin, Error>,
    pin: Pin,
) -> bool {
    let idx = match pin {
        Pin::Lower(i) => i,
        Pin::Upper(i) => i,
    };
    &&& n_.inner.wf()
    &&& n_.inner.lower.value == o.inner.lower.value
    &&& n_.inner.upper.value == o.inner.upper.value
    &&& n_.inner.ft.received() == o.inner.ft.received()
    &&& match r {
        Ok(p) => {
            &&& p.pin == pin
            &&& match pin {
                Pin::Lower(_) => {
                    &&& o.inner.lower.pins@[idx as int] is None
                    &&& n_.inner.lower.pins@ == o.inner.lower.pins@.update(
                        idx as int,
                        Some(PinUse::Input),
                    )
                    &&& n_.inner.lower.direction == o.inner.lower.direction & !pin_mask(pin)
                    &&& n_.inner.upper.direction == o.inner.upper.direction
                    &&& n_.inner.upper.pins@ == o.inner.upper.pins@
                    &&& n_.inner.ft.sent() == o.inner.ft.sent().push(
                        set_bank_batch(pin, n_.inner.lower.value, n_.inner.lower.direction),
                    )
                },
                Pin::Upper(_) => {
                    &&& o.inner.upper.pins@[idx as int] is None
                    &&& n_.inner.upper.pins@ == o.inner.upper.pins@.update(
                        idx as int,
                        Some(PinUse::Input),
                    )
                    &&& n_.inner.upper.direction == o.inner.upper.direction & !pin_mask(pin)
                    &&& n_.inner.lower.direction == o.inner.lower.direction
                    &&& n_.inner.lower.pins@ == o.inner.lower.pins@
                    &&& n_.inner.ft.sent() == o.inner.ft.sent().push(
                        set_bank_batch(pin, n_.inner.upper.value, n_.inner.upper.direction),
                    )
                },
            }
        },
        Err(e) => {
            &&& (e == Error::Hal(ErrorKind::AllocationConflict) <==> (match pin {
                Pin::Lower(_) => o.inner.lower.pins@[idx as int] is Some,
                Pin::Upper(_) => o.inner.upper.pins@[idx as int] is Some,
            }))
            &&& (e == Error::Hal(ErrorKind::AllocationConflict) ==> {
                &&& n_.inner.same_pin_state(&o.inner)
                &&& n_.inner.ft.sent() == o.inner.ft.sent()
            })
            &&& (e == Error::Transport ==> {
                &&& n_.inner.ft.sent() == o.inner.ft.sent()
                &&& match pin {
                    Pin::Lower(_) => {
                        &&& n_.inner.lower.pins@ == o.inner.lower.pins@.update(
                            idx as int,
                            Some(PinUse::Input),
                        )
                        &&& n_.inner.lower.direction == o.inner.lower.direction & !pin_mask(pin)
                        &&& n_.inner.upper.direction == o.inner.upper.direction
                        &&& n_.inner.upper.pins@ == o.inner.upper.pins@
                    },
                    Pin::Upper(_) => {
                        &&& n_.inner.upper.pins@ == o.inner.upper.pins@.update(
                            idx as int,
                            Some(PinUse::Input),
                        )
                        &&& n_.inner.upper.direction == o.inner.upper.direction & !pin_mask(pin)
                        &&& n_.inner.lower.direction == o.inner.lower.direction
                        &&& n_.inner.lower.pins@ == o.inner.lower.pins@
                    },
                }
            })
            &&& (e == Error::Hal(ErrorKind::AllocationConflict) || e == Error::Transport)
        },
    }
}

/// FTDI output pin.
///
/// This is created by calling [`FtHal::ad0`] through [`FtHal::ad7`].
#[derive(Debug, Clone, Copy, PartialEq, Eq, Structural)]
pub struct OutputPin {
    /// GPIO pin number.
    pub pin: Pin,
}

impl OutputPin {
    /// Allocate the pin, make it an output, and push the bank state out.
    pub fn new<D: Transport>(hal: &mut FtHal<D>, pin: Pin) -> (r: Result<OutputPin, Error>)
        requires
            old(hal).inner.wf(),
            pin matches Pin::Lower(i) ==> i < 8,
            pin matches Pin::Upper(i) ==> i < 8,
        ensures
            output_acquired(*old(hal), *final(hal), r, pin),
    {
        match hal.inner.allocate_pin_any(pin, PinUse::Output) {
            Ok(()) => (),
            Err(e) => {
                return Err(e);
            },
        }
        let cmd = ftdi_mpsse::MpsseCmdBuilder::new();
        let cmd = match pin {
            Pin::Lower(idx) => {
                hal.inner.lower.direction = hal.inner.lower.direction | (1u8 << idx);
                cmd.set_gpio_lower(hal.inner.lower.value, hal.inner.lower.direction)
            },
            Pin::Upper(idx) => {
                hal.inner.upper.direction = hal.inner.upper.direction | (1u8 << idx);
                cmd.set_gpio_upper(hal.inner.upper.value, hal.inner.upper.direction)
            },
        };
        let cmd = cmd.send_immediate();
        match hal.inner.ft.send(cmd.as_slice()) {
            Ok(()) => (),
            Err(e) => {
                return Err(e);
            },
        }
        Ok(OutputPin { pin })
    }

    /// Drive the pin high or low, pushing the bank state out as one
    /// single-operation batch.
    pub fn set<D: Transport>(&self, hal: &mut FtHal<D>, state: bool) -> (r: Result<(), Error>)
        requires
            old(hal).inner.wf(),
        ensures
            final(hal).inner.wf(),
            final(hal).inner.lower.direction == old(hal).inner.lower.direction,
            final(hal).inner.upper.direction == old(hal).inner.upper.direction,
            final(hal).inner.lower.pins@ == old(hal).inner.lower.pins@,
            final(hal).inner.upper.pins@ == old(hal).inner.upper.pins@,
            final(hal).inner.ft.received() == old(hal).inner.ft.received(),
            self.pin matches Pin::Lower(_) ==> {
                &&& final(hal).inner.lower.value == (if state {
                    old(hal).inner.lower.value | pin_mask(self.pin)
                } else {
                    old(hal).inner.lower.value & !pin_mask(self.pin)
                })
                &&& final(hal).inner.upper.value == old(hal).inner.upper.value
                &&& (r matches Ok(()) ==> final(hal).inner.ft.sent() == old(hal).inner.ft.sent().push(
                    set_bank_batch(
                        self.pin,
                        final(hal).inner.lower.value,
                        final(hal).inner.lower.direction,
                    ),
                ))
            },
            self.pin matches Pin::Upper(_) ==> {
                &&& final(hal).inner.upper.value == (if state {
                    old(hal).inner.upper.value | pin_mask(self.pin)
                } else {
                    old(hal).inner.upper.value & !pin_mask(self.pin)
                })
                &&& final(hal).inner.lower.value == old(hal).inner.lower.value
                &&& (r matches Ok(()) ==> final(hal).inner.ft.sent() == old(hal).inner.ft.sent().push(
                    set_bank_batch(
                        self.pin,
                        final(hal).inner.upper.value,
                        final(hal).inner.upper.direction,
                    ),
                ))
            },
            r matches Err(e) ==> e == Error::Transport && final(hal).inner.ft.sent() == old(hal).inner.ft.sent(),
    {
        let mask: u8 = self.mask();
        let cmd = ftdi_mpsse::MpsseCmdBuilder::new();
        let cmd = match self.pin {
            Pin::Lower(_) => {
                if state {
                    hal.inner.lower.value = hal.inner.lower.value | mask;
                } else {
                    hal.inner.lower.value = hal.inner.lower.value & !mask;
                }
                cmd.set_gpio_lower(hal.inner.lower.value, hal.inner.lower.direction)
            },
            Pin::Upper(_) => {
                if state {
                    hal.inner.upper.value = hal.inner.upper.value | mask;
                } else {
                    hal.inner.upper.value = hal.inner.upper.value & !mask;
                }
                cmd.set_gpio_upper(hal.inner.upper.value, hal.inner.upper.direction)
            },
        };
        let cmd = cmd.send_immediate();
        hal.inner.ft.send(cmd.as_slice())
    }

    /// Convert the GPIO pin index to a pin mask.
    pub fn mask(&self) -> (r: u8)
        ensures
            r == pin_mask(self.pin),
    {
        let idx: u8 = match self.pin {
            Pin::Lower(idx) => idx,
            Pin::Upper(idx) => idx,
        };
        if idx < 8 {
            1u8 << idx
        } else {
            proof {
                assert(1u8 << idx == 0) by (bit_vector)
                    requires
                        idx >= 8,
                ;
            }
            0u8
        }
    }
}

/// FTDI input pin.
///
/// This is created by calling [`FtHal::adi0`] through [`FtHal::adi7`].
#[derive(Debug, Clone, Copy, PartialEq, Eq, Structural)]
pub struct InputPin {
    /// GPIO pin number.
    pub pin: Pin,
}

impl InputPin {
    /// Allocate the pin, make it an input, and push the bank state out.
    pub fn new<D: Transport>(hal: &mut FtHal<D>, pin: Pin) -> (r: Result<InputPin, Error>)
        requires
            old(hal).inner.wf(),
            pin matches Pin::Lower(i) ==> i < 8,
            pin matches Pin::Upper(i) ==> i < 8,
        ensures
            input_acquired(*old(hal), *final(hal), r, pin),
    {
        match hal.inner.allocate_pin_any(pin, PinUse::Input) {
            Ok(()) => (),
            Err(e) => {
                return Err(e);
            },
        }
        let cmd = ftdi_mpsse::MpsseCmdBuilder::new();
        let cmd = match pin {
            Pin::Lower(idx) => {
                hal.inner.lower.direction = hal.inner.lower.direction & !(1u8 << idx);
                cmd.set_gpio_lower(hal.inner.lower.value, hal.inner.lower.direction)
            },
            Pin::Upper(idx) => {
                hal.inner.upper.direction = hal.inner.upper.direction & !(1u8 << idx);
                cmd.set_gpio_upper(hal.inner.upper.value, hal.inner.upper.direction)
            },
        };
        let cmd = cmd.send_immediate();
        match hal.inner.ft.send(cmd.as_slice()) {
            Ok(()) => (),
            Err(e) => {
                return Err(e);
            },
        }
        Ok(InputPin { pin })
    }

    /// Sample the pin: read the full bank back and mask the requested
    /// bit.
    pub fn get<D: Transport>(&self, hal: &mut FtHal<D>) -> (r: Result<bool, Error>)
        requires
            old(hal).inner.wf(),
        ensures
            final(hal).inner.wf(),
            final(hal).inner.same_pin_state(&old(hal).inner),
            r matches Ok(b) ==> {
                &&& final(hal).inner.ft.sent() == old(hal).inner.ft.sent().push(
                    get_bank_batch(self.pin),
                )
                &&& exists|bank: Seq<u8>|
                    #![auto]
                    final(hal).inner.ft.received() == old(hal).inner.ft.received().push(bank)
                        && bank.len() == 1 && b == ((bank[0] & pin_mask(self.pin)) != 0)
            },
            r matches Err(e) ==> e == Error::Transport && final(hal).inner.ft.received() == old(
                hal,
            ).inner.ft.received() && (final(hal).inner.ft.sent() == old(hal).inner.ft.sent()
                || final(hal).inner.ft.sent() == old(hal).inner.ft.sent().push(
                get_bank_batch(self.pin),
            )),
    {
        let cmd = ftdi_mpsse::MpsseCmdBuilder::new();
        let cmd = match self.pin {
            Pin::Lower(_) => cmd.gpio_lower(),
            Pin::Upper(_) => cmd.gpio_upper(),
        };
        let cmd = cmd.send_immediate();
        match hal.inner.ft.send(cmd.as_slice()) {
            Ok(()) => (),
            Err(e) => {
                return Err(e);
            },
        }
        let buffer: Vec<u8> = match hal.inner.ft.recv(1) {
            Ok(b) => b,
            Err(e) => {
                return Err(e);
            },
        };
        let mask: u8 = self.mask();
        Ok((buffer[0] & mask) != 0)
    }

    /// Convert the GPIO pin index to a pin mask.
    pub fn mask(&self) -> (r: u8)
        ensures
            r == pin_mask(self.pin),
    {
        let idx: u8 = match self.pin {
            Pin::Lower(idx) => idx,
            Pin::Upper(idx) => idx,
        };
        if idx < 8 {
            1u8 << idx
        } else {
            proof {
                assert(1u8 << idx == 0) by (bit_vector)
                    requires
                        idx >= 8,
                ;
            }
            0u8
        }
    }
}

} // verus!
