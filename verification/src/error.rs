//! Error types surfaced by the HAL engine.

use vstd::prelude::*;

verus! {

/// Internal HAL errors.
///
/// These are faults of the engine itself, as opposed to faults of the
/// underlying USB transport.
#[derive(Clone, Copy, Debug, Eq, PartialEq, Structural)]
#[non_exhaustive]
pub enum ErrorKind {
    /// No ACK from the I2C slave where the protocol required one.
    I2cNoAck,
    /// A pin was requested that is already owned by another peripheral.
    AllocationConflict,
    /// An empty payload, or a read request that the written data cannot
    /// cover, was rejected before any command was built.
    MalformedParameter,
}

impl ErrorKind {
    /// A short human-readable description of the error.
    pub fn as_str(&self) -> (r: &'static str)
        ensures
            *self is I2cNoAck ==> r@ == "No ACK from slave"@,
            *self is AllocationConflict ==> r@ == "pin is already allocated"@,
            *self is MalformedParameter ==> r@ == "malformed parameter"@,
    {
        match *self {
            ErrorKind::I2cNoAck => "No ACK from slave",
            ErrorKind::AllocationConflict => "pin is already allocated",
            ErrorKind::MalformedParameter => "malformed parameter",
        }
    }
}

/// Error type.
#[derive(Clone, Copy, Debug, Eq, PartialEq, Structural)]
pub enum Error {
    /// HAL implementation specific error.
    Hal(ErrorKind),
    /// Failure of the underlying USB transport (timeout, device removed,
    /// buffer fault).  Generally fatal to the current session.
    Transport,
}

} // verus!
