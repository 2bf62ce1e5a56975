//! The opaque USB transport under the engine.
//!
//! The engine never touches the device directly: it hands complete command
//! batches to a [`Transport`] (MPSSE command engine interfaces) or an
//! [`SbbTransport`] (synchronous bit-bang interfaces) and reads response
//! bytes back.  Device backends implement these traits outside the verified
//! library.  The contracts record the traffic history, so that the engine's
//! own contracts can pin down, byte for byte, what went over the wire and in
//! which order; they promise nothing about the content of what comes back.

use vstd::prelude::*;

use crate::error::Error;
use crate::fthalsbb::FtHalSbbSettings;
use crate::MpsseSettings;

verus! {

/// A device exposing the MPSSE command engine.
///
/// `configured`, `sent` and `received` are the traffic histories of the
/// device: the settings each successful [`Transport::configure`] applied,
/// the command batches handed to [`Transport::send`], and the response
/// buffers returned by [`Transport::recv`].  Response bytes arrive in
/// strict issuance order; their values are device-determined and no
/// contract constrains them.
pub trait Transport: Sized {
    /// The settings applied by each successful configuration so far, in
    /// order.  An implementation outside the verified world may leave the
    /// default, which stands for a device whose traffic is not tracked.
    open spec fn configured(&self) -> Seq<MpsseSettings> {
        Seq::empty()
    }

    /// The command batches handed to the device so far, in issuance order.
    /// An implementation outside the verified world may leave the default,
    /// which stands for a device whose traffic is not tracked.
    open spec fn sent(&self) -> Seq<Seq<u8>> {
        Seq::empty()
    }

    /// The response buffers read back so far, in issuance order.
    /// An implementation outside the verified world may leave the default,
    /// which stands for a device whose traffic is not tracked.
    open spec fn received(&self) -> Seq<Seq<u8>> {
        Seq::empty()
    }

    /// Configure the MPSSE command engine (reset, buffer sizes, latency
    /// timer, clock frequency).  Must be called exactly once, before any
    /// command traffic.
    fn configure(&mut self, settings: &MpsseSettings) -> (r: Result<(), Error>)
        requires
            settings.clock_frequency matches Some(_),
        ensures
            final(self).sent() == old(self).sent(),
            final(self).received() == old(self).received(),
            r is Ok ==> final(self).configured() == old(self).configured().push(*settings),
            r matches Err(e) ==> e == Error::Transport && final(self).configured() == old(self).configured(),
    ;

    /// Hand one complete command batch to the device.
    fn send(&mut self, data: &[u8]) -> (r: Result<(), Error>)
        ensures
            final(self).configured() == old(self).configured(),
            r is Ok ==> final(self).sent() == old(self).sent().push(data@) && final(self).received() == old(self).received(),
            r matches Err(e) ==> e == Error::Transport && final(self).sent() == old(self).sent()
                && final(self).received() == old(self).received(),
    ;

    /// Read back exactly `n` response bytes.
    fn recv(&mut self, n: usize) -> (r: Result<Vec<u8>, Error>)
        ensures
            final(self).configured() == old(self).configured(),
            r matches Ok(v) ==> v@.len() == n && final(self).received() == old(self).received().push(v@) && final(self).sent() == old(self).sent(),
            r matches Err(e) ==> e == Error::Transport && final(self).sent() == old(self).sent()
                && final(self).received() == old(self).received(),
    ;
}

/// One interaction with a synchronous bit-bang interface, as recorded in
/// the device's event history.  The order of events is the order the
/// device saw them: it is what makes "drain before write" and "write
/// before drain" statable.
pub enum SbbEvent {
    /// The interface was configured with these settings.
    Configured(FtHalSbbSettings),
    /// Synchronous bit-bang mode was entered with this direction mask.
    Mode(u8),
    /// One output byte was driven onto the parallel port.
    Write(u8),
    /// The chip's response buffer was read out, yielding these bytes.
    Drain(Seq<u8>),
}

/// A device interface restricted to synchronous bit-bang mode (no MPSSE).
///
/// `events` is the single, ordered history of everything done to the
/// device.  What a drain returns is device-determined and no contract
/// constrains it — in particular it may be empty.
pub trait SbbTransport: Sized {
    /// Everything done to the device so far, in order.  An implementation
    /// outside the verified world may leave the default, which stands for
    /// a device whose traffic is not tracked.
    open spec fn events(&self) -> Seq<SbbEvent> {
        Seq::empty()
    }

    /// Configure the interface (reset, buffer chunk sizes, latency timer,
    /// clock frequency).  Must be called exactly once, before any traffic.
    fn configure(&mut self, settings: &FtHalSbbSettings) -> (r: Result<(), Error>)
        ensures
            r is Ok ==> final(self).events() == old(self).events().push(
                SbbEvent::Configured(*settings),
            ),
            r matches Err(e) ==> e == Error::Transport && final(self).events() == old(self).events(),
    ;

    /// Enter synchronous bit-bang mode with the given direction mask
    /// (`1` is output).
    fn set_sync_bitbang(&mut self, mask: u8) -> (r: Result<(), Error>)
        ensures
            r is Ok ==> final(self).events() == old(self).events().push(SbbEvent::Mode(mask)),
            r matches Err(e) ==> e == Error::Transport && final(self).events() == old(self).events(),
    ;

    /// Drive one output byte onto the parallel port.
    fn write_byte(&mut self, byte: u8) -> (r: Result<(), Error>)
        ensures
            r is Ok ==> final(self).events() == old(self).events().push(SbbEvent::Write(byte)),
            r matches Err(e) ==> e == Error::Transport && final(self).events() == old(self).events(),
    ;

    /// Read and return everything sitting in the chip's response buffer.
    fn drain(&mut self) -> (r: Result<Vec<u8>, Error>)
        ensures
            r matches Ok(v) ==> final(self).events() == old(self).events().push(
                SbbEvent::Drain(v@),
            ),
            r matches Err(e) ==> e == Error::Transport && final(self).events() == old(self).events(),
    ;
}

} // verus!
