//! The injected bus capability.
//!
//! The controller does not open or drive the I2C bus itself; it is handed a
//! value implementing [`Bus`], whose one real operation writes a single byte
//! to the bridge chip. The trait's contract speaks of `sent`, the history of
//! bytes the bus has accepted, and every controller contract is stated over
//! that history. [`TraceBus`] is the crate's own implementation: it records
//! the history in memory and can be told to fail a chosen transmission, which
//! is how the encoding pipeline is exercised without hardware.

use vstd::prelude::*;

verus! {

/// A transmission could not be completed. The single error category of the
/// driver: it stands for whatever the underlying transport reported
/// (device not found, I/O error, address not acknowledged).
#[derive(Copy, Clone, Debug, PartialEq, Eq)]
pub struct BusError;

impl BusError {
    /// A short description, for callers that log the failure.
    pub fn message(&self) -> (r: &'static str)
        ensures
            r@ == "bus write failed"@,
    {
        "bus write failed"
    }
}

/// A handle on the bridge chip, bound to one device address for its lifetime.
///
/// `sent` is the sequence of bytes the bus has accepted so far, oldest first.
/// A successful `write_byte` appends exactly one byte to it; a failed one
/// leaves it unchanged and the error is surfaced to the caller. `pause` is a
/// timing point with no observable effect on the history: a hardware-backed
/// bus blocks there for at least the given time, so the controller can meet
/// the chip's minimum enable-pulse and command-processing delays.
pub trait Bus: Sized {
    /// The bytes this bus has accepted so far, oldest first. The default
    /// (an empty history) is for transports outside the verifier, which never
    /// prove anything about it; a bus the proofs rely on overrides it.
    open spec fn sent(&self) -> Seq<u8> {
        Seq::<u8>::empty()
    }

    /// Write one byte to the bridge chip.
    fn write_byte(&mut self, value: u8) -> (r: Result<(), BusError>)
        ensures
            r is Ok ==> final(self).sent() == old(self).sent().push(value),
            r is Err ==> final(self).sent() == old(self).sent(),
    ;

    /// Block for at least `nanos` nanoseconds.
    fn pause(&self, nanos: u64);
}

/// A bus that records every accepted byte and never touches hardware.
///
/// With `fail_from`, the write attempted once `n` bytes have been accepted
/// fails, and so does every attempt after it: a broken bus stays broken.
pub struct TraceBus {
    writes: Vec<u8>,
    fail_on: Option<usize>,
}

impl TraceBus {
    /// The index of the first transmission that fails, if any.
    pub closed spec fn fail_point(&self) -> Option<usize> {
        self.fail_on
    }

    /// A bus that accepts every byte.
    pub fn new() -> (t: TraceBus)
        ensures
            t.sent() == Seq::<u8>::empty(),
            t.fail_point() is None,
    {
        TraceBus { writes: Vec::new(), fail_on: None }
    }

    /// A bus that accepts the first `n` bytes and fails from the `n`-th
    /// transmission on (counting from zero).
    pub fn failing_from(n: usize) -> (t: TraceBus)
        ensures
            t.sent() == Seq::<u8>::empty(),
            t.fail_point() == Some(n),
    {
        TraceBus { writes: Vec::new(), fail_on: Some(n) }
    }

    /// The recorded bytes, oldest first.
    pub fn bytes(&self) -> (r: &Vec<u8>)
        ensures
            r@ == self.sent(),
    {
        &self.writes
    }
}

impl Bus for TraceBus {
    closed spec fn sent(&self) -> Seq<u8> {
        self.writes@
    }

    fn write_byte(&mut self, value: u8) -> (r: Result<(), BusError>)
        ensures
            final(self).fail_point() == old(self).fail_point(),
            r is Ok <==> (match old(self).fail_point() {
                Some(n) => old(self).sent().len() < n,
                None => true,
            }),
    {
        let refuse = match self.fail_on {
            Some(n) => self.writes.len() >= n,
            None => false,
        };
        if refuse {
            Err(BusError)
        } else {
            self.writes.push(value);
            Ok(())
        }
    }

    fn pause(&self, _nanos: u64) {
    }
}

} // verus!
