//! Device capability abstraction: the read/write/blocking-mode contract that
//! every transport (real or simulated) offers to the rest of the library.

use vstd::prelude::*;

verus! {

/// Error raised when a transport operation against the device fails.
///
/// A transport fault is always fatal to the current loop iteration and is
/// propagated to the caller unchanged; it is never retried inside the library.
#[derive(Debug, Copy, Clone, PartialEq, Eq, Structural)]
pub struct DeviceError;

/// The wire bytes of the report that disables host LED manipulation.
pub open spec fn led_off_report() -> Seq<u8> {
    seq![2u8, 0u8, 0u8, 0u8]
}

/// Capability contract for a human-interaction device.
///
/// A device is modelled by a queue of pending input reports (oldest first),
/// a log of every report successfully written to it, and a flag saying
/// whether the transport is free of faults. A simulated backend implements
/// this contract in full; a real transport is interchangeable with it
/// everywhere a device is consumed.
pub trait Device: Sized {
    /// The input reports waiting to be read, oldest first.
    /// A pending report is never empty.
    spec fn pending(&self) -> Seq<Seq<u8>>;

    /// The log of reports successfully written to the device so far.
    spec fn sent(&self) -> Seq<Seq<u8>>;

    /// Whether the transport is free of faults: when this holds, operations
    /// are promised to succeed. A fallible transport never satisfies it.
    spec fn reliable(&self) -> bool;

    /// Set or unset blocking mode for reads.
    fn set_blocking(&mut self, blocking: bool) -> (r: Result<(), DeviceError>)
        ensures
            final(self).pending() == old(self).pending(),
            final(self).sent() == old(self).sent(),
            final(self).reliable() == old(self).reliable(),
            old(self).reliable() ==> r is Ok,
    ;

    /// Read the next pending report, returning its bytes.
    /// An empty result means that no report was pending (in non-blocking mode).
    fn read(&mut self) -> (r: Result<Vec<u8>, DeviceError>)
        ensures
            final(self).sent() == old(self).sent(),
            final(self).reliable() == old(self).reliable(),
            old(self).reliable() ==> r is Ok,
            r matches Ok(data) ==> {
                if old(self).pending().len() == 0 {
                    &&& data@.len() == 0
                    &&& final(self).pending() == old(self).pending()
                } else {
                    &&& data@ == old(self).pending()[0]
                    &&& data@.len() > 0
                    &&& final(self).pending() == old(self).pending().drop_first()
                }
            },
    ;

    /// Write a report to the device, returning the number of bytes written.
    /// A short write relative to `data.len()` is a recoverable anomaly,
    /// not a fault.
    fn write(&mut self, data: &[u8]) -> (r: Result<usize, DeviceError>)
        ensures
            final(self).pending() == old(self).pending(),
            final(self).reliable() == old(self).reliable(),
            old(self).reliable() ==> r is Ok,
            r is Ok ==> final(self).sent() == old(self).sent().push(data@),
            r is Err ==> final(self).sent() == old(self).sent(),
    ;

    /// Write the report which disables host LED manipulation, handing LED
    /// control back to the controller itself.
    fn reset_leds(&mut self) -> (r: Result<(), DeviceError>)
        ensures
            final(self).pending() == old(self).pending(),
            final(self).reliable() == old(self).reliable(),
            old(self).reliable() ==> r is Ok,
            r is Ok ==> final(self).sent() == old(self).sent().push(led_off_report()),
            r is Err ==> final(self).sent() == old(self).sent(),
    {
        let data: Vec<u8> = vec![2, 0, 0, 0];
        assert(data@ == led_off_report());
        match self.write(data.as_slice()) {
            Ok(_) => Ok(()),
            Err(e) => Err(e),
        }
    }
}

/// Whatever the state of a device's write log, appending the LED-disable
/// report twice in a row appends the same wire bytes both times: the report
/// does not depend on anything written before it.
pub proof fn lemma_reset_leds_idempotent(s0: Seq<Seq<u8>>, s1: Seq<Seq<u8>>, s2: Seq<Seq<u8>>)
    requires
        s1 == s0.push(led_off_report()),
        s2 == s1.push(led_off_report()),
    ensures
        s1.last() == s2.last(),
        s2.last() == led_off_report(),
{
}

} // verus!
