//! Force feedback reports: six-byte messages that start or cancel the
//! controller's vibration.

use vstd::prelude::*;
use crate::device::Device;
use crate::device::DeviceError;

verus! {

/// The six wire bytes of a force feedback report with the given
/// parameters: report identifier 1, intensity, vibration up time, pause
/// down time, repeat count, and a reserved trailing byte.
pub open spec fn ff_bytes(intensity: u8, up_time: u8, down_time: u8, times: u8) -> Seq<u8> {
    seq![1u8, intensity, up_time, down_time, times, 0u8]
}

/// A force feedback report, viewed as its six wire bytes.
/// A report with intensity 0 cancels any ongoing vibration.
#[derive(Debug, PartialEq, Eq, Hash)]
pub struct FfReport {
    data: Vec<u8>,
}

impl View for FfReport {
    type V = Seq<u8>;

    closed spec fn view(&self) -> Seq<u8> {
        self.data@
    }
}

impl Clone for FfReport {
    /// Cloning a report preserves its wire bytes exactly.
    fn clone(&self) -> (r: Self)
        ensures
            r@ == self@,
    {
        proof {
            use_type_invariant(self);
        }
        let data = self.data.clone();
        proof {
            assert forall|i: int| 0 <= i < self.data@.len() implies data@[i] == self.data@[i] by {
                assert(cloned::<u8>(self.data@[i], data@[i]));
            }
            assert(data@ =~= self.data@);
        }
        FfReport { data }
    }
}

impl FfReport {
    #[verifier::type_invariant]
    spec fn inv(self) -> bool {
        self.data@.len() == 6 && self.data@[0] == 1 && self.data@[5] == 0
    }

    /// Create a new force feedback report which disables any ongoing
    /// force feedback.
    pub fn new() -> (r: Self)
        ensures
            r@ == ff_bytes(0, 0, 0, 0),
    {
        Self::new_with_params(0, 0, 0, 0)
    }

    /// Create a new force feedback report with the given parameters.
    ///
    /// - `intensity`: how intense the force feedback is
    /// - `up_time`: the duration of each vibration
    /// - `down_time`: the time off between each vibration
    /// - `times`: the number of times to vibrate
    pub fn new_with_params(intensity: u8, up_time: u8, down_time: u8, times: u8) -> (r: Self)
        ensures
            r@ == ff_bytes(intensity, up_time, down_time, times),
    {
        let data: Vec<u8> = vec![1, intensity, up_time, down_time, times, 0];
        let r = FfReport { data };
        proof {
            assert(r@ =~= ff_bytes(intensity, up_time, down_time, times));
        }
        r
    }

    /// The raw wire bytes of the report.
    pub fn bytes(&self) -> (r: &Vec<u8>)
        ensures
            r@ == self@,
    {
        &self.data
    }

    /// Send this report as an HID message to the given device.
    pub fn send<D: Device>(&self, device: &mut D) -> (r: Result<(), DeviceError>)
        ensures
            final(device).pending() == old(device).pending(),
            final(device).reliable() == old(device).reliable(),
            old(device).reliable() ==> r is Ok,
            r is Ok ==> final(device).sent() == old(device).sent().push(self@),
            r is Err ==> final(device).sent() == old(device).sent(),
    {
        match device.write(self.data.as_slice()) {
            Ok(_) => Ok(()),
            Err(e) => Err(e),
        }
    }
}

impl Default for FfReport {
    /// By default, a force feedback report cancels any ongoing vibration.
    fn default() -> (r: Self)
        ensures
            r@ == ff_bytes(0, 0, 0, 0),
    {
        Self::new()
    }
}

} // verus!
