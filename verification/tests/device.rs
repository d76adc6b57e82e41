//! Tests for the device contract: draining backlogged queues through an
//! unreliable fake transport, and the loop-back simulator.

use vcs_classic_hid::Device;
use vcs_classic_hid::DeviceError;
use vcs_classic_hid::State;
use vcs_classic_hid::SimulatedDevice;
use vcs_classic_hid::input::StickPosition;
use vcs_classic_hid::led::LedReport;
use vcs_classic_hid::process_input;

/// A transport double with a real multi-report queue and a write log.
struct FakeDevice {
    queue: Vec<Vec<u8>>,
    writes: Vec<Vec<u8>>,
    fail_reads: bool,
}

impl FakeDevice {
    fn new(queue: Vec<Vec<u8>>) -> Self {
        FakeDevice { queue, writes: Vec::new(), fail_reads: false }
    }
}

impl Device for FakeDevice {
    // the ghost model members of the contract are never called at run time
    fn pending(&self) -> vstd::seq::Seq<vstd::seq::Seq<u8>> {
        unreachable!()
    }

    fn sent(&self) -> vstd::seq::Seq<vstd::seq::Seq<u8>> {
        unreachable!()
    }

    fn reliable(&self) -> bool {
        unreachable!()
    }

    fn set_blocking(&mut self, _blocking: bool) -> Result<(), DeviceError> {
        Ok(())
    }

    fn read(&mut self) -> Result<Vec<u8>, DeviceError> {
        if self.fail_reads {
            return Err(DeviceError);
        }
        if self.queue.is_empty() {
            Ok(Vec::new())
        } else {
            Ok(self.queue.remove(0))
        }
    }

    fn write(&mut self, data: &[u8]) -> Result<usize, DeviceError> {
        self.writes.push(data.to_vec());
        Ok(data.len())
    }
}

#[test]
fn drain_returns_only_the_latest_report() {
    let stale1 = vec![1u8, 0x01, 0, 0, 0];
    let stale2 = vec![1u8, 0x02, 0, 0, 0];
    let newest = vec![1u8, 0x00, 0x10, 0x2A, 0x00];
    let mut dev = FakeDevice::new(vec![stale1, stale2, newest]);

    let state = process_input(&mut dev).unwrap().unwrap();
    assert!(!state.button_1 && !state.button_2);
    assert_eq!(state.stick_position, StickPosition::Up);
    assert_eq!(state.roll, 0x2A);
    // the queue was fully drained
    assert!(dev.queue.is_empty());
    assert_eq!(process_input(&mut dev).unwrap(), None);
}

#[test]
fn drain_of_an_empty_queue_is_none() {
    let mut dev = FakeDevice::new(Vec::new());
    assert_eq!(process_input(&mut dev).unwrap(), None);
}

#[test]
fn drain_discards_a_malformed_length_report() {
    let mut dev = FakeDevice::new(vec![vec![1u8, 2, 3]]);
    assert_eq!(process_input(&mut dev).unwrap(), None);
}

#[test]
fn drain_keeps_only_the_newest_even_when_it_is_malformed() {
    let fine = vec![1u8, 0x01, 0, 0, 0];
    let odd = vec![0x42u8, 1, 2, 3, 4, 5, 6];
    let mut dev = FakeDevice::new(vec![fine, odd]);
    // the newest report has a non-standard length, so it is discarded
    assert_eq!(process_input(&mut dev).unwrap(), None);
}

#[test]
fn drain_propagates_transport_errors() {
    let mut dev = FakeDevice::new(vec![vec![1u8, 0, 0, 0, 0]]);
    dev.fail_reads = true;
    assert_eq!(process_input(&mut dev), Err(DeviceError));
}

#[test]
fn from_device_reads_a_single_report() {
    // a six-byte packet: identifier, then the five-byte message body
    let mut dev = FakeDevice::new(vec![vec![1u8, 0, 0x01, 0x30, 0x10, 0]]);
    let state = State::from_device(&mut dev).unwrap().unwrap();
    assert!(state.button_1);
    assert_eq!(state.stick_position, StickPosition::Right);
    assert_eq!(state.roll, 16);
}

#[test]
fn from_device_takes_the_oldest_report_and_may_be_stale() {
    let older = vec![1u8, 0, 0x01, 0, 0, 0];
    let newer = vec![1u8, 0, 0x02, 0, 0, 0];
    let mut dev = FakeDevice::new(vec![older, newer]);
    let state = State::from_device(&mut dev).unwrap().unwrap();
    assert!(state.button_1);
    assert!(!state.button_2);
    // the newer report is still sitting in the queue
    assert_eq!(dev.queue.len(), 1);
}

#[test]
fn from_device_on_an_empty_queue_is_the_neutral_state() {
    let mut dev = FakeDevice::new(Vec::new());
    let state = State::from_device(&mut dev).unwrap().unwrap();
    assert_eq!(state.stick_position, StickPosition::Center);
    assert_eq!(state.roll, 0);
    assert!(!state.button_1);
}

#[test]
fn from_device_rejects_a_foreign_report() {
    let mut dev = FakeDevice::new(vec![vec![9u8, 1, 2, 3, 4, 5]]);
    assert_eq!(State::from_device(&mut dev).unwrap(), None);
}

#[test]
fn from_report_decodes_a_full_packet() {
    let state = State::from_report(&[1u8, 0xFF, 0x03, 0x12, 0x34, 0x01]);
    assert!(state.button_1);
    assert!(state.button_2);
    assert!(!state.button_back);
    assert!(state.button_menu);
    assert!(!state.button_fuji);
    assert_eq!(state.stick_position, StickPosition::Up);
    assert_eq!(state.roll, 0x134);
}

#[test]
fn reset_leds_writes_the_same_bytes_every_time() {
    let mut dev = FakeDevice::new(Vec::new());
    dev.reset_leds().unwrap();
    dev.reset_leds().unwrap();
    assert_eq!(dev.writes.len(), 2);
    assert_eq!(dev.writes[0], vec![2u8, 0, 0, 0]);
    assert_eq!(dev.writes[0], dev.writes[1]);
}

#[test]
fn simulator_reports_its_state_once() {
    let mut sim = SimulatedDevice::new();
    let first = process_input(&mut sim).unwrap().unwrap();
    assert_eq!(first.stick_position, StickPosition::Center);
    assert_eq!(first.roll, 0);
    assert!(!first.button_1);
    // nothing new happened, so the queue stays empty
    assert_eq!(process_input(&mut sim).unwrap(), None);
}

#[test]
fn simulator_enqueues_on_every_change() {
    let mut sim = SimulatedDevice::new();
    let _ = process_input(&mut sim).unwrap();

    sim.move_stick(7);
    sim.set_button_menu(true);
    let state = process_input(&mut sim).unwrap().unwrap();
    assert_eq!(state.stick_position, StickPosition::Left);
    assert!(state.button_menu);
    assert!(sim.is_button_menu_down());
    assert_eq!(sim.stick_position(), StickPosition::Left);

    sim.set_button_1(true);
    sim.set_button_2(true);
    sim.set_button_back(true);
    sim.set_button_fuji(true);
    let state2 = process_input(&mut sim).unwrap().unwrap();
    assert!(state2.button_1 && state2.button_2 && state2.button_back && state2.button_fuji);
    assert!(sim.is_button_1_down() && sim.is_button_2_down());
    assert!(sim.is_button_back_down() && sim.is_button_fuji_down());
}

#[test]
fn simulator_masks_the_roll() {
    let mut sim = SimulatedDevice::new();
    sim.set_roll(0x7FF);
    let state = process_input(&mut sim).unwrap().unwrap();
    assert_eq!(state.roll, 0x3FF);
}

#[test]
fn simulator_paints_its_ring_from_led_reports() {
    let mut sim = SimulatedDevice::new();
    assert_eq!(sim.leds(), &vec![0u8; 24]);

    let report = LedReport::filled(9);
    report.send(&mut sim).unwrap();
    assert_eq!(sim.leds(), &vec![9u8; 24]);

    let mut partial = LedReport::new();
    partial.set(3, 0x55);
    partial.send(&mut sim).unwrap();
    let leds = sim.leds();
    for (i, led) in leds.iter().enumerate() {
        assert_eq!(*led, if i == 3 { 0x55 } else { 0 });
    }
}

#[test]
fn simulator_ignores_reports_it_does_not_interpret() {
    let mut sim = SimulatedDevice::new();
    let report = LedReport::filled(4);
    report.send(&mut sim).unwrap();
    // a force feedback report leaves the ring alone
    let n = sim.write(&[1u8, 0xF8, 28, 26, 4, 0]).unwrap();
    assert_eq!(n, 6);
    assert_eq!(sim.leds(), &vec![4u8; 24]);
    // so does an empty write
    assert_eq!(sim.write(&[]).unwrap(), 0);
}
