//! Library for driving an Atari-style classic game controller over HID:
//! report codec, LED selection and animation engine, non-blocking input
//! draining, and two tick-driven games built on top.
//!
//! The device capability contract in [`device`] is the seam between the
//! verified logic and any transport: the loop-back backend in
//! [`simulator`] implements it in full, and a physical transport is
//! interchangeable with it everywhere a device is consumed.

pub mod anims;
pub mod cat_mouse;
pub mod device;
pub mod force_feedback;
pub mod input;
pub mod led;
mod random;
pub mod simon;
pub mod simulator;

pub use device::Device;
pub use device::DeviceError;
pub use device::led_off_report;
pub use device::lemma_reset_leds_idempotent;
pub use force_feedback::FfReport;
pub use input::State;
pub use input::StickPosition;
pub use input::process_input;
pub use led::LedReport;
pub use led::LedSelection;
pub use simulator::SimulatedDevice;
