//! Simulated classic controller: a loop-back device that implements the
//! full device capability contract, so that games and LED effects can be
//! exercised without physical hardware.
//!
//! The simulator holds one logical input state. Changing any part of it
//! enqueues a single fresh input report; reading consumes it. Writes are
//! interpreted like the controller would: LED reports repaint the
//! simulated ring, anything else is accepted and ignored.

use vstd::prelude::*;
use crate::device::Device;
use crate::device::DeviceError;
use crate::input::State;
use crate::input::StickPosition;
use crate::input::spec_encode;
use crate::input::spec_stick_of_code;
use crate::input::encode_input;

verus! {

/// A simulated classic controller device, viewed as the input state it
/// currently reports.
pub struct SimulatedDevice {
    stick_position: u8,
    stick_roll: u16,
    empty_queue: bool,
    led_state: Vec<u8>,
    button_1: bool,
    button_2: bool,
    button_back: bool,
    button_menu: bool,
    button_fuji: bool,
    sent_log: Ghost<Seq<Seq<u8>>>,
}

impl View for SimulatedDevice {
    type V = State;

    closed spec fn view(&self) -> State {
        State {
            stick_position: spec_stick_of_code(self.stick_position),
            button_1: self.button_1,
            button_2: self.button_2,
            button_back: self.button_back,
            button_menu: self.button_menu,
            button_fuji: self.button_fuji,
            roll: self.stick_roll,
        }
    }
}

impl SimulatedDevice {
    #[verifier::type_invariant]
    spec fn inv(self) -> bool {
        &&& self.stick_position <= 8
        &&& self.stick_roll < 1024
        &&& self.led_state@.len() == 24
    }

    /// A fresh simulated device: stick centered, every button up, roll at
    /// zero, ring dark, and one initial input report already enqueued.
    pub fn new() -> (r: Self)
        ensures
            r@ == (State {
                stick_position: StickPosition::Center,
                button_1: false,
                button_2: false,
                button_back: false,
                button_menu: false,
                button_fuji: false,
                roll: 0,
            }),
            r.pending() == seq![spec_encode(r@)],
            r.sent() == Seq::<Seq<u8>>::empty(),
            r.reliable(),
            r.leds_view().len() == 24,
            forall|j: int| 0 <= j < 24 ==> r.leds_view()[j] == 0,
    {
        let mut led_state: Vec<u8> = Vec::new();
        let mut k: usize = 0;
        while k < 24
            invariant
                led_state@.len() == k,
                k <= 24,
                forall|j: int| 0 <= j < k ==> led_state@[j] == 0,
            decreases 24 - k,
        {
            led_state.push(0);
            k = k + 1;
        }
        SimulatedDevice {
            stick_position: 0,
            stick_roll: 0,
            empty_queue: false,
            led_state,
            button_1: false,
            button_2: false,
            button_back: false,
            button_menu: false,
            button_fuji: false,
            sent_log: Ghost(Seq::empty()),
        }
    }

    /// The simulated intensities of the 24 ring LEDs.
    pub closed spec fn leds_view(&self) -> Seq<u8> {
        self.led_state@
    }

    /// The intensities of the 24 ring LEDs as last painted by LED reports.
    pub fn leds(&self) -> (r: &Vec<u8>)
        ensures
            r@ == self.leds_view(),
            r@.len() == 24,
    {
        proof {
            use_type_invariant(self);
        }
        &self.led_state
    }

    /// The input state the device currently reports.
    pub fn input_state(&self) -> (r: State)
        ensures
            r == self@,
            r.valid(),
    {
        proof {
            use_type_invariant(self);
        }
        State {
            stick_position: match StickPosition::from_u8(self.stick_position) {
                Some(p) => p,
                None => StickPosition::Center,
            },
            button_1: self.button_1,
            button_2: self.button_2,
            button_back: self.button_back,
            button_menu: self.button_menu,
            button_fuji: self.button_fuji,
            roll: self.stick_roll,
        }
    }

    /// Move the stick to the position with the given wire code.
    pub fn move_stick(&mut self, position: u8)
        requires
            position <= 8,
        ensures
            final(self)@ == (State { stick_position: spec_stick_of_code(position), ..old(self)@ }),
            final(self).pending() == seq![spec_encode(final(self)@)],
            final(self).sent() == old(self).sent(),
            final(self).leds_view() == old(self).leds_view(),
            final(self).reliable(),
    {
        proof {
            use_type_invariant(&*self);
        }
        self.stick_position = position;
        // has new info
        self.enqueue();
    }

    /// Turn the rotational paddle to an absolute position, which is kept
    /// on the circular 10-bit track.
    pub fn set_roll(&mut self, roll: u16)
        ensures
            final(self)@ == (State { roll: roll & 0x3FF, ..old(self)@ }),
            final(self).pending() == seq![spec_encode(final(self)@)],
            final(self).sent() == old(self).sent(),
            final(self).leds_view() == old(self).leds_view(),
            final(self).reliable(),
    {
        proof {
            use_type_invariant(&*self);
            crate::input::lemma_mask10(roll);
        }
        self.stick_roll = roll & 0x3FF;
        // has new info
        self.enqueue();
    }

    /// Press or release the main button.
    pub fn set_button_1(&mut self, down: bool)
        ensures
            final(self)@ == (State { button_1: down, ..old(self)@ }),
            final(self).pending() == seq![spec_encode(final(self)@)],
            final(self).sent() == old(self).sent(),
            final(self).leds_view() == old(self).leds_view(),
            final(self).reliable(),
    {
        proof {
            use_type_invariant(&*self);
        }
        self.button_1 = down;
        // has new info
        self.enqueue();
    }

    /// Press or release the secondary trigger.
    pub fn set_button_2(&mut self, down: bool)
        ensures
            final(self)@ == (State { button_2: down, ..old(self)@ }),
            final(self).pending() == seq![spec_encode(final(self)@)],
            final(self).sent() == old(self).sent(),
            final(self).leds_view() == old(self).leds_view(),
            final(self).reliable(),
    {
        proof {
            use_type_invariant(&*self);
        }
        self.button_2 = down;
        // has new info
        self.enqueue();
    }

    /// Press or release the back button.
    pub fn set_button_back(&mut self, down: bool)
        ensures
            final(self)@ == (State { button_back: down, ..old(self)@ }),
            final(self).pending() == seq![spec_encode(final(self)@)],
            final(self).sent() == old(self).sent(),
            final(self).leds_view() == old(self).leds_view(),
            final(self).reliable(),
    {
        proof {
            use_type_invariant(&*self);
        }
        self.button_back = down;
        // has new info
        self.enqueue();
    }

    /// Press or release the menu/context button.
    pub fn set_button_menu(&mut self, down: bool)
        ensures
            final(self)@ == (State { button_menu: down, ..old(self)@ }),
            final(self).pending() == seq![spec_encode(final(self)@)],
            final(self).sent() == old(self).sent(),
            final(self).leds_view() == old(self).leds_view(),
            final(self).reliable(),
    {
        proof {
            use_type_invariant(&*self);
        }
        self.button_menu = down;
        // has new info
        self.enqueue();
    }

    /// Press or release the Fuji (Atari) button.
    pub fn set_button_fuji(&mut self, down: bool)
        ensures
            final(self)@ == (State { button_fuji: down, ..old(self)@ }),
            final(self).pending() == seq![spec_encode(final(self)@)],
            final(self).sent() == old(self).sent(),
            final(self).leds_view() == old(self).leds_view(),
            final(self).reliable(),
    {
        proof {
            use_type_invariant(&*self);
        }
        self.button_fuji = down;
        // has new info
        self.enqueue();
    }

    /// Whether the main button is down.
    pub fn is_button_1_down(&self) -> (r: bool)
        ensures
            r == self@.button_1,
    {
        self.button_1
    }

    /// Whether the secondary trigger is down.
    pub fn is_button_2_down(&self) -> (r: bool)
        ensures
            r == self@.button_2,
    {
        self.button_2
    }

    /// Whether the back button is down.
    pub fn is_button_back_down(&self) -> (r: bool)
        ensures
            r == self@.button_back,
    {
        self.button_back
    }

    /// Whether the menu/context button is down.
    pub fn is_button_menu_down(&self) -> (r: bool)
        ensures
            r == self@.button_menu,
    {
        self.button_menu
    }

    /// Whether the Fuji (Atari) button is down.
    pub fn is_button_fuji_down(&self) -> (r: bool)
        ensures
            r == self@.button_fuji,
    {
        self.button_fuji
    }

    /// The position the stick is currently held at.
    pub fn stick_position(&self) -> (r: StickPosition)
        ensures
            r == self@.stick_position,
    {
        proof {
            use_type_invariant(self);
        }
        match StickPosition::from_u8(self.stick_position) {
            Some(p) => p,
            None => StickPosition::Center,
        }
    }

    /// Mark the queue as holding a fresh report of the current state.
    fn enqueue(&mut self)
        ensures
            *final(self) == (SimulatedDevice { empty_queue: false, ..*old(self) }),
    {
        proof {
            use_type_invariant(&*self);
        }
        self.empty_queue = false;
    }
}

impl Device for SimulatedDevice {
    /// The queue holds at most one report: the freshest encoding of the
    /// simulated input state, present until it is read.
    closed spec fn pending(&self) -> Seq<Seq<u8>> {
        if self.empty_queue {
            Seq::empty()
        } else {
            seq![spec_encode(self.view())]
        }
    }

    closed spec fn sent(&self) -> Seq<Seq<u8>> {
        self.sent_log@
    }

    /// The simulated transport never faults.
    closed spec fn reliable(&self) -> bool {
        true
    }

    fn set_blocking(&mut self, blocking: bool) -> (r: Result<(), DeviceError>) {
        // no op: the simulator never blocks
        Ok(())
    }

    fn read(&mut self) -> (r: Result<Vec<u8>, DeviceError>) {
        proof {
            use_type_invariant(&*self);
        }
        if self.empty_queue {
            // no new input to consume
            return Ok(Vec::new());
        }

        let state = self.input_state();
        let data = encode_input(&state);

        // force the queue to be empty so that the next request for data
        // reports that the queue is empty
        self.empty_queue = true;
        proof {
            assert(old(self).pending()[0] == data@);
            assert(self.pending() =~= old(self).pending().drop_first());
        }
        Ok(data)
    }

    fn write(&mut self, data: &[u8]) -> (r: Result<usize, DeviceError>) {
        proof {
            use_type_invariant(&*self);
        }
        let ghost logged = self.sent_log@.push(data@);
        if data.len() == 0 {
            // no report was sent
            self.sent_log = Ghost(logged);
            return Ok(0);
        }
        if data[0] == 2 {
            // LED report: repaint the simulated ring from the ring bytes,
            // as many as the declared ring length and the report carry
            let declared: usize = if data.len() >= 2 {
                data[1] as usize
            } else {
                0
            };
            let avail: usize = if data.len() >= 3 {
                data.len() - 3
            } else {
                0
            };
            let mut count: usize = if declared < avail {
                declared
            } else {
                avail
            };
            if count > 24 {
                count = 24;
            }
            let mut k: usize = 0;
            while k < count
                invariant
                    self.led_state@.len() == 24,
                    self.stick_position <= 8,
                    self.stick_roll < 1024,
                    count <= 24,
                    count == 0 || 3 + count <= data@.len(),
                    k <= count,
                    self.stick_position == old(self).stick_position,
                    self.stick_roll == old(self).stick_roll,
                    self.empty_queue == old(self).empty_queue,
                    self.button_1 == old(self).button_1,
                    self.button_2 == old(self).button_2,
                    self.button_back == old(self).button_back,
                    self.button_menu == old(self).button_menu,
                    self.button_fuji == old(self).button_fuji,
                    self.sent_log == old(self).sent_log,
                    forall|j: int| 0 <= j < k ==> self.led_state@[j] == data@[3 + j],
                    forall|j: int| k <= j < 24 ==> self.led_state@[j] == old(self).led_state@[j],
                decreases count - k,
            {
                self.led_state[k] = data[3 + k];
                k = k + 1;
            }
            self.sent_log = Ghost(logged);
            Ok(data.len())
        } else {
            // a report the simulator does not interpret: accepted whole
            self.sent_log = Ghost(logged);
            Ok(data.len())
        }
    }
}

} // verus!
