//! A game of Simon says on the classic controller.
//!
//! A growing sequence of directions is shown on the LED ring, one arc at
//! a time; the player repeats it on the stick. Each full traversal
//! appends one more direction; a wrong guess ends the game.

use vstd::prelude::*;
use crate::anims::Asr;
use crate::anims::Pulsate;
use crate::anims::asr_ended;
use crate::anims::asr_intensity;
use crate::anims::asr_value;
use crate::anims::pulsate_value;
use crate::device::Device;
use crate::device::DeviceError;
use crate::force_feedback::FfReport;
use crate::force_feedback::ff_bytes;
use crate::input::StickPosition;
use crate::input::drained_state;
use crate::input::process_input;
use crate::led::AnimationEvent;
use crate::led::LedReport;
use crate::led::LedSelection;
use crate::led::arc_selected;
use crate::led::default_led_bytes;
use crate::led::ring_at;
use crate::random::random_below;

verus! {

/// The event to communicate with the game loop.
#[derive(Debug, Copy, Clone, Eq, Hash, PartialEq, Structural)]
pub enum GameEvent {
    Running,
    Ended,
}

/// Enumeration of the possible choices that the user needs to guess.
#[derive(Debug, Copy, Clone, Eq, Hash, PartialEq, Structural)]
pub enum Choice {
    Up,
    Right,
    Down,
    Left,
}

impl Choice {
    /// The choice with the given index, if it is one of the four.
    pub fn from_u8(value: u8) -> (r: Option<Choice>)
        ensures
            value == 0 ==> r == Some(Choice::Up),
            value == 1 ==> r == Some(Choice::Right),
            value == 2 ==> r == Some(Choice::Down),
            value == 3 ==> r == Some(Choice::Left),
            value > 3 ==> r is None,
    {
        match value {
            0 => Some(Choice::Up),
            1 => Some(Choice::Right),
            2 => Some(Choice::Down),
            3 => Some(Choice::Left),
            _ => None,
        }
    }
}

/// The first ring LED of the seven-LED arc that displays each choice.
pub open spec fn choice_arc_start(c: Choice) -> u8 {
    match c {
        Choice::Up => 9,
        Choice::Right => 15,
        Choice::Down => 21,
        Choice::Left => 3,
    }
}

/// The choice a held stick position records, if any: only the four
/// cardinal directions count, everything else records nothing.
pub open spec fn stick_choice(p: StickPosition) -> Option<Choice> {
    match p {
        StickPosition::Up => Some(Choice::Up),
        StickPosition::Right => Some(Choice::Right),
        StickPosition::Down => Some(Choice::Down),
        StickPosition::Left => Some(Choice::Left),
        _ => None,
    }
}

/// The force feedback cue sent when a wrong direction is applied.
pub open spec fn wrong_guess_cue() -> Seq<u8> {
    ff_bytes(0xCC, 0xBB, 0, 1)
}

/// The wire bytes of the LED report that shows the choice currently
/// pushed on the stick: its arc at full intensity over a dark ring.
pub open spec fn choice_report(c: Choice) -> Seq<u8> {
    Seq::new(
        28,
        |i: int|
            if i == 0 {
                2u8
            } else if i == 1 {
                25u8
            } else if 3 <= i < 27 && arc_selected(choice_arc_start(c), 7, i - 3) {
                0xFFu8
            } else {
                0u8
            },
    )
}

/// Whether an envelope is the one that shows the given choice with its
/// origin rebased at the given tick: a seven-LED arc flashed through a
/// short attack-sustain-release curve.
pub open spec fn shows_choice(anim: Asr, c: Choice, ticks: u64) -> bool {
    &&& anim.wf()
    &&& anim.base_tick == ticks
    &&& anim.ticks_attack == 5
    &&& anim.ticks_sustain == 30
    &&& anim.ticks_release == 8
    &&& anim.value == 0xFF
    &&& forall|j: int|
        0 <= j < 24 ==> (anim.selection@[j] <==> arc_selected(choice_arc_start(c), 7, j))
}

/// Whether a pulse is the game-over animation: the whole ring throbbing
/// dimly with an 18-tick ramp.
pub open spec fn game_over_anim(anim: Pulsate) -> bool {
    &&& anim.wf()
    &&& anim.tick_period == 18
    &&& anim.value_min == 0x25
    &&& anim.value_max == 0x7F
    &&& forall|j: int| 0 <= j < 24 ==> anim.selection@[j]
}

/// The choice whose arc the ambient idle animation flashes during each
/// 50-tick slice.
pub open spec fn idle_choice(rel: u64) -> Choice {
    if (rel / 50) % 4 == 0 {
        Choice::Up
    } else if (rel / 50) % 4 == 1 {
        Choice::Right
    } else if (rel / 50) % 4 == 2 {
        Choice::Down
    } else {
        Choice::Left
    }
}

/// The wire bytes of the ambient idle frame at the given tick relative
/// to the idle origin: the current slice's arc under a short envelope,
/// on an otherwise dark ring.
pub open spec fn idle_frame(rel: u64) -> Seq<u8> {
    Seq::new(
        28,
        |i: int|
            if 3 <= i < 27 && arc_selected(choice_arc_start(idle_choice(rel)), 7, i - 3) {
                asr_intensity(5, 30, 8, rel % 50)
            } else {
                default_led_bytes()[i]
            },
    )
}

/// The wire bytes of a showing frame: the envelope's intensity over the
/// arc it shows, on an otherwise dark ring.
pub open spec fn showing_frame(anim: Asr, ticks: u64) -> Seq<u8> {
    Seq::new(
        28,
        |i: int|
            if 3 <= i < 27 && anim.selection@[i - 3] {
                asr_value(anim, (ticks - anim.base_tick) as u64)
            } else {
                default_led_bytes()[i]
            },
    )
}

/// The wire bytes of a game-over frame: the stored pulse at the given
/// tick relative to the game-over origin, on an otherwise dark ring.
pub open spec fn over_frame(anim: Pulsate, rel: u64) -> Seq<u8> {
    Seq::new(
        28,
        |i: int|
            if 3 <= i < 27 && anim.selection@[i - 3] {
                pulsate_value(anim.value_min, anim.value_max, anim.tick_period, rel)
            } else {
                default_led_bytes()[i]
            },
    )
}

/// Sum type for most of the game's state.
///
/// The only property not stored here is `sequence`.
#[derive(Debug, PartialEq)]
#[allow(inconsistent_fields)]
pub enum GameState {
    Idle {
        base_tick: u64,
    },
    Preparing {
        base_tick: u64,
    },
    Showing {
        /// the current animation showing what the user needs to press
        anim: Asr,
        index: usize,
    },
    Playing {
        /// the index yet to be picked by the player (starts at 0)
        index: usize,
        /// the choice currently pushed on the stick (applied on release)
        pushed: Option<Choice>,
    },
    GameOver {
        /// the moment when it went game over, so we know when to stop
        base_tick: u64,
        anim: Pulsate,
    },
}

/// A game of Simon Says for the classic controller.
#[derive(Debug)]
pub struct Simon {
    /// the growing sequence of directions the player must repeat
    pub sequence: Vec<Choice>,
    /// the state the game is currently in
    pub state: GameState,
}

impl Simon {
    /// Whether the game is well formed: while showing or playing, the
    /// current index lies inside the sequence, and any stored animation
    /// carries sound parameters.
    pub open spec fn wf(&self) -> bool {
        match self.state {
            GameState::Showing { anim, index } => index < self.sequence@.len() && anim.wf(),
            GameState::Playing { index, pushed } => index < self.sequence@.len(),
            GameState::GameOver { base_tick, anim } => anim.wf(),
            _ => true,
        }
    }

    /// Whether the game may be updated at the given tick: no stored
    /// origin tick lies in the future. Ticks grow monotonically, so this
    /// is preserved from one update to the next.
    pub open spec fn ready_at(&self, ticks: u64) -> bool {
        match self.state {
            GameState::Idle { base_tick } => ticks >= base_tick,
            GameState::Preparing { base_tick } => ticks >= base_tick,
            GameState::Showing { anim, index } => ticks >= anim.base_tick,
            GameState::Playing { index, pushed } => true,
            GameState::GameOver { base_tick, anim } => ticks >= base_tick,
        }
    }
}

/// The full tick relation of the game: how one update call moves the
/// game state, what it reads from the device queue, and which reports it
/// writes, for every state the game can be in.
pub open spec fn update_transition(
    pre: Simon,
    post: Simon,
    pending: Seq<Seq<u8>>,
    pending_post: Seq<Seq<u8>>,
    sent: Seq<Seq<u8>>,
    sent_post: Seq<Seq<u8>>,
    ticks: u64,
    ev: GameEvent,
) -> bool {
    match pre.state {
        GameState::Idle { base_tick } => {
            let got = drained_state(pending);
            &&& pending_post.len() == 0
            &&& (ev == GameEvent::Ended <==> (got matches Some(s) && s.button_fuji))
            &&& post.sequence@ == pre.sequence@
            &&& post.state == (if got matches Some(s) && (s.button_menu || s.button_1) {
                GameState::Preparing { base_tick: ticks }
            } else {
                pre.state
            })
            &&& (ev == GameEvent::Running ==> sent_post == sent.push(
                idle_frame((ticks - base_tick) as u64),
            ))
            &&& (ev == GameEvent::Ended ==> sent_post == sent)
        },
        GameState::Preparing { base_tick } => {
            &&& ev == GameEvent::Running
            &&& pending_post == pending
            &&& sent_post == sent.push(default_led_bytes())
            &&& if ticks - base_tick > 30 {
                &&& post.sequence@.len() == 2
                &&& (post.state matches GameState::Showing { anim, index } && index == 0
                    && shows_choice(anim, post.sequence@[0], ticks))
            } else {
                post.state == pre.state && post.sequence@ == pre.sequence@
            }
        },
        GameState::Showing { anim, index } => {
            &&& ev == GameEvent::Running
            &&& pending_post == pending
            &&& post.sequence@ == pre.sequence@
            &&& sent_post == sent.push(showing_frame(anim, ticks))
            &&& if !asr_ended(anim, (ticks - anim.base_tick) as u64) {
                post.state == pre.state
            } else if index + 1 < pre.sequence@.len() {
                post.state matches GameState::Showing { anim: a2, index: i2 } && i2 == index + 1
                    && shows_choice(a2, pre.sequence@[index + 1], ticks)
            } else {
                post.state == (GameState::Playing { index: 0, pushed: None })
            }
        },
        GameState::Playing { index, pushed } => {
            let got = drained_state(pending);
            &&& ev == GameEvent::Running
            &&& pending_post.len() == 0
            &&& match got {
                None => post.state == pre.state && post.sequence@ == pre.sequence@ && sent_post
                    == sent,
                Some(s) => match pushed {
                    None => {
                        &&& post.sequence@ == pre.sequence@
                        &&& sent_post == sent
                        &&& post.state == (GameState::Playing {
                            index,
                            pushed: stick_choice(s.stick_position),
                        })
                    },
                    Some(c) => {
                        if s.stick_position == StickPosition::Center {
                            if c != pre.sequence@[index as int] {
                                // a wrong guess: the game ends with a vibration cue
                                &&& post.sequence@ == pre.sequence@
                                &&& sent_post == sent.push(wrong_guess_cue())
                                &&& (post.state matches GameState::GameOver { base_tick, anim }
                                    && base_tick == ticks && game_over_anim(anim))
                            } else if index + 1 == pre.sequence@.len() {
                                // the whole sequence was repeated: next level
                                &&& post.sequence@.len() == pre.sequence@.len() + 1
                                &&& post.sequence@.subrange(0, pre.sequence@.len() as int)
                                    == pre.sequence@
                                &&& sent_post == sent
                                &&& (post.state matches GameState::Showing { anim, index: i2 }
                                    && i2 == 0 && shows_choice(anim, post.sequence@[0], ticks))
                            } else {
                                // a correct guess: advance within the sequence
                                &&& post.sequence@ == pre.sequence@
                                &&& sent_post == sent.push(default_led_bytes())
                                &&& post.state == (GameState::Playing {
                                    index: (index + 1) as usize,
                                    pushed: None,
                                })
                            }
                        } else {
                            // stick still held: show the recorded decision
                            &&& post.sequence@ == pre.sequence@
                            &&& sent_post == sent.push(choice_report(c))
                            &&& post.state == pre.state
                        }
                    },
                },
            }
        },
        GameState::GameOver { base_tick, anim } => {
            &&& ev == GameEvent::Running
            &&& pending_post == pending
            &&& if ticks - base_tick > 160 {
                &&& post.state == (GameState::Idle { base_tick: ticks })
                &&& post.sequence@.len() == 0
                &&& sent_post == sent.push(ff_bytes(0, 0, 0, 0)).push(
                    over_frame(anim, (ticks - base_tick) as u64),
                )
            } else {
                &&& post.state == pre.state
                &&& post.sequence@ == pre.sequence@
                &&& sent_post == sent.push(over_frame(anim, (ticks - base_tick) as u64))
            }
        },
    }
}

impl Default for Simon {
    /// A fresh game: an empty sequence, idling from tick zero.
    fn default() -> (r: Self)
        ensures
            r.sequence@.len() == 0,
            r.state == (GameState::Idle { base_tick: 0 }),
    {
        Simon { sequence: Vec::new(), state: GameState::Idle { base_tick: 0 } }
    }
}

impl Simon {
    /// A fresh game: an empty sequence, idling from tick zero.
    pub fn new() -> (r: Self)
        ensures
            r.sequence@.len() == 0,
            r.state == (GameState::Idle { base_tick: 0 }),
    {
        Self::default()
    }

    /// Return to the idle state with an empty sequence, rebasing the
    /// ambient animation at the given tick.
    pub fn reset(&mut self, ticks: u64)
        ensures
            final(self).sequence@.len() == 0,
            final(self).state == (GameState::Idle { base_tick: ticks }),
    {
        self.state = GameState::Idle { base_tick: ticks };
        self.sequence.clear();
    }

    /// The selection of ring LEDs that displays a choice: a seven-LED
    /// arc on the side of the ring the direction points to.
    fn led_select_direction(choice: Choice) -> (r: LedSelection)
        ensures
            r@.len() == 24,
            forall|j: int| 0 <= j < 24 ==> (r@[j] <==> arc_selected(choice_arc_start(choice), 7, j)),
    {
        match choice {
            Choice::Up => LedSelection::arc(9, 7),
            Choice::Right => LedSelection::arc(15, 7),
            Choice::Down => LedSelection::arc(21, 7),
            Choice::Left => LedSelection::arc(3, 7),
        }
    }

    /// The envelope that flashes the arc of a choice, not yet rebased.
    fn anim_simon(choice: Choice) -> (r: Asr)
        ensures
            shows_choice(r, choice, 0),
    {
        let selection = Self::led_select_direction(choice);
        Asr::new_with_params(selection, 0xFF, 5, 30, 8)
    }

    /// Draw a uniformly random choice.
    fn draw_choice() -> (r: Choice) {
        let c = random_below(4);
        match Choice::from_u8(c as u8) {
            Some(choice) => choice,
            None => Choice::Up,
        }
    }

    /// Begin a round: pick the first two choices and start showing them.
    fn start(&mut self, ticks: u64)
        ensures
            final(self).sequence@.len() == 2,
            final(self).state matches GameState::Showing { anim, index } && index == 0
                && shows_choice(anim, final(self).sequence@[0], ticks),
    {
        // pick the first two choices
        self.sequence = vec![Self::draw_choice(), Self::draw_choice()];

        let mut anim = Self::anim_simon(self.sequence[0]);
        anim.rearm(ticks);
        self.state = GameState::Showing { anim, index: 0 };
    }

    /// Append one more random choice and replay the grown sequence from
    /// its start.
    fn next_level(&mut self, ticks: u64)
        requires
            old(self).sequence@.len() >= 1,
        ensures
            final(self).sequence@.len() == old(self).sequence@.len() + 1,
            final(self).sequence@.subrange(0, old(self).sequence@.len() as int) == old(
                self,
            ).sequence@,
            final(self).state matches GameState::Showing { anim, index } && index == 0
                && shows_choice(anim, final(self).sequence@[0], ticks),
    {
        self.sequence.push(Self::draw_choice());

        let mut anim = Self::anim_simon(self.sequence[0]);
        anim.rearm(ticks);
        self.state = GameState::Showing { anim, index: 0 };
        proof {
            assert(final(self).sequence@.subrange(0, old(self).sequence@.len() as int) =~= old(
                self,
            ).sequence@);
        }
    }

    /// End the round: remember the moment, start the game-over pulse,
    /// and cue a vibration.
    fn game_over<D: Device>(&mut self, device: &mut D, ticks: u64) -> (r: Result<
        (),
        DeviceError,
    >)
        ensures
            final(self).sequence@ == old(self).sequence@,
            final(self).state matches GameState::GameOver { base_tick, anim } && base_tick == ticks
                && game_over_anim(anim),
            final(device).pending() == old(device).pending(),
            final(device).reliable() == old(device).reliable(),
            old(device).reliable() ==> r is Ok,
            r is Ok ==> final(device).sent() == old(device).sent().push(wrong_guess_cue()),
            r is Err ==> final(device).sent() == old(device).sent(),
    {
        self.state = GameState::GameOver {
            base_tick: ticks,
            anim: Pulsate::new_with_params(LedSelection::all(), 18, 0x25, 0x7F),
        };

        // force feedback for a few moments
        FfReport::new_with_params(0xCC, 0xBB, 0, 1).send(device)
    }

    /// One idle tick: wait for a menu or main button press to get ready,
    /// end the session on the Fuji button, and meanwhile run an ambient
    /// animation that flashes one direction arc per 50-tick slice.
    fn update_idle<D: Device>(&mut self, device: &mut D, ticks: u64, base_tick: u64) -> (r: Result<
        GameEvent,
        DeviceError,
    >)
        requires
            old(self).state == (GameState::Idle { base_tick }),
            ticks >= base_tick,
        ensures
            final(self).wf(),
            forall|t: u64| t >= ticks ==> final(self).ready_at(t),
            final(device).reliable() == old(device).reliable(),
            old(device).reliable() ==> r is Ok,
            r matches Ok(ev) ==> update_transition(
                *old(self),
                *final(self),
                old(device).pending(),
                final(device).pending(),
                old(device).sent(),
                final(device).sent(),
                ticks,
                ev,
            ),
    {
        let got = match process_input(device) {
            Ok(g) => g,
            Err(e) => {
                return Err(e);
            },
        };

        if let Some(st) = got {
            if st.button_menu || st.button_1 {
                self.state = GameState::Preparing { base_tick: ticks };
            }
            if st.button_fuji {
                return Ok(GameEvent::Ended);
            }
        }

        // a silly animation while waiting for the menu button press
        let rel: u64 = ticks - base_tick;
        let c = match (rel / 50) % 4 {
            0 => Choice::Up,
            1 => Choice::Right,
            2 => Choice::Down,
            _ => Choice::Left,
        };

        let mut report = LedReport::new();
        let anim = Self::anim_simon(c);
        let _ = anim.step(rel % 50, &mut report);
        proof {
            assert(c == idle_choice(rel));
            assert forall|i: int| 0 <= i < 28 implies report@[i] == idle_frame(rel)[i] by {
                if 3 <= i && i < 27 {
                    assert(ring_at(report, i - 3) == (if anim.selection@[i - 3] {
                        asr_value(anim, rel % 50)
                    } else {
                        default_led_bytes()[i]
                    }));
                }
            }
            assert(report@ =~= idle_frame(rel));
        }

        match report.send(device) {
            Ok(_) => Ok(GameEvent::Running),
            Err(e) => Err(e),
        }
    }

    /// Drive the game by one tick: drain the controller's input, move
    /// the state machine, and paint the LED ring accordingly.
    pub fn update<D: Device>(&mut self, device: &mut D, ticks: u64) -> (r: Result<
        GameEvent,
        DeviceError,
    >)
        requires
            old(self).wf(),
            old(self).ready_at(ticks),
        ensures
            final(self).wf(),
            forall|t: u64| t >= ticks ==> final(self).ready_at(t),
            final(device).reliable() == old(device).reliable(),
            old(device).reliable() ==> r is Ok,
            r matches Ok(ev) ==> update_transition(
                *old(self),
                *final(self),
                old(device).pending(),
                final(device).pending(),
                old(device).sent(),
                final(device).sent(),
                ticks,
                ev,
            ),
    {
        match &self.state {
            GameState::Idle { base_tick } => {
                let bt: u64 = *base_tick;
                self.update_idle(device, ticks, bt)
            },
            GameState::Preparing { base_tick } => {
                let bt: u64 = *base_tick;
                if ticks - bt > 30 {
                    self.start(ticks);
                }

                // reset LEDs
                let report = LedReport::new();
                match report.send(device) {
                    Ok(_) => Ok(GameEvent::Running),
                    Err(e) => Err(e),
                }
            },
            GameState::Showing { anim, index } => {
                let idx: usize = *index;
                let n = self.sequence.len();
                let mut report = LedReport::new();
                let e = anim.step(ticks, &mut report);
                proof {
                    assert forall|i: int| 0 <= i < 28 implies report@[i] == showing_frame(
                        *anim,
                        ticks,
                    )[i] by {
                        if 3 <= i && i < 27 {
                            assert(ring_at(report, i - 3) == (if anim.selection@[i - 3] {
                                asr_value(*anim, (ticks - anim.base_tick) as u64)
                            } else {
                                default_led_bytes()[i]
                            }));
                        }
                    }
                    assert(report@ =~= showing_frame(*anim, ticks));
                }
                if matches!(e, AnimationEvent::Ended) {
                    // done showing an item
                    if idx + 1 < n {
                        // move on to the next one
                        let mut anim2 = Self::anim_simon(self.sequence[idx + 1]);
                        anim2.rearm(ticks);
                        self.state = GameState::Showing { anim: anim2, index: idx + 1 };
                    } else {
                        // we're done showing items, move on to playing
                        self.state = GameState::Playing { index: 0, pushed: None };
                    }
                }
                match report.send(device) {
                    Ok(_) => Ok(GameEvent::Running),
                    Err(e2) => Err(e2),
                }
            },
            GameState::Playing { index, pushed } => {
                let idx: usize = *index;
                let p: Option<Choice> = *pushed;
                let got = match process_input(device) {
                    Ok(g) => g,
                    Err(e) => {
                        return Err(e);
                    },
                };
                if let Some(st) = got {
                    match p {
                        None => {
                            // check for user input
                            match st.stick_position {
                                StickPosition::Up => {
                                    self.state = GameState::Playing {
                                        index: idx,
                                        pushed: Some(Choice::Up),
                                    };
                                },
                                StickPosition::Right => {
                                    self.state = GameState::Playing {
                                        index: idx,
                                        pushed: Some(Choice::Right),
                                    };
                                },
                                StickPosition::Down => {
                                    self.state = GameState::Playing {
                                        index: idx,
                                        pushed: Some(Choice::Down),
                                    };
                                },
                                StickPosition::Left => {
                                    self.state = GameState::Playing {
                                        index: idx,
                                        pushed: Some(Choice::Left),
                                    };
                                },
                                _ => {
                                    // no direction held: nothing recorded
                                },
                            }
                        },
                        Some(c) => {
                            // if the stick was centered, apply the choice
                            if matches!(st.stick_position, StickPosition::Center) {
                                let expected = self.sequence[idx];
                                if c != expected {
                                    match self.game_over(device, ticks) {
                                        Ok(_) => {},
                                        Err(e) => {
                                            return Err(e);
                                        },
                                    }
                                } else {
                                    // correct!
                                    let n = self.sequence.len();
                                    let idx2 = idx + 1;
                                    if idx2 == n {
                                        // next level
                                        self.next_level(ticks);
                                    } else {
                                        // next element in the sequence
                                        self.state = GameState::Playing {
                                            index: idx2,
                                            pushed: None,
                                        };

                                        // reset LEDs
                                        let report = LedReport::new();
                                        match report.send(device) {
                                            Ok(_) => {},
                                            Err(e) => {
                                                return Err(e);
                                            },
                                        }
                                    }
                                }
                            } else {
                                // LEDs showing the decision
                                let mut report = LedReport::new();
                                let sel = Self::led_select_direction(c);
                                report.set_selection(&sel, 0xFF);
                                proof {
                                    assert forall|i: int| 0 <= i < 28 implies report@[i]
                                        == choice_report(c)[i] by {
                                        if 3 <= i && i < 27 {
                                            assert(crate::led::ring_at(report, i - 3) == (
                                            if sel@[i - 3] {
                                                0xFFu8
                                            } else {
                                                0u8
                                            }));
                                        }
                                    }
                                    assert(report@ =~= choice_report(c));
                                }
                                match report.send(device) {
                                    Ok(_) => {},
                                    Err(e) => {
                                        return Err(e);
                                    },
                                }
                            }
                        },
                    }
                }
                Ok(GameEvent::Running)
            },
            GameState::GameOver { base_tick, anim } => {
                let bt: u64 = *base_tick;
                let mut report = LedReport::new();
                let _ = anim.paint(ticks - bt, &mut report);
                proof {
                    assert forall|i: int| 0 <= i < 28 implies report@[i] == over_frame(
                        *anim,
                        (ticks - bt) as u64,
                    )[i] by {
                        if 3 <= i && i < 27 {
                            assert(ring_at(report, i - 3) == (if anim.selection@[i - 3] {
                                pulsate_value(
                                    anim.value_min,
                                    anim.value_max,
                                    anim.tick_period,
                                    (ticks - bt) as u64,
                                )
                            } else {
                                default_led_bytes()[i]
                            }));
                        }
                    }
                    assert(report@ =~= over_frame(*anim, (ticks - bt) as u64));
                }

                if ticks - bt > 160 {
                    // cancel any pending vibration
                    match FfReport::new().send(device) {
                        Ok(_) => {},
                        Err(e) => {
                            return Err(e);
                        },
                    }
                    self.reset(ticks);
                }

                match report.send(device) {
                    Ok(_) => Ok(GameEvent::Running),
                    Err(e) => Err(e),
                }
            },
        }
    }
}

} // verus!
