//! A game where you're a mouse and you try to catch glowing cheese
//! while avoiding the cat.
//!
//! Positions live on a circular track of 1024 units, mapped onto the
//! 24-LED ring. The mouse follows the rotational paddle; the cat walks
//! toward the mouse along the shorter arc, faster and faster as the
//! score grows; the cheese respawns away from the mouse when eaten.

use vstd::prelude::*;
use crate::anims::Pulsate;
use crate::anims::pulsate_value;
use crate::device::Device;
use crate::device::DeviceError;
use crate::force_feedback::FfReport;
use crate::force_feedback::ff_bytes;
use crate::input::drained_state;
use crate::input::process_input;
use crate::led::AnimationEvent;
use crate::led::LedAnimation;
use crate::led::LedReport;
use crate::led::LedSelection;
use crate::led::default_led_bytes;
use crate::led::ring_at;
use crate::led::span_selected;
use crate::random::random_below;

verus! {

/// The event to communicate with the game loop.
#[derive(Debug, Copy, Clone, Eq, Hash, PartialEq, Structural)]
pub enum GameEvent {
    Running,
    Ended,
}

impl Default for GameEvent {
    fn default() -> (r: Self)
        ensures
            r == GameEvent::Running,
    {
        GameEvent::Running
    }
}

/// The force feedback cue sent when the cat catches the mouse.
pub open spec fn collision_cue() -> Seq<u8> {
    ff_bytes(0xF8, 28, 26, 4)
}

/// The force feedback cue sent when the mouse munches the cheese.
pub open spec fn munch_cue() -> Seq<u8> {
    ff_bytes(0xA4, 9, 12, 3)
}

/// The wire bytes of one chase frame: the cat's static glow, the
/// cheese's slow dim pulse and the mouse's fast bright pulse on their
/// ring LEDs over a dark ring, later marks painting over earlier ones.
pub open spec fn chase_frame(mouse: int, cheese: int, cat: int, ticks: u64) -> Seq<u8> {
    Seq::new(
        28,
        |i: int|
            if 3 <= i < 27 {
                let j = i - 3;
                if j == led_of_position(cat) {
                    0x46u8
                } else if j == led_of_position(cheese) {
                    pulsate_value(0x1C, 0x66, 7, ticks)
                } else if j == led_of_position(mouse) {
                    pulsate_value(0xCF, 0xFF, 12, ticks)
                } else {
                    default_led_bytes()[i]
                }
            } else {
                default_led_bytes()[i]
            },
    )
}

/// The ring LED that a track position falls on: the 1024-unit circular
/// track mapped onto the 24 LEDs.
pub open spec fn led_of_position(p: int) -> int {
    p * 3 / 128
}

/// The signed shorter-arc offset from the cat to the mouse: positive
/// when the closest route runs counter to the track direction.
pub open spec fn rel_route(mouse: int, cat: int) -> int {
    (mouse - cat + 1024) % 1024 - 512
}

/// Where the cat stands after one tick: one speed step along the
/// shorter arc toward the mouse, wrapping around the track.
pub open spec fn cat_after(mouse: int, cat: int, speed: int) -> int {
    if rel_route(mouse, cat) > 0 {
        (cat - speed + 1024) % 1024
    } else {
        (cat + speed) % 1024
    }
}

/// Whether two track positions collide: their absolute difference is at
/// most 16 units.
pub open spec fn near(a: int, b: int) -> bool {
    -16 <= a - b <= 16
}

/// The cat's speed after the score reaches a threshold: exactly the
/// scores 10, 20, 30, 50, 70 and 100 raise it to 2, 3, 4, 5, 6 and 7
/// respectively, and no other score changes it.
pub open spec fn speed_for_score(score: u16, speed: i16) -> i16 {
    if score == 10 {
        2
    } else if score == 20 {
        3
    } else if score == 30 {
        4
    } else if score == 50 {
        5
    } else if score == 70 {
        6
    } else if score == 100 {
        7
    } else {
        speed
    }
}

/// The ring LED that a track position falls on.
pub fn position_to_led(position: i16) -> (r: u8)
    requires
        0 <= position < 1024,
    ensures
        r == led_of_position(position as int),
        r < 24,
{
    let out: i32 = (position as i32) * 3 / 128;
    out as u8
}

/// Choose a position for the cheese: drawn uniformly from the track,
/// rejecting up to twenty draws that land within 100 units of the
/// mouse, and falling back to position zero when every draw does.
pub fn spawn_cheese(mouse_position: i16) -> (r: i16)
    requires
        0 <= mouse_position < 1024,
    ensures
        0 <= r < 1024,
        r == 0 || r - mouse_position > 100 || mouse_position - r > 100,
{
    let mut attempt: usize = 0;
    let mut result: i16 = 0;
    let mut found = false;
    while attempt < 20 && !found
        invariant
            attempt <= 20,
            0 <= result < 1024,
            0 <= mouse_position < 1024,
            found ==> result - mouse_position > 100 || mouse_position - result > 100,
            !found ==> result == 0,
        decreases 20 - attempt,
    {
        let x = random_below(1024) as i16;
        let diff = if x >= mouse_position {
            x - mouse_position
        } else {
            mouse_position - x
        };
        if diff > 100 {
            result = x;
            found = true;
        }
        attempt = attempt + 1;
    }
    result
}

/// Choose a position for the cat: drawn uniformly from the track,
/// rejecting up to twenty draws that land within 400 units of the
/// mouse, and falling back to position zero when every draw does.
pub fn spawn_cat(mouse_position: i16) -> (r: i16)
    requires
        0 <= mouse_position < 1024,
    ensures
        0 <= r < 1024,
        r == 0 || r - mouse_position > 400 || mouse_position - r > 400,
{
    let mut attempt: usize = 0;
    let mut result: i16 = 0;
    let mut found = false;
    while attempt < 20 && !found
        invariant
            attempt <= 20,
            0 <= result < 1024,
            0 <= mouse_position < 1024,
            found ==> result - mouse_position > 400 || mouse_position - result > 400,
            !found ==> result == 0,
        decreases 20 - attempt,
    {
        let x = random_below(1024) as i16;
        let diff = if x >= mouse_position {
            x - mouse_position
        } else {
            mouse_position - x
        };
        if diff > 400 {
            result = x;
            found = true;
        }
        attempt = attempt + 1;
    }
    result
}

/// Move the cat one speed step along the shorter arc toward the mouse.
fn step_cat(mouse: i16, cat: i16, speed: i16) -> (r: i16)
    requires
        0 <= mouse < 1024,
        0 <= cat < 1024,
        1 <= speed <= 7,
    ensures
        r == cat_after(mouse as int, cat as int, speed as int),
        0 <= r < 1024,
{
    // determine the closest route to the mouse
    let rel: i32 = ((mouse as i32) - (cat as i32) + 1024) % 1024 - 512;

    if rel > 0 {
        (((cat as i32) - (speed as i32) + 1024) % 1024) as i16
    } else {
        (((cat as i32) + (speed as i32)) % 1024) as i16
    }
}

/// The game-over jaw animation: two jaws of LEDs close over the ring,
/// crush, and open again in a repeating 23-tick cycle, one bite per
/// cycle, until the bite counter runs out.
#[derive(Debug, Copy, Clone, PartialEq, Eq, Structural)]
pub struct BiteAnimation {
    /// the tick the current run of bites started at
    pub base_ticks: u64,
    /// how many full bite cycles are left before the animation ends
    pub bites_left: u32,
}

/// How one bite tick paints the report: during the closing and opening
/// phases two symmetric spans of the jaw's current width light up,
/// during the crush the whole ring is lit, and the idle tail leaves the
/// report alone.
pub open spec fn bite_painted(dur: u64, pre: LedReport, post: LedReport) -> bool
    recommends
        dur < 23,
{
    if dur < 8 || (11 <= dur < 21) {
        let amount = if dur < 8 {
            (dur * 7 / 8) as u8
        } else {
            ((21 - dur) * 7 / 10) as u8
        };
        &&& post@.len() == 28
        &&& forall|j: int|
            0 <= j < 24 ==> ring_at(post, j) == (if span_selected(0, amount, j) || span_selected(
                12,
                amount,
                j,
            ) {
                0x66u8
            } else {
                ring_at(pre, j)
            })
        &&& forall|j: int| 0 <= j < 28 && !(3 <= j < 27) ==> post@[j] == pre@[j]
    } else if 8 <= dur < 11 {
        &&& post@.len() == 28
        &&& forall|j: int|
            0 <= j < 28 ==> post@[j] == (if j >= 3 {
                0x66u8
            } else {
                pre@[j]
            })
    } else {
        post == pre
    }
}

/// The ring LED the ambient idle dot stands on at the given tick.
pub open spec fn idle_dot(base_ticks: u64, ticks: u64) -> int {
    ((ticks - base_ticks) / 10) % 24
}

/// The wire bytes of one ambient idle frame: a bright dot walking the
/// ring, over a dim pulsating trail on every third LED ahead of it.
pub open spec fn idle_frame(base_ticks: u64, ticks: u64) -> Seq<u8> {
    let dot = idle_dot(base_ticks, ticks);
    Seq::new(
        28,
        |i: int|
            if 3 <= i < 27 {
                let j = i - 3;
                if j == dot {
                    0xFFu8
                } else if j % 3 == 0 && j > dot {
                    pulsate_value(0x1C, 0x60, 8, ticks)
                } else {
                    default_led_bytes()[i]
                }
            } else {
                default_led_bytes()[i]
            },
    )
}

/// The wire bytes of one game-over frame: the jaw cycle's paint at the
/// given tick over an otherwise dark ring; an exhausted animation leaves
/// the ring dark.
pub open spec fn bite_frame(a: BiteAnimation, ticks: u64) -> Seq<u8> {
    let dur = ((ticks - a.base_ticks) as u64) % 23;
    Seq::new(
        28,
        |i: int|
            if a.bites_left == 0 {
                default_led_bytes()[i]
            } else if 8 <= dur < 11 {
                if i >= 3 {
                    0x66u8
                } else {
                    default_led_bytes()[i]
                }
            } else if dur < 8 || dur < 21 {
                let amount = if dur < 8 {
                    (dur * 7 / 8) as u8
                } else {
                    ((21 - dur) * 7 / 10) as u8
                };
                if 3 <= i < 27 && (span_selected(0, amount, i - 3) || span_selected(
                    12,
                    amount,
                    i - 3,
                )) {
                    0x66u8
                } else {
                    default_led_bytes()[i]
                }
            } else {
                default_led_bytes()[i]
            },
    )
}

impl BiteAnimation {
    /// A fresh four-bite animation starting at the given tick.
    pub fn new(ticks: u64) -> (r: Self)
        ensures
            r.base_ticks == ticks,
            r.bites_left == 4,
    {
        BiteAnimation { base_ticks: ticks, bites_left: 4 }
    }

    /// Rebase the animation's origin at the given tick.
    pub fn rearm(&mut self, ticks: u64)
        ensures
            *final(self) == (BiteAnimation { base_ticks: ticks, ..*old(self) }),
    {
        self.base_ticks = ticks;
    }

    /// Paint one tick of the jaw cycle, counting a bite down at the end
    /// of each full cycle; once the counter is out, report `Ended` and
    /// leave the report alone.
    pub fn step(&mut self, ticks: u64, report: &mut LedReport) -> (e: AnimationEvent)
        requires
            ticks >= old(self).base_ticks,
        ensures
            final(self).base_ticks == old(self).base_ticks,
            old(self).bites_left == 0 ==> e == AnimationEvent::Ended && *final(report) == *old(
                report,
            ) && *final(self) == *old(self),
            old(self).bites_left > 0 ==> {
                let dur = ((ticks - old(self).base_ticks) as u64) % 23;
                &&& e == AnimationEvent::Running
                &&& bite_painted(dur, *old(report), *final(report))
                &&& final(self).bites_left == (if dur == 22 {
                    (old(self).bites_left - 1) as u32
                } else {
                    old(self).bites_left
                })
            },
    {
        if self.bites_left == 0 {
            return AnimationEvent::Ended;
        }

        let dur: u64 = (ticks - self.base_ticks) % 23;
        if dur < 8 {
            // closing jaw
            let amount = (dur * 7 / 8) as u8;
            let jaw_a = LedSelection::span(0, amount);
            let jaw_b = LedSelection::span(12, amount);
            report.set_selection(&jaw_a, 0x66);
            report.set_selection(&jaw_b, 0x66);
            proof {
                assert forall|j: int| 0 <= j < 24 implies ring_at(*report, j) == (if span_selected(
                    0,
                    amount,
                    j,
                ) || span_selected(12, amount, j) {
                    0x66u8
                } else {
                    ring_at(*old(report), j)
                }) by {
                    assert(jaw_a@[j] == span_selected(0, amount, j));
                    assert(jaw_b@[j] == span_selected(12, amount, j));
                }
            }
        } else if dur < 11 {
            // held crushed
            report.fill(0x66);
        } else if dur < 21 {
            // opening jaw
            let amount = ((21 - dur) * 7 / 10) as u8;
            let jaw_a = LedSelection::span(0, amount);
            let jaw_b = LedSelection::span(12, amount);
            report.set_selection(&jaw_a, 0x66);
            report.set_selection(&jaw_b, 0x66);
            proof {
                assert forall|j: int| 0 <= j < 24 implies ring_at(*report, j) == (if span_selected(
                    0,
                    amount,
                    j,
                ) || span_selected(12, amount, j) {
                    0x66u8
                } else {
                    ring_at(*old(report), j)
                }) by {
                    assert(jaw_a@[j] == span_selected(0, amount, j));
                    assert(jaw_b@[j] == span_selected(12, amount, j));
                }
            }
        } else {
            // idle tail of the cycle
            if dur == 22 {
                self.bites_left = self.bites_left - 1;
            }
        }

        AnimationEvent::Running
    }
}

impl LedAnimation for BiteAnimation {
    open spec fn inv(&self) -> bool {
        true
    }

    open spec fn ready_at(&self, ticks: u64) -> bool {
        ticks >= self.base_ticks
    }

    fn reset(&mut self, ticks: u64) {
        self.rearm(ticks);
    }

    fn update(&mut self, ticks: u64, report: &mut LedReport) -> (e: AnimationEvent) {
        self.step(ticks, report)
    }
}

/// Sum type for the game's state, besides the score.
#[derive(Debug, PartialEq)]
pub enum GameState {
    Idle {
        base_ticks: u64,
    },
    Ready {},
    Playing {
        mouse_position: i16,
        cheese_position: i16,
        cat_position: i16,
        cat_speed: i16,
    },
    GameOver {
        base_ticks: u64,
        animation: BiteAnimation,
    },
}

/// The cat-and-mouse game for the classic controller.
#[derive(Debug)]
pub struct CatMouse {
    /// how many pieces of cheese the mouse has eaten this round
    pub score: u16,
    /// the state the game is currently in
    pub state: GameState,
}

impl CatMouse {
    /// Whether the game is well formed: while playing, every position
    /// lies on the track and the cat's speed is one of its levels.
    pub open spec fn wf(&self) -> bool {
        match self.state {
            GameState::Playing { mouse_position, cheese_position, cat_position, cat_speed } => {
                &&& 0 <= mouse_position < 1024
                &&& 0 <= cheese_position < 1024
                &&& 0 <= cat_position < 1024
                &&& 1 <= cat_speed <= 7
            },
            _ => true,
        }
    }

    /// Whether the game may be updated at the given tick: no stored
    /// origin tick lies in the future.
    pub open spec fn ready_at(&self, ticks: u64) -> bool {
        match self.state {
            GameState::Idle { base_ticks } => ticks >= base_ticks,
            GameState::GameOver { base_ticks, animation } => ticks >= base_ticks && ticks
                >= animation.base_ticks,
            _ => true,
        }
    }
}

/// The full tick relation of the game: how one update call moves the
/// game state and the score, what it reads from the device queue, and
/// which reports it writes, for every state the game can be in.
pub open spec fn update_transition(
    pre: CatMouse,
    post: CatMouse,
    pending: Seq<Seq<u8>>,
    pending_post: Seq<Seq<u8>>,
    sent: Seq<Seq<u8>>,
    sent_post: Seq<Seq<u8>>,
    ticks: u64,
    ev: GameEvent,
) -> bool {
    match pre.state {
        GameState::Idle { base_ticks } => {
            let got = drained_state(pending);
            &&& pending_post.len() == 0
            &&& post.score == pre.score
            &&& if got matches Some(s) && (s.button_menu || s.button_1) {
                // ready to play: the ring is cleared, then the ambient
                // frame is still painted on top
                &&& ev == GameEvent::Running
                &&& post.state == (GameState::Ready {  })
                &&& sent_post == sent.push(default_led_bytes()).push(
                    idle_frame(base_ticks, ticks),
                )
            } else if got matches Some(s) && s.button_fuji {
                &&& ev == GameEvent::Ended
                &&& post.state == pre.state
                &&& sent_post == sent
            } else {
                &&& ev == GameEvent::Running
                &&& post.state == pre.state
                &&& sent_post == sent.push(idle_frame(base_ticks, ticks))
            }
        },
        GameState::Ready {  } => {
            let got = drained_state(pending);
            &&& pending_post.len() == 0
            &&& post.score == pre.score
            &&& sent_post == sent
            &&& match got {
                Some(s) => if s.button_fuji {
                    ev == GameEvent::Ended && post.state == pre.state
                } else {
                    // any input seeds the mouse and begins the chase
                    &&& ev == GameEvent::Running
                    &&& (post.state matches GameState::Playing {
                        mouse_position,
                        cheese_position,
                        cat_position,
                        cat_speed,
                    } && mouse_position == s.roll && cat_speed == 1 && 0 <= cheese_position < 1024
                        && (cheese_position == 0 || cheese_position - s.roll > 100 || s.roll
                        - cheese_position > 100) && 0 <= cat_position < 1024 && (cat_position == 0
                        || cat_position - s.roll > 400 || s.roll - cat_position > 400))
                },
                None => ev == GameEvent::Running && post.state == pre.state,
            }
        },
        GameState::Playing { mouse_position, cheese_position, cat_position, cat_speed } => {
            let got = drained_state(pending);
            &&& pending_post.len() == 0
            &&& if got matches Some(s) && s.button_fuji {
                &&& ev == GameEvent::Ended
                &&& post.state == pre.state
                &&& post.score == pre.score
                &&& sent_post == sent
            } else {
                let m2: int = match got {
                    Some(s) => s.roll as int,
                    None => mouse_position as int,
                };
                let c2: int = cat_after(m2, cat_position as int, cat_speed as int);
                if near(m2, c2) {
                    // caught by the cat
                    &&& ev == GameEvent::Running
                    &&& post.score == pre.score
                    &&& sent_post == sent.push(collision_cue())
                    &&& (post.state matches GameState::GameOver { base_ticks, animation }
                        && base_ticks == ticks && animation.base_ticks == ticks
                        && animation.bites_left == 4)
                } else if near(m2, cheese_position as int) {
                    // munched the cheese
                    &&& ev == GameEvent::Running
                    &&& post.score == pre.score + 1
                    &&& sent_post.len() == sent.len() + 2
                    &&& sent_post.subrange(0, sent.len() as int) == sent
                    &&& sent_post[sent.len() as int] == munch_cue()
                    &&& (post.state matches GameState::Playing {
                        mouse_position: m3,
                        cheese_position: ch3,
                        cat_position: ca3,
                        cat_speed: sp3,
                    } && m3 == m2 && ca3 == c2 && sp3 == speed_for_score(
                        (pre.score + 1) as u16,
                        cat_speed,
                    ) && 0 <= ch3 < 1024 && (ch3 == 0 || ch3 - m2 > 100 || m2 - ch3 > 100)
                        && sent_post.last() == chase_frame(m2, ch3 as int, c2, ticks))
                } else {
                    // an ordinary chase tick
                    &&& ev == GameEvent::Running
                    &&& post.score == pre.score
                    &&& sent_post == sent.push(
                        chase_frame(m2, cheese_position as int, c2, ticks),
                    )
                    &&& post.state == (GameState::Playing {
                        mouse_position: m2 as i16,
                        cheese_position,
                        cat_position: c2 as i16,
                        cat_speed,
                    })
                }
            }
        },
        GameState::GameOver { base_ticks, animation } => {
            &&& pending_post == pending
            &&& ev == GameEvent::Running
            &&& if ticks - base_ticks > 180 {
                // the wall-clock cap wins over the animation's own count
                &&& post.score == 0
                &&& post.state == (GameState::Idle { base_ticks: ticks })
                &&& sent_post == sent
            } else {
                &&& post.score == pre.score
                &&& sent_post == sent.push(bite_frame(animation, ticks))
                &&& (post.state matches GameState::GameOver { base_ticks: b2, animation: a2 } && b2
                    == base_ticks && a2.base_ticks == animation.base_ticks && a2.bites_left == (
                if animation.bites_left > 0 && ((ticks - animation.base_ticks) as u64) % 23 == 22 {
                    (animation.bites_left - 1) as u32
                } else {
                    animation.bites_left
                }))
            }
        },
    }
}

impl Default for CatMouse {
    /// A fresh game: score zero, idling from tick zero.
    fn default() -> (r: Self)
        ensures
            r.score == 0,
            r.state == (GameState::Idle { base_ticks: 0 }),
    {
        Self::new()
    }
}

impl CatMouse {
    /// A fresh game: score zero, idling from tick zero.
    pub fn new() -> (r: Self)
        ensures
            r.score == 0,
            r.state == (GameState::Idle { base_ticks: 0 }),
    {
        CatMouse { score: 0, state: GameState::Idle { base_ticks: 0 } }
    }

    /// Return to the idle state with the score cleared, rebasing the
    /// ambient animation at the given tick.
    pub fn reset(&mut self, ticks: u64)
        ensures
            final(self).score == 0,
            final(self).state == (GameState::Idle { base_ticks: ticks }),
    {
        self.score = 0;
        self.state = GameState::Idle { base_ticks: ticks };
    }

    /// Clear the ring and wait for the first stick motion.
    fn ready<D: Device>(&mut self, device: &mut D) -> (r: Result<(), DeviceError>)
        ensures
            final(self).score == old(self).score,
            final(device).pending() == old(device).pending(),
            final(device).reliable() == old(device).reliable(),
            old(device).reliable() ==> r is Ok,
            r is Ok ==> final(self).state == (GameState::Ready {  }) && final(device).sent()
                == old(device).sent().push(default_led_bytes()),
            r is Err ==> *final(self) == *old(self) && final(device).sent() == old(device).sent(),
    {
        let report = LedReport::new();
        match report.send(device) {
            Ok(_) => {
                self.state = GameState::Ready {  };
                Ok(())
            },
            Err(e) => Err(e),
        }
    }

    /// Seed the mouse from the paddle position and spawn the cheese far
    /// from it and the cat very far from it.
    fn start(&mut self, roll: u16)
        requires
            roll < 1024,
        ensures
            final(self).score == old(self).score,
            final(self).state matches GameState::Playing {
                mouse_position,
                cheese_position,
                cat_position,
                cat_speed,
            } && mouse_position == roll && cat_speed == 1 && 0 <= cheese_position < 1024 && (
            cheese_position == 0 || cheese_position - roll > 100 || roll - cheese_position > 100)
                && 0 <= cat_position < 1024 && (cat_position == 0 || cat_position - roll > 400
                || roll - cat_position > 400),
    {
        let mouse_position = roll as i16;
        let cheese_position = spawn_cheese(mouse_position);
        let cat_position = spawn_cat(mouse_position);

        self.state = GameState::Playing {
            mouse_position,
            cheese_position,
            cat_position,
            cat_speed: 1,
        };
    }

    /// Remember the moment of the catch and begin the bite animation.
    fn game_over(&mut self, ticks: u64)
        ensures
            final(self).score == old(self).score,
            final(self).state == (GameState::GameOver {
                base_ticks: ticks,
                animation: BiteAnimation { base_ticks: ticks, bites_left: 4 },
            }),
    {
        self.state = GameState::GameOver {
            base_ticks: ticks,
            animation: BiteAnimation::new(ticks),
        };
    }

    /// Cue a short munch vibration.
    fn ff_munch_cheese<D: Device>(device: &mut D) -> (r: Result<(), DeviceError>)
        ensures
            final(device).pending() == old(device).pending(),
            final(device).reliable() == old(device).reliable(),
            old(device).reliable() ==> r is Ok,
            r is Ok ==> final(device).sent() == old(device).sent().push(munch_cue()),
            r is Err ==> final(device).sent() == old(device).sent(),
    {
        FfReport::new_with_params(0xA4, 9, 12, 3).send(device)
    }

    /// Drive the game by one tick: drain the controller's input, move
    /// the state machine, and paint the LED ring accordingly.
    pub fn update<D: Device>(&mut self, device: &mut D, ticks: u64) -> (r: Result<
        GameEvent,
        DeviceError,
    >)
        requires
            old(self).wf(),
            old(self).ready_at(ticks),
            old(self).score < 0xFFFF,
        ensures
            final(self).wf(),
            forall|t: u64| t >= ticks ==> final(self).ready_at(t),
            final(device).reliable() == old(device).reliable(),
            old(device).reliable() ==> r is Ok,
            r matches Ok(ev) ==> update_transition(
                *old(self),
                *final(self),
                old(device).pending(),
                final(device).pending(),
                old(device).sent(),
                final(device).sent(),
                ticks,
                ev,
            ),
    {
        match &self.state {
            GameState::Idle { base_ticks } => {
                let bt: u64 = *base_ticks;
                let got = match process_input(device) {
                    Ok(g) => g,
                    Err(e) => {
                        return Err(e);
                    },
                };
                if let Some(st) = got {
                    if st.button_menu || st.button_1 {
                        match self.ready(device) {
                            Ok(_) => {},
                            Err(e) => {
                                return Err(e);
                            },
                        }
                    } else if st.button_fuji {
                        return Ok(GameEvent::Ended);
                    }
                }

                // ambient chase: a dot running over a pulsating trail
                let mouse: u8 = ((ticks - bt) / 10 % 24) as u8;
                let candidates: Vec<u8> = vec![0, 3, 6, 9, 12, 15, 18, 21];
                proof {
                    assert(candidates@ =~= seq![0u8, 3, 6, 9, 12, 15, 18, 21]);
                }
                let mut trail: Vec<u8> = Vec::new();
                let mut k: usize = 0;
                while k < candidates.len()
                    invariant
                        k <= 8,
                        candidates@ == seq![0u8, 3u8, 6u8, 9u8, 12u8, 15u8, 18u8, 21u8],
                        mouse < 24,
                        forall|j: int|
                            0 <= j < 24 ==> ((#[trigger] trail@.contains(j as u8)) <==> (j % 3 == 0
                                && j > mouse && j < 3 * k)),
                        forall|k2: int| 0 <= k2 < trail@.len() ==> trail@[k2] < 24,
                    decreases candidates@.len() - k,
                {
                    let cand = candidates[k];
                    proof {
                        assert(cand == 3 * k);
                    }
                    if cand > mouse {
                        let ghost pre_trail = trail@;
                        trail.push(cand);
                        proof {
                            assert forall|j: int| 0 <= j < 24 implies ((#[trigger] trail@.contains(
                                j as u8,
                            )) <==> (j % 3 == 0 && j > mouse && j < 3 * (k + 1))) by {
                                if trail@.contains(j as u8) {
                                    let w = choose|w: int|
                                        0 <= w < trail@.len() && trail@[w] == j as u8;
                                    if w < pre_trail.len() {
                                        assert(pre_trail[w] == j as u8);
                                        assert(pre_trail.contains(j as u8));
                                    }
                                }
                                if j % 3 == 0 && j > mouse && j < 3 * (k + 1) {
                                    if j < 3 * k {
                                        assert(pre_trail.contains(j as u8));
                                        let w = choose|w: int|
                                            0 <= w < pre_trail.len() && pre_trail[w] == j as u8;
                                        assert(trail@[w] == j as u8);
                                    } else {
                                        assert(j == 3 * k);
                                        assert(trail@.last() == j as u8);
                                    }
                                }
                            }
                        }
                    } else {
                        proof {
                            assert forall|j: int| 0 <= j < 24 implies ((#[trigger] trail@.contains(
                                j as u8,
                            )) <==> (j % 3 == 0 && j > mouse && j < 3 * (k + 1))) by {
                                if j % 3 == 0 && j > mouse && j < 3 * (k + 1) {
                                    assert(j != 3 * k);
                                    assert(j < 3 * k);
                                }
                            }
                        }
                    }
                    k = k + 1;
                }
                let mut led = LedReport::new();
                let trail_selection = LedSelection::range(&trail);
                let animation = Pulsate::new_with_params(trail_selection, 8, 0x1C, 0x60);
                animation.paint(ticks, &mut led);
                let ghost mid = led;
                led.set(mouse, 0xFF);
                proof {
                    let frame = idle_frame(bt, ticks);
                    assert(mouse as int == idle_dot(bt, ticks));
                    assert forall|i: int| 0 <= i < 28 implies led@[i] == frame[i] by {
                        if 3 <= i && i < 27 {
                            assert(animation.selection@[i - 3] == trail@.contains((i - 3) as u8));
                            assert(ring_at(mid, i - 3) == (if animation.selection@[i - 3] {
                                pulsate_value(0x1C, 0x60, 8, ticks)
                            } else {
                                default_led_bytes()[i]
                            }));
                        }
                    }
                    assert(led@ =~= idle_frame(bt, ticks));
                }
                match led.send(device) {
                    Ok(_) => {
                        proof {
                            if got matches Some(s) && (s.button_menu || s.button_1) {
                                let s0 = old(device).sent();
                                assert(device.sent() == s0.push(default_led_bytes()).push(led@));
                            }
                        }
                        Ok(GameEvent::Running)
                    },
                    Err(e) => Err(e),
                }
            },
            GameState::Ready {  } => {
                let got = match process_input(device) {
                    Ok(g) => g,
                    Err(e) => {
                        return Err(e);
                    },
                };
                if let Some(st) = got {
                    if st.button_fuji {
                        return Ok(GameEvent::Ended);
                    }
                    self.start(st.roll);
                }
                Ok(GameEvent::Running)
            },
            GameState::Playing { mouse_position, cheese_position, cat_position, cat_speed } => {
                let mut mouse: i16 = *mouse_position;
                let mut cheese: i16 = *cheese_position;
                let cat: i16 = *cat_position;
                let mut speed: i16 = *cat_speed;

                let got = match process_input(device) {
                    Ok(g) => g,
                    Err(e) => {
                        return Err(e);
                    },
                };
                if let Some(st) = got {
                    if st.button_fuji {
                        return Ok(GameEvent::Ended);
                    }
                    mouse = st.roll as i16;
                }

                // update the cat's position toward the mouse
                let cat2 = step_cat(mouse, cat, speed);

                // check collision with the cat
                let cat_diff = if mouse >= cat2 {
                    mouse - cat2
                } else {
                    cat2 - mouse
                };
                if cat_diff <= 16 {
                    match FfReport::new_with_params(0xF8, 28, 26, 4).send(device) {
                        Ok(_) => {},
                        Err(e) => {
                            return Err(e);
                        },
                    }
                    // game over
                    self.game_over(ticks);
                    return Ok(GameEvent::Running);
                }

                // check collision with the cheese
                let cheese_diff = if mouse >= cheese {
                    mouse - cheese
                } else {
                    cheese - mouse
                };
                if cheese_diff <= 16 {
                    // increase the score
                    self.score = self.score + 1;
                    // a new position for the cheese
                    match Self::ff_munch_cheese(device) {
                        Ok(_) => {},
                        Err(e) => {
                            return Err(e);
                        },
                    }
                    cheese = spawn_cheese(mouse);
                    // make the cat faster
                    match self.score {
                        10 => speed = 2,
                        20 => speed = 3,
                        30 => speed = 4,
                        50 => speed = 5,
                        70 => speed = 6,
                        100 => speed = 7,
                        _ => {
                            // the speed is kept
                        },
                    }
                }

                self.state = GameState::Playing {
                    mouse_position: mouse,
                    cheese_position: cheese,
                    cat_position: cat2,
                    cat_speed: speed,
                };

                // update the LEDs
                let mut led = LedReport::new();

                // mouse: high intensity pulsating LED
                let mouse_anim = Pulsate::new_with_params(
                    LedSelection::single(position_to_led(mouse)),
                    12,
                    0xCF,
                    0xFF,
                );
                mouse_anim.paint(ticks, &mut led);
                let ghost mid1 = led;

                // cheese: pulsating LED
                let cheese_anim = Pulsate::new_with_params(
                    LedSelection::single(position_to_led(cheese)),
                    7,
                    0x1C,
                    0x66,
                );
                cheese_anim.paint(ticks, &mut led);
                let ghost mid2 = led;

                // cat: low intensity LED
                led.set(position_to_led(cat2), 0x46);
                proof {
                    let frame = chase_frame(mouse as int, cheese as int, cat2 as int, ticks);
                    assert forall|i: int| 0 <= i < 28 implies led@[i] == frame[i] by {
                        if 3 <= i && i < 27 {
                            assert(ring_at(mid1, i - 3) == (if i - 3 == led_of_position(
                                mouse as int,
                            ) {
                                pulsate_value(0xCF, 0xFF, 12, ticks)
                            } else {
                                default_led_bytes()[i]
                            }));
                            assert(ring_at(mid2, i - 3) == (if i - 3 == led_of_position(
                                cheese as int,
                            ) {
                                pulsate_value(0x1C, 0x66, 7, ticks)
                            } else {
                                ring_at(mid1, i - 3)
                            }));
                            assert(ring_at(led, i - 3) == (if i - 3 == led_of_position(
                                cat2 as int,
                            ) {
                                0x46u8
                            } else {
                                ring_at(mid2, i - 3)
                            }));
                        }
                    }
                    assert(led@ =~= chase_frame(mouse as int, cheese as int, cat2 as int, ticks));
                }

                match led.send(device) {
                    Ok(_) => {
                        proof {
                            let s0 = old(device).sent();
                            if device.sent().len() == s0.len() + 2 {
                                assert(device.sent().subrange(0, s0.len() as int) =~= s0);
                            }
                        }
                        Ok(GameEvent::Running)
                    },
                    Err(e) => Err(e),
                }
            },
            GameState::GameOver { base_ticks, animation } => {
                let bt: u64 = *base_ticks;
                if ticks - bt > 180 {
                    self.reset(ticks);
                    return Ok(GameEvent::Running);
                }

                let mut led = LedReport::new();
                let mut anim: BiteAnimation = *animation;
                let ghost a0 = anim;
                let _ = anim.step(ticks, &mut led);
                proof {
                    let dur = ((ticks - a0.base_ticks) as u64) % 23;
                    assert forall|i: int| 0 <= i < 28 implies led@[i] == bite_frame(a0, ticks)[i] by {
                        if 3 <= i && i < 27 {
                            assert(ring_at(led, i - 3) == led@[i]);
                        }
                    }
                    assert(led@ =~= bite_frame(a0, ticks));
                }
                self.state = GameState::GameOver { base_ticks: bt, animation: anim };
                match led.send(device) {
                    Ok(_) => Ok(GameEvent::Running),
                    Err(e) => Err(e),
                }
            },
        }
    }
}

} // verus!
