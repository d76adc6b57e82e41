//! Scenario tests for the two game state machines, driven through the
//! simulated device.

use vcs_classic_hid::SimulatedDevice;
use vcs_classic_hid::cat_mouse;
use vcs_classic_hid::cat_mouse::BiteAnimation;
use vcs_classic_hid::cat_mouse::CatMouse;
use vcs_classic_hid::process_input;
use vcs_classic_hid::simon;
use vcs_classic_hid::simon::Choice;
use vcs_classic_hid::simon::Simon;

fn fresh_device() -> SimulatedDevice {
    let mut sim = SimulatedDevice::new();
    let _ = process_input(&mut sim);
    sim
}

#[test]
fn simon_menu_press_starts_a_two_element_round() {
    let mut sim = fresh_device();
    let mut game = Simon::new();

    sim.set_button_menu(true);
    game.update(&mut sim, 0).unwrap();
    assert!(matches!(game.state, simon::GameState::Preparing { base_tick: 0 }));

    sim.set_button_menu(false);
    let _ = process_input(&mut sim);
    for ticks in 1u64..=30 {
        game.update(&mut sim, ticks).unwrap();
        assert!(matches!(game.state, simon::GameState::Preparing { .. }), "tick {}", ticks);
    }
    game.update(&mut sim, 31).unwrap();
    assert!(matches!(game.state, simon::GameState::Showing { index: 0, .. }));
    assert_eq!(game.sequence.len(), 2);
}

#[test]
fn simon_showing_flashes_a_seven_led_arc() {
    let mut sim = fresh_device();
    let mut game = Simon::new();
    sim.set_button_menu(true);
    game.update(&mut sim, 0).unwrap();
    sim.set_button_menu(false);
    let _ = process_input(&mut sim);
    for ticks in 1u64..=31 {
        game.update(&mut sim, ticks).unwrap();
    }
    assert!(matches!(game.state, simon::GameState::Showing { index: 0, .. }));

    // one tick into the attack, the arc of the first choice glows at the
    // first step of the rising ramp
    game.update(&mut sim, 32).unwrap();
    let lit: Vec<u8> = sim.leds().iter().copied().filter(|v| *v > 0).collect();
    assert_eq!(lit.len(), 7);
    for v in lit {
        assert_eq!(v, (255u64 / 5) as u8);
    }
}

#[test]
fn simon_fuji_ends_the_session() {
    let mut sim = fresh_device();
    let mut game = Simon::new();
    sim.set_button_fuji(true);
    let ev = game.update(&mut sim, 0).unwrap();
    assert_eq!(ev, simon::GameEvent::Ended);
}

#[test]
fn simon_wrong_direction_ends_on_stick_release() {
    let mut sim = fresh_device();
    let mut game = Simon {
        sequence: vec![Choice::Up],
        state: simon::GameState::Playing { index: 0, pushed: None },
    };

    // push a wrong direction: it is only recorded
    sim.move_stick(5);
    game.update(&mut sim, 10).unwrap();
    assert!(matches!(
        game.state,
        simon::GameState::Playing { index: 0, pushed: Some(Choice::Down) }
    ));

    // holding it keeps the game playing
    sim.move_stick(5);
    game.update(&mut sim, 11).unwrap();
    assert!(matches!(game.state, simon::GameState::Playing { .. }));

    // the release back to center applies the wrong choice: game over,
    // exactly on this tick
    sim.move_stick(0);
    game.update(&mut sim, 12).unwrap();
    assert!(matches!(game.state, simon::GameState::GameOver { base_tick: 12, .. }));
}

#[test]
fn simon_full_traversal_grows_the_sequence() {
    let mut sim = fresh_device();
    let mut game = Simon {
        sequence: vec![Choice::Up, Choice::Right],
        state: simon::GameState::Playing { index: 0, pushed: None },
    };

    sim.move_stick(1);
    game.update(&mut sim, 0).unwrap();
    sim.move_stick(0);
    game.update(&mut sim, 1).unwrap();
    assert!(matches!(
        game.state,
        simon::GameState::Playing { index: 1, pushed: None }
    ));

    sim.move_stick(3);
    game.update(&mut sim, 2).unwrap();
    sim.move_stick(0);
    game.update(&mut sim, 3).unwrap();

    // next level: the sequence grew by one and is shown from the start
    assert!(matches!(game.state, simon::GameState::Showing { index: 0, .. }));
    assert_eq!(game.sequence.len(), 3);
    assert_eq!(game.sequence[0], Choice::Up);
    assert_eq!(game.sequence[1], Choice::Right);
}

#[test]
fn simon_game_over_times_out_to_idle() {
    let mut sim = fresh_device();
    let mut game = Simon {
        sequence: vec![Choice::Left],
        state: simon::GameState::Playing { index: 0, pushed: Some(Choice::Up) },
    };
    sim.move_stick(0);
    game.update(&mut sim, 100).unwrap();
    assert!(matches!(game.state, simon::GameState::GameOver { base_tick: 100, .. }));

    for ticks in 101u64..=260 {
        game.update(&mut sim, ticks).unwrap();
        assert!(matches!(game.state, simon::GameState::GameOver { .. }), "tick {}", ticks);
    }
    game.update(&mut sim, 261).unwrap();
    assert!(matches!(game.state, simon::GameState::Idle { base_tick: 261 }));
    assert_eq!(game.sequence.len(), 0);
}

#[test]
fn cat_mouse_collision_triggers_game_over() {
    for cat in [484i16, 516] {
        let mut sim = fresh_device();
        sim.set_roll(500);
        let mut game = CatMouse {
            score: 3,
            state: cat_mouse::GameState::Playing {
                mouse_position: 500,
                cheese_position: 0,
                cat_position: cat,
                cat_speed: 1,
            },
        };
        game.update(&mut sim, 40).unwrap();
        assert!(
            matches!(game.state, cat_mouse::GameState::GameOver { base_ticks: 40, .. }),
            "cat at {}",
            cat
        );
        // the score survives until the game-over animation has played out
        assert_eq!(game.score, 3);
    }
}

#[test]
fn cat_mouse_near_miss_keeps_playing() {
    let mut sim = fresh_device();
    sim.set_roll(500);
    let mut game = CatMouse {
        score: 0,
        state: cat_mouse::GameState::Playing {
            mouse_position: 500,
            cheese_position: 0,
            cat_position: 518,
            cat_speed: 1,
        },
    };
    game.update(&mut sim, 40).unwrap();
    // the cat stepped to 517: seventeen units away, one too many to bite
    assert!(matches!(
        game.state,
        cat_mouse::GameState::Playing { cat_position: 517, .. }
    ));
}

#[test]
fn cat_mouse_score_thresholds_set_the_speed() {
    for (score_before, speed_before, expected) in [
        (9u16, 1i16, 2i16),
        (19, 2, 3),
        (29, 3, 4),
        (49, 4, 5),
        (69, 5, 6),
        (99, 6, 7),
        (4, 1, 1),
        (10, 2, 2),
        (41, 3, 3),
    ] {
        let mut sim = fresh_device();
        sim.set_roll(500);
        let mut game = CatMouse {
            score: score_before,
            state: cat_mouse::GameState::Playing {
                mouse_position: 500,
                cheese_position: 500,
                cat_position: 100,
                cat_speed: speed_before,
            },
        };
        game.update(&mut sim, 7).unwrap();
        assert_eq!(game.score, score_before + 1);
        match game.state {
            cat_mouse::GameState::Playing { cat_speed, .. } => {
                assert_eq!(cat_speed, expected, "score {}", score_before + 1);
            }
            _ => panic!("expected the game to keep playing"),
        }
    }
}

#[test]
fn cat_mouse_ready_seeds_the_chase_from_the_roll() {
    let mut sim = fresh_device();
    sim.set_roll(500);
    let mut game = CatMouse { score: 0, state: cat_mouse::GameState::Ready {} };
    game.update(&mut sim, 0).unwrap();
    match game.state {
        cat_mouse::GameState::Playing {
            mouse_position,
            cheese_position,
            cat_position,
            cat_speed,
        } => {
            assert_eq!(mouse_position, 500);
            assert_eq!(cat_speed, 1);
            assert!((0..1024).contains(&cheese_position));
            assert!((0..1024).contains(&cat_position));
            // the spawns are rejection-sampled away from the mouse
            assert!(cheese_position == 0 || (cheese_position - 500i16).abs() > 100);
            assert!(cat_position == 0 || (cat_position - 500i16).abs() > 400);
        }
        _ => panic!("expected the chase to begin"),
    }
}

#[test]
fn cat_mouse_menu_press_gets_ready() {
    let mut sim = fresh_device();
    let mut game = CatMouse::new();
    sim.set_button_1(true);
    game.update(&mut sim, 0).unwrap();
    assert!(matches!(game.state, cat_mouse::GameState::Ready {}));
}

#[test]
fn cat_mouse_fuji_ends_the_session() {
    let mut sim = fresh_device();
    let mut game = CatMouse::new();
    sim.set_button_fuji(true);
    let ev = game.update(&mut sim, 0).unwrap();
    assert_eq!(ev, cat_mouse::GameEvent::Ended);
}

#[test]
fn cat_mouse_game_over_times_out_and_resets() {
    let mut sim = fresh_device();
    let mut game = CatMouse {
        score: 12,
        state: cat_mouse::GameState::GameOver {
            base_ticks: 0,
            animation: BiteAnimation::new(0),
        },
    };
    for ticks in 0u64..=180 {
        game.update(&mut sim, ticks).unwrap();
        assert!(matches!(game.state, cat_mouse::GameState::GameOver { .. }), "tick {}", ticks);
    }
    game.update(&mut sim, 181).unwrap();
    assert!(matches!(game.state, cat_mouse::GameState::Idle { base_ticks: 181 }));
    assert_eq!(game.score, 0);
}

#[test]
fn cat_mouse_mouse_follows_the_paddle() {
    let mut sim = fresh_device();
    let mut game = CatMouse {
        score: 0,
        state: cat_mouse::GameState::Playing {
            mouse_position: 100,
            cheese_position: 700,
            cat_position: 400,
            cat_speed: 1,
        },
    };
    sim.set_roll(900);
    game.update(&mut sim, 5).unwrap();
    match game.state {
        cat_mouse::GameState::Playing { mouse_position, cat_position, .. } => {
            assert_eq!(mouse_position, 900);
            // the cat walks the shorter arc toward the new mouse position
            assert_eq!(cat_position, 401);
        }
        _ => panic!("expected the game to keep playing"),
    }
}
