//! Tests for the LED animations.

use vcs_classic_hid::anims::Asr;
use vcs_classic_hid::anims::OneWayPulsate;
use vcs_classic_hid::anims::Pulsate;
use vcs_classic_hid::anims::RotatingLed;
use vcs_classic_hid::cat_mouse::BiteAnimation;
use vcs_classic_hid::led::AnimationEvent;
use vcs_classic_hid::led::LedReport;
use vcs_classic_hid::led::LedSelection;

fn pulsate_intensity_at(anim: &Pulsate, ticks: u64) -> u8 {
    let mut report = LedReport::new();
    anim.paint(ticks, &mut report);
    report.get(0)
}

#[test]
fn pulsate_rises_from_the_minimum() {
    let anim = Pulsate::new_with_params(LedSelection::all(), 128, 0, 255);
    assert_eq!(pulsate_intensity_at(&anim, 0), 0);
    assert!(pulsate_intensity_at(&anim, 1) > pulsate_intensity_at(&anim, 0));
    assert!(pulsate_intensity_at(&anim, 100) > pulsate_intensity_at(&anim, 50));
}

#[test]
fn pulsate_peaks_at_the_period_boundary() {
    let anim = Pulsate::new_with_params(LedSelection::all(), 128, 0, 255);
    assert_eq!(pulsate_intensity_at(&anim, 128), 255);
}

#[test]
fn pulsate_falls_in_the_second_half_of_the_cycle() {
    let anim = Pulsate::new_with_params(LedSelection::all(), 128, 0, 255);
    let v192 = pulsate_intensity_at(&anim, 192);
    let v200 = pulsate_intensity_at(&anim, 200);
    assert!(v192 < 255);
    assert!(v200 < v192);
    // and the next cycle rises again
    assert_eq!(pulsate_intensity_at(&anim, 256), 0);
}

#[test]
fn pulsate_defaults() {
    let anim = Pulsate::new();
    assert_eq!(anim, Pulsate::default());
    assert_eq!(anim, Pulsate::new_with_selection(LedSelection::all()));
}

#[test]
fn one_way_pulsate_is_a_sawtooth() {
    let anim = OneWayPulsate::new_with_params(LedSelection::all(), 128, 0, 255);
    let at = |ticks: u64| {
        let mut report = LedReport::new();
        anim.paint(ticks, &mut report);
        report.get(5)
    };
    assert_eq!(at(0), 0);
    assert_eq!(at(64), 127);
    assert_eq!(at(127), 253);
    // the ramp snaps back at the period boundary
    assert_eq!(at(128), 0);
}

#[test]
fn one_way_pulsate_respects_bounds() {
    let anim = OneWayPulsate::new_with_params(LedSelection::all(), 10, 40, 50);
    let mut report = LedReport::new();
    anim.paint(3, &mut report);
    assert_eq!(report.get(0), 43);
    assert_eq!(OneWayPulsate::new(), OneWayPulsate::default());
}

#[test]
fn asr_runs_and_ends_on_schedule() {
    let anim = Asr::new_with_params(LedSelection::all(), 0xFF, 5, 30, 8);
    for ticks in 0u64..=42 {
        let mut report = LedReport::new();
        assert_eq!(anim.step(ticks, &mut report), AnimationEvent::Running, "tick {}", ticks);
    }
    let mut report = LedReport::filled(0x33);
    assert_eq!(anim.step(43, &mut report), AnimationEvent::Ended);
    // once ended, the selection is forced off
    for i in 0u8..24 {
        assert_eq!(report.get(i), 0);
    }
}

#[test]
fn asr_phases_follow_the_envelope() {
    let anim = Asr::new_with_params(LedSelection::all(), 0xFF, 5, 30, 8);
    let at = |ticks: u64| {
        let mut report = LedReport::new();
        anim.step(ticks, &mut report);
        report.get(0)
    };
    // attack: a linear rise toward full intensity
    assert_eq!(at(0), 0);
    assert_eq!(at(2), 102);
    assert_eq!(at(4), 204);
    // sustain: held at full intensity
    assert_eq!(at(5), 255);
    assert_eq!(at(34), 255);
    // release: the bitwise complement of a rising ramp
    assert_eq!(at(37), !((2u64 * 255 / 8) as u8));
    assert_eq!(at(42), !((7u64 * 255 / 8) as u8));
}

#[test]
fn asr_rearm_rebases_the_origin() {
    let mut anim = Asr::new_with_selection(LedSelection::all(), 0xFF);
    anim.rearm(1000);
    let mut report = LedReport::new();
    // at its new origin the envelope is back at the start of the attack
    assert_eq!(anim.step(1000, &mut report), AnimationEvent::Running);
    assert_eq!(report.get(0), 0);
}

#[test]
fn rotating_led_walks_the_ring() {
    let anim = RotatingLed;
    let mut report = LedReport::new();
    anim.paint(40, &mut report);
    for i in 0u8..24 {
        assert_eq!(report.get(i), if i == 2 { 0xFF } else { 0 });
    }
    let mut report2 = LedReport::new();
    anim.paint(20 * 24, &mut report2);
    assert_eq!(report2.get(0), 0xFF);
}

#[test]
fn bite_animation_crushes_and_counts_down() {
    let mut anim = BiteAnimation::new(0);
    assert_eq!(anim.bites_left, 4);

    // the held-crushed phase lights the whole ring
    let mut report = LedReport::new();
    assert_eq!(anim.step(9, &mut report), AnimationEvent::Running);
    for i in 0u8..24 {
        assert_eq!(report.get(i), 0x66);
    }

    // at the start of a closing phase the jaws have no width yet
    let mut report2 = LedReport::new();
    anim.step(23, &mut report2);
    for i in 0u8..24 {
        assert_eq!(report2.get(i), 0);
    }
}

#[test]
fn bite_animation_ends_after_its_bites() {
    let mut anim = BiteAnimation::new(0);
    let mut report = LedReport::new();
    for ticks in 0u64..=91 {
        assert_eq!(anim.step(ticks, &mut report), AnimationEvent::Running, "tick {}", ticks);
    }
    assert_eq!(anim.bites_left, 0);
    let mut untouched = LedReport::filled(0x77);
    assert_eq!(anim.step(92, &mut untouched), AnimationEvent::Ended);
    // an ended animation leaves the report alone
    for i in 0u8..24 {
        assert_eq!(untouched.get(i), 0x77);
    }
}
