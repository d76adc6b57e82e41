//! Tests for LED selections, LED reports and force feedback reports.

use vcs_classic_hid::led::LedReport;
use vcs_classic_hid::led::LedSelection;
use vcs_classic_hid::led::Quadrant;
use vcs_classic_hid::force_feedback::FfReport;

#[test]
fn span_wraps_in_both_directions() {
    // the literal check: a radius-3 span around position 0
    let sel = LedSelection::span(0, 3);
    let expected = [21u8, 22, 23, 0, 1, 2];
    for i in 0u8..24 {
        assert_eq!(sel.get(i), expected.contains(&i), "LED {}", i);
    }
}

#[test]
fn span_with_zero_radius_is_empty() {
    let sel = LedSelection::span(5, 0);
    for i in 0u8..24 {
        assert!(!sel.get(i));
    }
}

#[test]
fn span_with_large_radius_covers_the_ring() {
    let sel = LedSelection::span(7, 12);
    for i in 0u8..24 {
        assert!(sel.get(i));
    }
}

#[test]
fn quadrants_share_their_seam_leds() {
    let q0 = LedSelection::quadrant(0);
    let q1 = LedSelection::quadrant(1);
    let q2 = LedSelection::quadrant(2);
    let q3 = LedSelection::quadrant(3);
    for i in 0u8..24 {
        assert_eq!(q0.get(i), i <= 6, "LED {}", i);
        assert_eq!(q1.get(i), (6..=12).contains(&i), "LED {}", i);
        assert_eq!(q2.get(i), (12..=18).contains(&i), "LED {}", i);
        assert_eq!(q3.get(i), (18..=23).contains(&i) || i == 0, "LED {}", i);
    }
    // the union of all quadrants covers the ring without a gap
    let all = q0.or(q1).or(q2).or(q3);
    for i in 0u8..24 {
        assert!(all.get(i));
    }
}

#[test]
fn arc_runs_clockwise_and_wraps() {
    let sel = LedSelection::arc(21, 7);
    let expected = [21u8, 22, 23, 0, 1, 2, 3];
    for i in 0u8..24 {
        assert_eq!(sel.get(i), expected.contains(&i), "LED {}", i);
    }
}

#[test]
fn single_and_range_and_or() {
    let a = LedSelection::single(4);
    let b = LedSelection::range(&vec![1u8, 2, 23]);
    let u = a.clone().or(b);
    for i in 0u8..24 {
        assert_eq!(u.get(i), i == 4 || i == 1 || i == 2 || i == 23);
    }
    assert!(a.get(4) && !a.get(5));
}

#[test]
fn all_and_none_selections() {
    let all = LedSelection::all();
    let none = LedSelection::none();
    for i in 0u8..24 {
        assert!(all.get(i));
        assert!(!none.get(i));
        assert!(!LedSelection::new().get(i));
        assert!(!LedSelection::default().get(i));
    }
}

#[test]
fn quadrant_from_u8_covers_the_four() {
    assert_eq!(Quadrant::from_u8(0), Some(Quadrant::BottomLeft));
    assert_eq!(Quadrant::from_u8(1), Some(Quadrant::TopLeft));
    assert_eq!(Quadrant::from_u8(2), Some(Quadrant::TopRight));
    assert_eq!(Quadrant::from_u8(3), Some(Quadrant::BottomRight));
    assert_eq!(Quadrant::from_u8(4), None);
}

#[test]
fn default_report_clears_the_ring() {
    let report = LedReport::new();
    let bytes = report.bytes();
    assert_eq!(bytes.len(), 28);
    assert_eq!(bytes[0], 2);
    assert_eq!(bytes[1], 25);
    for b in bytes.iter().skip(2) {
        assert_eq!(*b, 0);
    }
    assert_eq!(LedReport::default(), report);
}

#[test]
fn filled_report_sets_the_ring_but_not_the_fuji() {
    let report = LedReport::filled(0xAB);
    for i in 0u8..24 {
        assert_eq!(report.get(i), 0xAB);
    }
    assert_eq!(report.get_fuji(), 0);
    assert_eq!(report.bytes()[27], 0xAB);
}

#[test]
fn set_and_fill_and_clear() {
    let mut report = LedReport::new();
    report.set(7, 0x99);
    assert_eq!(report.get(7), 0x99);
    assert_eq!(report.get(8), 0);
    report.fill(0x11);
    for i in 0u8..24 {
        assert_eq!(report.get(i), 0x11);
    }
    report.clear();
    for i in 0u8..24 {
        assert_eq!(report.get(i), 0);
    }
    report.set_fuji(0x40);
    assert_eq!(report.get_fuji(), 0x40);
}

#[test]
fn set_selection_only_touches_selected_leds() {
    let mut report = LedReport::filled(5);
    report.set_selection(&LedSelection::span(0, 3), 0xEE);
    for i in 0u8..24 {
        let in_span = [21u8, 22, 23, 0, 1, 2].contains(&i);
        assert_eq!(report.get(i), if in_span { 0xEE } else { 5 });
    }
}

#[test]
fn invert_flips_bitwise() {
    let mut report = LedReport::filled(0x0F);
    report.invert(3);
    assert_eq!(report.get(3), 0xF0);
    assert_eq!(report.get(4), 0x0F);
    report.invert_selection(&LedSelection::single(4));
    assert_eq!(report.get(4), 0xF0);
    assert_eq!(report.get(5), 0x0F);
}

#[test]
fn saturating_add_clamps_both_ways() {
    let mut report = LedReport::filled(100);
    report.saturating_add(0, 200);
    assert_eq!(report.get(0), 255);
    report.saturating_add(1, -120);
    assert_eq!(report.get(1), 0);
    report.saturating_add(2, 55);
    assert_eq!(report.get(2), 155);
    report.saturating_add_selection(&LedSelection::range(&vec![3u8, 4]), -98);
    assert_eq!(report.get(3), 2);
    assert_eq!(report.get(4), 2);
    assert_eq!(report.get(5), 100);
}

#[test]
fn force_feedback_report_bytes() {
    assert_eq!(FfReport::new().bytes(), &vec![1u8, 0, 0, 0, 0, 0]);
    assert_eq!(FfReport::default().bytes(), &vec![1u8, 0, 0, 0, 0, 0]);
    assert_eq!(
        FfReport::new_with_params(0xCC, 0xBB, 0, 1).bytes(),
        &vec![1u8, 0xCC, 0xBB, 0, 1, 0]
    );
}
