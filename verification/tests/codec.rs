//! Tests for the input report codec.

use vcs_classic_hid::input::DecodeError;
use vcs_classic_hid::input::State;
use vcs_classic_hid::input::StickPosition;
use vcs_classic_hid::input::decode_input;
use vcs_classic_hid::input::encode_input;
use vcs_classic_hid::input::msg_to_state;

#[test]
fn decode_golden_vector() {
    // both triggers down, all three menu-row buttons down, stick down,
    // roll at 677
    let msg = [1u8, 0x03, 0x57, 0xA5, 0x02];
    let s = decode_input(&msg).unwrap();
    assert!(s.button_1);
    assert!(s.button_2);
    assert!(s.button_back);
    assert!(s.button_menu);
    assert!(s.button_fuji);
    assert_eq!(s.stick_position, StickPosition::Down);
    assert_eq!(s.roll, 677);
}

#[test]
fn decode_all_clear() {
    let msg = [1u8, 0, 0, 0, 0];
    let s = decode_input(&msg).unwrap();
    assert!(!s.button_1 && !s.button_2 && !s.button_back && !s.button_menu && !s.button_fuji);
    assert_eq!(s.stick_position, StickPosition::Center);
    assert_eq!(s.roll, 0);
}

#[test]
fn decode_masks_roll_to_ten_bits() {
    let msg = [1u8, 0, 0, 0xFF, 0xFF];
    let s = decode_input(&msg).unwrap();
    assert_eq!(s.roll, 0x3FF);
}

#[test]
fn decode_out_of_range_stick_is_center() {
    for nibble in 9u8..=15 {
        let msg = [1u8, 0, nibble << 4, 0, 0];
        let s = decode_input(&msg).unwrap();
        assert_eq!(s.stick_position, StickPosition::Center);
    }
}

#[test]
fn decode_rejects_wrong_length() {
    assert_eq!(decode_input(&[1u8, 2, 3]), Err(DecodeError::UnexpectedLength));
    assert_eq!(
        decode_input(&[1u8, 0, 0, 0, 0, 0]),
        Err(DecodeError::UnexpectedLength)
    );
}

#[test]
fn decode_rejects_wrong_report_id() {
    assert_eq!(
        decode_input(&[2u8, 0, 0, 0, 0]),
        Err(DecodeError::UnexpectedReportId)
    );
}

#[test]
fn msg_to_state_skips_the_prefix_byte() {
    // the prefix byte is not interpreted by the raw message decoder
    let s = msg_to_state(&[0x7Fu8, 0x01, 0x30, 0x10, 0x00]);
    assert!(s.button_1);
    assert_eq!(s.stick_position, StickPosition::Right);
    assert_eq!(s.roll, 16);
}

#[test]
fn encode_golden_vector() {
    let s = State {
        stick_position: StickPosition::UpLeft,
        button_1: true,
        button_2: false,
        button_back: false,
        button_menu: true,
        button_fuji: false,
        roll: 0x2A5,
    };
    let bytes = encode_input(&s);
    assert_eq!(bytes, vec![1u8, 0x01, 0x82, 0xA5, 0x02]);
}

#[test]
fn encode_then_decode_recovers_the_state() {
    let states = [
        State {
            stick_position: StickPosition::Center,
            button_1: false,
            button_2: false,
            button_back: false,
            button_menu: false,
            button_fuji: false,
            roll: 0,
        },
        State {
            stick_position: StickPosition::DownLeft,
            button_1: true,
            button_2: true,
            button_back: false,
            button_menu: false,
            button_fuji: true,
            roll: 1023,
        },
        State {
            stick_position: StickPosition::Up,
            button_1: false,
            button_2: true,
            button_back: true,
            button_menu: false,
            button_fuji: false,
            roll: 512,
        },
    ];
    for s in states {
        let bytes = encode_input(&s);
        let back = decode_input(&bytes).unwrap();
        assert_eq!(back, s);
    }
}

#[test]
fn stick_codes_map_bijectively() {
    for code in 0u8..=8 {
        let p = StickPosition::from_u8(code).unwrap();
        assert_eq!(p.to_u8(), code);
    }
    for code in 9u8..=255 {
        assert_eq!(StickPosition::from_u8(code), None);
    }
}

#[test]
fn stick_default_is_center() {
    assert_eq!(StickPosition::new(), StickPosition::Center);
    assert_eq!(StickPosition::default(), StickPosition::Center);
}
