use hid_passthrough::hid::{keyboard_report, mouse_report, u16_to_u8s};
use hid_passthrough::keyboard::KeyboardState;
use hid_passthrough::keymap::{KeyCodeModifier, KeyTarget, UsbKeyCode};
use hid_passthrough::mouse::MouseRaw;

/// Reads a mouse report back, independently of the library.
fn decode_report(r: &[u8; 8]) -> MouseRaw {
    MouseRaw {
        left_button: r[1] & 1 != 0,
        right_button: r[1] & 2 != 0,
        middle_button: r[1] & 4 != 0,
        four_button: r[1] & 8 != 0,
        five_button: r[1] & 16 != 0,
        relative_x: i16::from_le_bytes([r[2], r[3]]),
        relative_y: i16::from_le_bytes([r[4], r[5]]),
        relative_wheel: i16::from_le_bytes([r[6], r[7]]),
    }
}

fn press(state: &mut KeyboardState, key: UsbKeyCode) {
    state.apply(KeyTarget::Key(key), true);
}

#[test]
fn u16_bytes_low_first() {
    assert_eq!(u16_to_u8s(0x1234), [0x34, 0x12]);
    assert_eq!(u16_to_u8s(0), [0, 0]);
    assert_eq!(u16_to_u8s(0xffff), [0xff, 0xff]);
}

#[test]
fn mouse_report_round_trip() {
    let ev = MouseRaw { left_button: true, relative_x: 25, ..MouseRaw::default() };
    let r = mouse_report(&ev);
    assert_eq!(r, [1, 0x01, 25, 0, 0, 0, 0, 0]);
    assert_eq!(decode_report(&r), ev);
}

#[test]
fn mouse_report_negative_and_all_buttons() {
    let ev = MouseRaw {
        left_button: true,
        right_button: true,
        middle_button: true,
        four_button: true,
        five_button: true,
        relative_x: -1,
        relative_y: i16::MIN,
        relative_wheel: 300,
    };
    let r = mouse_report(&ev);
    assert_eq!(r, [1, 0x1f, 0xff, 0xff, 0x00, 0x80, 0x2c, 0x01]);
    assert_eq!(decode_report(&r), ev);
}

#[test]
fn neutral_mouse_report() {
    assert_eq!(mouse_report(&MouseRaw::default()), [1, 0, 0, 0, 0, 0, 0, 0]);
}

#[test]
fn keyboard_report_empty() {
    assert_eq!(keyboard_report(&KeyboardState::new()), [2, 0, 0, 0, 0, 0, 0, 0, 0]);
    assert_eq!(keyboard_report(&KeyboardState::default()), [2, 0, 0, 0, 0, 0, 0, 0, 0]);
}

#[test]
fn keys_fill_slots_in_press_order() {
    let mut s = KeyboardState::new();
    press(&mut s, UsbKeyCode::KEYA);
    press(&mut s, UsbKeyCode::KEYB);
    press(&mut s, UsbKeyCode::KEYC);
    assert_eq!(keyboard_report(&s), [2, 0, 0, 0x04, 0x05, 0x06, 0, 0, 0]);
}

#[test]
fn seventh_key_waits_for_a_free_slot() {
    let mut s = KeyboardState::new();
    let six = [
        UsbKeyCode::KEYA,
        UsbKeyCode::KEYB,
        UsbKeyCode::KEYC,
        UsbKeyCode::KEYD,
        UsbKeyCode::KEYE,
        UsbKeyCode::KEYF,
    ];
    for k in six {
        press(&mut s, k);
    }
    let full = [2, 0, 0, 4, 5, 6, 7, 8, 9];
    assert_eq!(keyboard_report(&s), full);
    press(&mut s, UsbKeyCode::KEYG);
    assert_eq!(keyboard_report(&s), full);
    s.apply(KeyTarget::Key(UsbKeyCode::KEYB), false);
    assert_eq!(keyboard_report(&s), [2, 0, 0, 4, 6, 7, 8, 9, 0x0a]);
}

#[test]
fn modifier_bits() {
    let mut s = KeyboardState::new();
    s.apply(KeyTarget::Modifier(KeyCodeModifier::KEYLEFTSHIFT), true);
    s.apply(KeyTarget::Modifier(KeyCodeModifier::KEYRIGHTMETA), true);
    assert_eq!(keyboard_report(&s), [2, 0x82, 0, 0, 0, 0, 0, 0, 0]);
    s.apply(KeyTarget::Modifier(KeyCodeModifier::KEYLEFTCTRL), true);
    press(&mut s, UsbKeyCode::KEYZ);
    assert_eq!(keyboard_report(&s), [2, 0x83, 0, 0x1d, 0, 0, 0, 0, 0]);
}
