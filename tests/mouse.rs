use hid_passthrough::mouse::{
    attempt_read, check_mouses, decode_buttons, decode_packet, decode_wheel, mouse_feature,
    poll_rate_packet, push_mouse_event, Mouse, MouseRaw, MouseSettings, MouseState,
};
use hid_passthrough::passthrough::HidMouse;

fn settings(invert_x: bool, invert_y: bool, invert_wheel: bool, m: i16) -> MouseSettings {
    MouseSettings { invert_x, invert_y, invert_wheel, sensitivity_multiplier: m }
}

#[test]
fn buttons_byte_five_is_left_and_middle() {
    let s = decode_buttons(0x05, 0, false);
    assert!(s.left_button);
    assert!(!s.right_button);
    assert!(s.middle_button);
    assert!(!s.four_button);
    assert!(!s.five_button);
}

#[test]
fn buttons_every_combination_of_low_bits() {
    for b in 0u8..=255 {
        let s = decode_buttons(b, 0xff, true);
        assert_eq!(s.left_button, b & 1 != 0);
        assert_eq!(s.right_button, b & 2 != 0);
        assert_eq!(s.middle_button, b & 4 != 0);
        assert!(s.four_button);
        assert!(s.five_button);
    }
}

#[test]
fn side_buttons_only_in_extended_mode() {
    let s = decode_buttons(0, 0x30, false);
    assert!(!s.four_button && !s.five_button);
    let s = decode_buttons(0, 0x10, true);
    assert!(s.four_button && !s.five_button);
    let s = decode_buttons(0, 0x20, true);
    assert!(!s.four_button && s.five_button);
}

#[test]
fn wheel_nibble_sign_extension() {
    assert_eq!(decode_wheel(0b0001, true), 1);
    assert_eq!(decode_wheel(0b1111, true), -1);
    assert_eq!(decode_wheel(0b0111, true), 7);
    assert_eq!(decode_wheel(0b1000, true), -8);
    assert_eq!(decode_wheel(0x3f, true), -1);
}

#[test]
fn wheel_whole_byte_outside_extended_mode() {
    assert_eq!(decode_wheel(0x01, false), 1);
    assert_eq!(decode_wheel(0xff, false), -1);
    assert_eq!(decode_wheel(0x0f, false), 15);
    assert_eq!(decode_wheel(0x80, false), -128);
}

#[test]
fn short_packet_is_no_event() {
    assert!(decode_packet(&[0x01, 0x19, 0x00], false, &MouseSettings::default()).is_none());
    assert!(decode_packet(&[], false, &MouseSettings::default()).is_none());
}

#[test]
fn packet_left_and_plus_x() {
    let raw = decode_packet(&[0x01, 0x19, 0x00, 0x00], false, &MouseSettings::default()).unwrap();
    assert_eq!(
        raw,
        MouseRaw {
            left_button: true,
            right_button: false,
            middle_button: false,
            four_button: false,
            five_button: false,
            relative_x: 25,
            relative_y: 0,
            relative_wheel: 0,
        }
    );
}

#[test]
fn packet_y_is_negated_wheel_is_not() {
    let raw = decode_packet(&[0x00, 0xfe, 0x05, 0x01], false, &MouseSettings::default()).unwrap();
    assert_eq!(raw.relative_x, -2);
    assert_eq!(raw.relative_y, -5);
    assert_eq!(raw.relative_wheel, 1);
    let raw = decode_packet(&[0x00, 0x00, 0x00, 0x1f], true, &MouseSettings::default()).unwrap();
    assert_eq!(raw.relative_wheel, -1);
    assert!(raw.four_button);
}

#[test]
fn extended_wheel_nibble_reaches_the_report() {
    let mut m = Mouse::new(String::from("m"), true);
    assert_eq!(attempt_read(&mut m, &[0x00, 0x00, 0x00, 0x01]), Some([1, 0, 0, 0, 0, 0, 0x01, 0x00]));
    assert_eq!(attempt_read(&mut m, &[0x00, 0x00, 0x00, 0x0f]), Some([1, 0, 0, 0, 0, 0, 0xff, 0xff]));
    m.mouse_settings.invert_wheel = true;
    assert_eq!(attempt_read(&mut m, &[0x00, 0x00, 0x00, 0x01]), Some([1, 0, 0, 0, 0, 0, 0xff, 0xff]));
}

#[test]
fn inversion_then_sensitivity() {
    let raw = decode_packet(&[0x00, 0x03, 0x04, 0x02], false, &settings(true, true, true, 3)).unwrap();
    assert_eq!(raw.relative_x, -9);
    assert_eq!(raw.relative_y, 12);
    assert_eq!(raw.relative_wheel, -2);
}

#[test]
fn sensitivity_saturates() {
    let raw = decode_packet(&[0x00, 0x7f, 0x80, 0x00], false, &settings(false, false, false, 1000)).unwrap();
    assert_eq!(raw.relative_x, i16::MAX);
    assert_eq!(raw.relative_y, i16::MAX);
    let raw = decode_packet(&[0x00, 0x80, 0x00, 0x00], false, &settings(false, false, false, i16::MAX)).unwrap();
    assert_eq!(raw.relative_x, i16::MIN);
    let raw = decode_packet(&[0x00, 0x80, 0x00, 0x00], false, &settings(true, false, false, -1)).unwrap();
    assert_eq!(raw.relative_x, -128);
}

#[test]
fn default_settings_are_neutral() {
    let s = MouseSettings::default();
    assert_eq!(s, settings(false, false, false, 1));
    assert_eq!(MouseState::default().left_button, false);
}

#[test]
fn read_updates_button_snapshot() {
    let mut m = Mouse::new(String::from("/dev/input/mice"), false);
    assert_eq!(attempt_read(&mut m, &[0x04, 0x00]), None);
    assert!(!m.get_state().middle_button);
    let report = attempt_read(&mut m, &[0x04, 0x01, 0x00, 0x00]).unwrap();
    assert_eq!(report, [1, 0x04, 1, 0, 0, 0, 0, 0]);
    assert!(m.get_state().middle_button);
    assert!(!m.get_state().left_button);
    assert_eq!(m.mouse_path, "/dev/input/mice");
}

#[test]
fn settings_apply_from_next_packet() {
    let mut m = Mouse::new(String::from("m"), false);
    assert_eq!(attempt_read(&mut m, &[0, 2, 0, 0]).unwrap()[2], 2);
    m.mouse_settings.invert_x = true;
    assert_eq!(attempt_read(&mut m, &[0, 2, 0, 0]).unwrap()[2], 0xfe);
}

#[test]
fn push_event_records_buttons() {
    let mut m = Mouse::new(String::from("m"), true);
    let raw = MouseRaw { five_button: true, relative_wheel: -1, ..MouseRaw::default() };
    let report = push_mouse_event(&raw, &mut m);
    assert_eq!(report, [1, 0x10, 0, 0, 0, 0, 0xff, 0xff]);
    assert!(m.get_state().five_button);
}

#[test]
fn handshake_bytes() {
    assert_eq!(mouse_feature(false), [0xf3, 200, 0xf3, 100, 0xf3, 80]);
    assert_eq!(mouse_feature(true), [0xf3, 200, 0xf3, 200, 0xf3, 80]);
}

#[test]
fn poll_rate_command() {
    assert_eq!(poll_rate_packet(200), vec![0xf3, 0, 0, 0, 200]);
    assert_eq!(poll_rate_packet(0x01020304), vec![0xf3, 1, 2, 3, 4]);
    assert_eq!(poll_rate_packet(-1), vec![0xf3, 0xff, 0xff, 0xff, 0xff]);
}

#[test]
fn scan_lists_unopened_mice() {
    let input = |p: &str| HidMouse { mouse_path: String::from(p), mouse_poll_rate: None, mouse_side_buttons: false };
    let inputs = vec![input("a"), input("b"), input("c")];
    let open = vec![Mouse::new(String::from("b"), false)];
    assert_eq!(check_mouses(&inputs, &open), vec![0, 2]);
    assert_eq!(check_mouses(&inputs, &Vec::new()), vec![0, 1, 2]);
    assert_eq!(check_mouses(&Vec::new(), &open), Vec::<usize>::new());
}
