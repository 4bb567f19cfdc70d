use hid_passthrough::keyboard::{
    add_generic_down, attempt_read, check_keyboards, is_key_down, is_modifier_down,
    parse_key_record, remove_generic_down, scancode_set_packet, KeyEvent, KeyboardState,
};
use hid_passthrough::keymap::{key_target, KeyCodeModifier, KeyTarget, UsbKeyCode};

const RECORD_LEN: usize = 24;

/// A 64-bit Linux input event record: zero timestamp, then type, code and value.
fn record(event_type: u16, code: u16, value: i32) -> Vec<u8> {
    let mut r = vec![0u8; 16];
    r.extend_from_slice(&event_type.to_le_bytes());
    r.extend_from_slice(&code.to_le_bytes());
    r.extend_from_slice(&value.to_le_bytes());
    r
}

#[test]
fn add_twice_holds_once() {
    let mut v: Vec<u8> = Vec::new();
    add_generic_down(4, &mut v);
    add_generic_down(4, &mut v);
    assert_eq!(v, vec![4]);
    add_generic_down(5, &mut v);
    add_generic_down(4, &mut v);
    assert_eq!(v, vec![4, 5]);
}

#[test]
fn remove_absent_is_no_op() {
    let mut v: Vec<u8> = vec![4, 5];
    remove_generic_down(9, &mut v);
    assert_eq!(v, vec![4, 5]);
    let mut e: Vec<u8> = Vec::new();
    remove_generic_down(9, &mut e);
    assert!(e.is_empty());
}

#[test]
fn remove_deletes_every_occurrence_keeping_order() {
    let mut v: Vec<u8> = vec![4, 7, 5, 7, 6];
    remove_generic_down(7, &mut v);
    assert_eq!(v, vec![4, 5, 6]);
}

#[test]
fn key_table_lookups() {
    assert_eq!(key_target(30), KeyTarget::Key(UsbKeyCode::KEYA));
    assert_eq!(key_target(1), KeyTarget::Key(UsbKeyCode::KEYESC));
    assert_eq!(key_target(28), KeyTarget::Key(UsbKeyCode::KEYENTER));
    assert_eq!(key_target(224), KeyTarget::Key(UsbKeyCode::KEYF1));
    assert_eq!(key_target(29), KeyTarget::Modifier(KeyCodeModifier::KEYLEFTCTRL));
    assert_eq!(key_target(126), KeyTarget::Modifier(KeyCodeModifier::KEYRIGHTMETA));
    assert_eq!(key_target(0), KeyTarget::Unmapped);
    assert_eq!(key_target(59), KeyTarget::Unmapped);
    assert_eq!(key_target(240), KeyTarget::Unmapped);
    assert_eq!(key_target(u16::MAX), KeyTarget::Unmapped);
}

#[test]
fn usage_codes_and_ordinals() {
    assert_eq!(UsbKeyCode::KEYA.code(), 0x04);
    assert_eq!(UsbKeyCode::KEYRESERVED.code(), 0x00);
    assert_eq!(UsbKeyCode::KEYVOLUMEDOWN.code(), 0x81);
    assert_eq!(KeyCodeModifier::KEYLEFTCTRL.ordinal(), 0);
    assert_eq!(KeyCodeModifier::KEYRIGHTMETA.ordinal(), 7);
}

#[test]
fn parse_record_fields() {
    let r = record(1, 30, 2);
    assert_eq!(
        parse_key_record(&r, RECORD_LEN),
        Some(KeyEvent { event_type: 1, code: 30, value: 2 })
    );
    let r = record(4, 0x1234, -7);
    assert_eq!(
        parse_key_record(&r, RECORD_LEN),
        Some(KeyEvent { event_type: 4, code: 0x1234, value: -7 })
    );
}

#[test]
fn parse_short_record_is_nothing() {
    let r = record(1, 30, 1);
    assert_eq!(parse_key_record(&r[..23], RECORD_LEN), None);
    assert_eq!(parse_key_record(&r, 4), None);
}

#[test]
fn press_and_release_flush_reports() {
    let mut s = KeyboardState::new();
    let report = attempt_read(&mut s, &record(1, 30, 1), RECORD_LEN);
    assert_eq!(report, Some([2, 0, 0, 4, 0, 0, 0, 0, 0]));
    assert!(is_key_down(UsbKeyCode::KEYA, &s));
    let report = attempt_read(&mut s, &record(1, 42, 2), RECORD_LEN);
    assert_eq!(report, Some([2, 0x02, 0, 4, 0, 0, 0, 0, 0]));
    assert!(is_modifier_down(KeyCodeModifier::KEYLEFTSHIFT, &s));
    let report = attempt_read(&mut s, &record(1, 30, 0), RECORD_LEN);
    assert_eq!(report, Some([2, 0x02, 0, 0, 0, 0, 0, 0, 0]));
    assert!(!is_key_down(UsbKeyCode::KEYA, &s));
    let report = attempt_read(&mut s, &record(1, 42, 0), RECORD_LEN);
    assert_eq!(report, Some([2, 0, 0, 0, 0, 0, 0, 0, 0]));
    assert!(!is_modifier_down(KeyCodeModifier::KEYLEFTSHIFT, &s));
}

#[test]
fn ignored_records() {
    let mut s = KeyboardState::new();
    assert_eq!(attempt_read(&mut s, &record(0, 30, 1), RECORD_LEN), None);
    assert_eq!(attempt_read(&mut s, &record(4, 30, 1), RECORD_LEN), None);
    assert_eq!(attempt_read(&mut s, &record(1, 59, 1), RECORD_LEN), None);
    assert_eq!(attempt_read(&mut s, &record(1, 0, 1), RECORD_LEN), None);
    assert_eq!(attempt_read(&mut s, &record(1, 30, 1)[..10], RECORD_LEN), None);
    assert!(s.keys_down().is_empty());
    assert!(s.modifiers_down().is_empty());
}

#[test]
fn repeated_press_holds_key_once() {
    let mut s = KeyboardState::new();
    attempt_read(&mut s, &record(1, 48, 1), RECORD_LEN);
    attempt_read(&mut s, &record(1, 48, 2), RECORD_LEN);
    attempt_read(&mut s, &record(1, 48, 2), RECORD_LEN);
    assert_eq!(s.keys_down(), &vec![0x05]);
}

#[test]
fn scancode_command() {
    assert_eq!(scancode_set_packet(), [0xf0, 2]);
}

#[test]
fn scan_lists_unopened_keyboards() {
    let inputs = vec![String::from("k0"), String::from("k1")];
    assert_eq!(check_keyboards(&inputs, &vec![String::from("k0")]), vec![1]);
    assert_eq!(check_keyboards(&inputs, &inputs), Vec::<usize>::new());
}
