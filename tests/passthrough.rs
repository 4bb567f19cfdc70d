use hid_passthrough::mouse::MouseSettings;
use hid_passthrough::passthrough::{
    HidMouse, HidSpecification, PassthroughError, Passthrough, Phase,
};

const MOUSE: &str = "/dev/input/mouse0";
const KEYBOARD: &str = "/dev/input/event0";

fn specification(side_buttons: bool) -> HidSpecification {
    HidSpecification {
        mouse_inputs: Some(vec![HidMouse {
            mouse_path: String::from(MOUSE),
            mouse_poll_rate: None,
            mouse_side_buttons: side_buttons,
        }]),
        keyboard_inputs: Some(vec![String::from(KEYBOARD)]),
        gadget_output: String::from("/dev/hidg0"),
    }
}

fn running() -> Passthrough {
    let mut p = Passthrough::new();
    assert!(p.start(specification(false)));
    assert_eq!(p.phase(), Phase::Starting);
    assert_eq!(p.gadget_opened(true), Ok(()));
    assert_eq!(p.phase(), Phase::Running);
    p
}

fn key_record(code: u16, value: i32) -> Vec<u8> {
    let mut r = vec![0u8; 16];
    r.extend_from_slice(&1u16.to_le_bytes());
    r.extend_from_slice(&code.to_le_bytes());
    r.extend_from_slice(&value.to_le_bytes());
    r
}

#[test]
fn one_mouse_packet_one_report() {
    let mut p = running();
    assert_eq!(p.pending_mice(), vec![0]);
    assert_eq!(p.attach_mouse(0), Some([0xf3, 200, 0xf3, 100, 0xf3, 80]));
    assert_eq!(p.pending_mice(), Vec::<usize>::new());
    let path = String::from(MOUSE);
    let report = p.mouse_packet(&path, &[0x01, 0x19, 0x00, 0x00]);
    assert_eq!(report, Some([1, 0x01, 25, 0, 0, 0, 0, 0]));
    assert!(p.mouses()[0].get_state().left_button);
}

#[test]
fn stop_ends_with_neutral_reports() {
    let mut p = running();
    p.attach_mouse(0);
    p.attach_keyboard(0);
    let path = String::from(MOUSE);
    assert!(p.mouse_packet(&path, &[0x01, 0x00, 0x00, 0x00]).is_some());
    let kb = String::from(KEYBOARD);
    assert!(p.key_record(&kb, &key_record(30, 1), 24).is_some());
    let reports = p.stop().unwrap();
    assert_eq!(reports.mouse, [1, 0, 0, 0, 0, 0, 0, 0]);
    assert_eq!(reports.keyboard, [2, 0, 0, 0, 0, 0, 0, 0, 0]);
    assert_eq!(p.phase(), Phase::Stopping);
    assert!(!p.keep_reading());
    assert!(p.mouses().is_empty());
    assert!(p.keyboard().keys_down().is_empty());
    assert_eq!(p.mouse_packet(&path, &[0x01, 0x00, 0x00, 0x00]), None);
    assert_eq!(p.finish_stop(), Ok(()));
    assert_eq!(p.phase(), Phase::Stopped);
}

#[test]
fn lifecycle_errors() {
    let mut p = Passthrough::new();
    assert!(matches!(p.stop(), Err(PassthroughError::NotStarted)));
    assert_eq!(p.gadget_output(), None);
    assert_eq!(p.gadget_opened(true), Err(PassthroughError::NotStarting));
    assert_eq!(p.finish_stop(), Err(PassthroughError::NotStopping));
    assert!(p.start(specification(false)));
    assert_eq!(p.gadget_output(), Some(&String::from("/dev/hidg0")));
    assert_eq!(p.gadget_opened(false), Err(PassthroughError::GadgetUnavailable));
    assert_eq!(p.phase(), Phase::Stopped);
    assert!(p.pending_mice().is_empty());
    assert_eq!(p.attach_mouse(0), None);
}

#[test]
fn restart_after_stop() {
    let mut p = running();
    p.stop().unwrap();
    p.finish_stop().unwrap();
    assert!(p.start(specification(true)));
    assert_eq!(p.gadget_opened(true), Ok(()));
    assert_eq!(p.attach_mouse(0), Some([0xf3, 200, 0xf3, 200, 0xf3, 80]));
}

#[test]
fn attach_is_idempotent() {
    let mut p = running();
    assert!(p.attach_mouse(0).is_some());
    assert_eq!(p.attach_mouse(0), None);
    assert_eq!(p.attach_mouse(1), None);
    assert_eq!(p.mouses().len(), 1);
    assert_eq!(p.attach_keyboard(0), Some([0xf0, 2]));
    assert_eq!(p.attach_keyboard(0), None);
    assert!(p.pending_keyboards().is_empty());
}

#[test]
fn failed_device_removed_by_path() {
    let mut p = Passthrough::new();
    let input = |path: &str| HidMouse { mouse_path: String::from(path), mouse_poll_rate: None, mouse_side_buttons: false };
    let spec = HidSpecification {
        mouse_inputs: Some(vec![input("m0"), input("m1"), input("m2")]),
        keyboard_inputs: None,
        gadget_output: String::from("/dev/hidg0"),
    };
    assert!(p.start(spec));
    p.gadget_opened(true).unwrap();
    for i in p.pending_mice() {
        assert!(p.attach_mouse(i).is_some());
    }
    p.device_failed(&String::from("m1"));
    let paths: Vec<&str> = p.mouses().iter().map(|m| m.mouse_path.as_str()).collect();
    assert_eq!(paths, vec!["m0", "m2"]);
    p.device_failed(&String::from("m1"));
    assert_eq!(p.mouses().len(), 2);
    assert_eq!(p.pending_mice(), vec![1]);
    assert_eq!(p.mouse_packet(&String::from("m1"), &[0, 1, 0, 0]), None);
    assert!(p.mouse_packet(&String::from("m2"), &[0, 1, 0, 0]).is_some());
}

#[test]
fn keyboard_records_only_from_open_keyboards() {
    let mut p = running();
    let kb = String::from(KEYBOARD);
    assert_eq!(p.key_record(&kb, &key_record(30, 1), 24), None);
    p.attach_keyboard(0);
    assert_eq!(p.key_record(&kb, &key_record(30, 1), 24), Some([2, 0, 0, 4, 0, 0, 0, 0, 0]));
    assert_eq!(p.key_record(&String::from("other"), &key_record(48, 1), 24), None);
    p.device_failed(&kb);
    assert_eq!(p.pending_keyboards(), vec![0]);
}

#[test]
fn settings_change_at_runtime() {
    let mut p = running();
    p.attach_mouse(0);
    let path = String::from(MOUSE);
    let s = MouseSettings { invert_x: true, invert_y: false, invert_wheel: false, sensitivity_multiplier: 2 };
    assert!(p.set_mouse_settings(&path, s));
    assert!(!p.set_mouse_settings(&String::from("none"), s));
    assert_eq!(p.mouse_packet(&path, &[0, 3, 0, 0]), Some([1, 0, 0xfa, 0xff, 0, 0, 0, 0]));
}

#[test]
fn start_while_running_changes_nothing() {
    let mut p = running();
    p.attach_mouse(0);
    assert!(!p.start(specification(true)));
    assert_eq!(p.phase(), Phase::Running);
    assert_eq!(p.mouses().len(), 1);
    assert!(p.pending_mice().is_empty());
}

#[test]
fn stop_again_resends_neutral_reports() {
    let mut p = running();
    p.stop().unwrap();
    p.finish_stop().unwrap();
    let reports = p.stop().unwrap();
    assert_eq!(reports.mouse, [1, 0, 0, 0, 0, 0, 0, 0]);
    assert_eq!(reports.keyboard, [2, 0, 0, 0, 0, 0, 0, 0, 0]);
    assert_eq!(p.finish_stop(), Ok(()));
    assert_eq!(p.phase(), Phase::Stopped);
}

#[test]
fn stop_after_failed_start_still_gives_neutral_reports() {
    let mut p = Passthrough::new();
    assert!(p.start(specification(false)));
    assert_eq!(p.gadget_opened(false), Err(PassthroughError::GadgetUnavailable));
    assert!(p.stop().is_ok());
}
