//! Scaling and mapping tests for the event translator.

use ctrlassist::gamepad::{Axis, Button};
use ctrlassist::translate::{
    dpad_axis_pair, gilrs_axis_to_evdev_axis, gilrs_button_to_evdev_axis,
    gilrs_button_to_evdev_key, is_inverted_dpad, is_y_axis, scale_stick, scale_trigger, ABS_HAT0X,
    ABS_HAT0Y, ABS_RX, ABS_RY, ABS_RZ, ABS_X, ABS_Y, ABS_Z, BTN_DPAD_DOWN, BTN_DPAD_LEFT,
    BTN_DPAD_RIGHT, BTN_DPAD_UP, BTN_MODE, BTN_NORTH, BTN_SOUTH, BTN_TL2, BTN_TR2,
};

#[test]
fn scale_stick_center_maps_to_axis_midpoint() {
    assert_eq!(scale_stick(0, false), 32768);
    assert_eq!(scale_stick(0, true), 32768);
}

#[test]
fn scale_stick_extremes() {
    assert_eq!(scale_stick(1000, false), 65535);
    assert_eq!(scale_stick(-1000, false), 0);
    assert_eq!(scale_stick(1000, true), 0);
    assert_eq!(scale_stick(-1000, true), 65535);
}

#[test]
fn scale_stick_known_value() {
    // 0.4 of the way right: round(1.4 * 32767.5)
    assert_eq!(scale_stick(400, false), 45875);
}

#[test]
fn scale_stick_stays_in_range_over_whole_domain() {
    let mut v: i32 = -1000;
    while v <= 1000 {
        let r = scale_stick(v, false);
        assert!((0..=65535).contains(&r));
        let r = scale_stick(v, true);
        assert!((0..=65535).contains(&r));
        v += 1;
    }
}

#[test]
fn scale_trigger_endpoints_and_range() {
    assert_eq!(scale_trigger(0), 0);
    assert_eq!(scale_trigger(1000), 65535);
    let mut v: i32 = 0;
    while v <= 1000 {
        let r = scale_trigger(v);
        assert!((0..=65535).contains(&r));
        v += 1;
    }
}

#[test]
fn scale_trigger_half() {
    // round(0.5 * 65535)
    assert_eq!(scale_trigger(500), 32768);
}

#[test]
fn button_key_mappings() {
    assert_eq!(gilrs_button_to_evdev_key(Button::South), Some(BTN_SOUTH));
    assert_eq!(gilrs_button_to_evdev_key(Button::North), Some(BTN_NORTH));
    assert_eq!(gilrs_button_to_evdev_key(Button::Mode), Some(BTN_MODE));
    assert_eq!(gilrs_button_to_evdev_key(Button::DPadUp), Some(BTN_DPAD_UP));
    assert_eq!(gilrs_button_to_evdev_key(Button::DPadDown), Some(BTN_DPAD_DOWN));
    assert_eq!(gilrs_button_to_evdev_key(Button::DPadLeft), Some(BTN_DPAD_LEFT));
    assert_eq!(gilrs_button_to_evdev_key(Button::DPadRight), Some(BTN_DPAD_RIGHT));
    // Vendor buttons have no mapping and are silently dropped upstream.
    assert_eq!(gilrs_button_to_evdev_key(Button::C), None);
    assert_eq!(gilrs_button_to_evdev_key(Button::Z), None);
    assert_eq!(gilrs_button_to_evdev_key(Button::Unknown), None);
}

#[test]
fn button_axis_mappings() {
    assert_eq!(gilrs_button_to_evdev_axis(Button::LeftTrigger2), Some(ABS_Z));
    assert_eq!(gilrs_button_to_evdev_axis(Button::RightTrigger2), Some(ABS_RZ));
    assert_eq!(gilrs_button_to_evdev_axis(Button::DPadUp), Some(ABS_HAT0Y));
    assert_eq!(gilrs_button_to_evdev_axis(Button::DPadDown), Some(ABS_HAT0Y));
    assert_eq!(gilrs_button_to_evdev_axis(Button::DPadLeft), Some(ABS_HAT0X));
    assert_eq!(gilrs_button_to_evdev_axis(Button::DPadRight), Some(ABS_HAT0X));
    assert_eq!(gilrs_button_to_evdev_axis(Button::South), None);
}

#[test]
fn axis_mappings() {
    assert_eq!(gilrs_axis_to_evdev_axis(Axis::LeftStickX), Some(ABS_X));
    assert_eq!(gilrs_axis_to_evdev_axis(Axis::LeftStickY), Some(ABS_Y));
    assert_eq!(gilrs_axis_to_evdev_axis(Axis::LeftZ), Some(ABS_Z));
    assert_eq!(gilrs_axis_to_evdev_axis(Axis::RightStickX), Some(ABS_RX));
    assert_eq!(gilrs_axis_to_evdev_axis(Axis::RightStickY), Some(ABS_RY));
    assert_eq!(gilrs_axis_to_evdev_axis(Axis::RightZ), Some(ABS_RZ));
    assert_eq!(gilrs_axis_to_evdev_axis(Axis::DPadX), None);
    assert_eq!(gilrs_axis_to_evdev_axis(Axis::Unknown), None);
}

#[test]
fn dpad_pairs_share_one_axis() {
    assert_eq!(dpad_axis_pair(Button::DPadUp), Some((Button::DPadUp, Button::DPadDown)));
    assert_eq!(dpad_axis_pair(Button::DPadDown), Some((Button::DPadUp, Button::DPadDown)));
    assert_eq!(dpad_axis_pair(Button::DPadLeft), Some((Button::DPadLeft, Button::DPadRight)));
    assert_eq!(dpad_axis_pair(Button::DPadRight), Some((Button::DPadLeft, Button::DPadRight)));
    assert_eq!(dpad_axis_pair(Button::South), None);
}

#[test]
fn inversion_flags() {
    assert!(is_y_axis(Axis::LeftStickY));
    assert!(is_y_axis(Axis::RightStickY));
    assert!(!is_y_axis(Axis::LeftStickX));
    assert!(is_inverted_dpad(Button::DPadUp));
    assert!(is_inverted_dpad(Button::DPadLeft));
    assert!(!is_inverted_dpad(Button::DPadDown));
    assert!(!is_inverted_dpad(Button::DPadRight));
}
