//! Tests of the controller state snapshot.

use ctrlassist::gamepad::{Axis, Button, ControllerState};

#[test]
fn unrecorded_controls_read_as_neutral() {
    let s = ControllerState::new();
    assert_eq!(s.button_value(Button::South), 0);
    assert!(!s.is_pressed(Button::South));
    assert_eq!(s.axis_value(Axis::LeftStickX), 0);
}

#[test]
fn recorded_values_are_read_back() {
    let mut s = ControllerState::new();
    s.set_button(Button::South, 1000, true);
    s.set_button(Button::RightTrigger2, 350, true);
    s.set_axis(Axis::LeftStickX, -700);
    assert_eq!(s.button_value(Button::South), 1000);
    assert!(s.is_pressed(Button::South));
    assert_eq!(s.button_value(Button::RightTrigger2), 350);
    assert_eq!(s.axis_value(Axis::LeftStickX), -700);
    assert_eq!(s.axis_value(Axis::LeftStickY), 0);
}

#[test]
fn later_records_overwrite_earlier_ones() {
    let mut s = ControllerState::new();
    s.set_button(Button::South, 1000, true);
    s.set_button(Button::South, 0, false);
    assert_eq!(s.button_value(Button::South), 0);
    assert!(!s.is_pressed(Button::South));
    s.set_axis(Axis::RightStickY, 500);
    s.set_axis(Axis::RightStickY, -500);
    assert_eq!(s.axis_value(Axis::RightStickY), -500);
    // One snapshot per control, however often it is written.
    assert_eq!(s.buttons_len(), 1);
    assert_eq!(s.axes_len(), 1);
}

#[test]
fn snapshots_keep_recording_order() {
    let mut s = ControllerState::new();
    s.set_button(Button::South, 1000, true);
    s.set_button(Button::East, 0, false);
    assert_eq!(s.button_at(0).button, Button::South);
    assert_eq!(s.button_at(1).button, Button::East);
    assert!(s.button_at(0).pressed);
    s.set_axis(Axis::LeftStickX, 10);
    assert_eq!(s.axis_at(0).axis, Axis::LeftStickX);
    assert_eq!(s.axis_at(0).value, 10);
}
