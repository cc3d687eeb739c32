//! Tests of the runtime settings, the input loop step, and the rumble
//! target selection.

use ctrlassist::gamepad::{Axis, Button, ControllerState, EventKind, GamepadEvent};
use ctrlassist::mux_modes::{create_mux_mode, ModeType, MuxMode};
use ctrlassist::mux_runtime::{
    process_input_event, refresh_mode, rumble_target_ids, RuntimeSettings,
};
use ctrlassist::translate::{scale_stick, OutputEvent, ABS_X, ABS_Y, BTN_SOUTH};
use ctrlassist::RumbleTarget;

const P: usize = 0;
const A: usize = 1;

#[test]
fn settings_updates_return_the_replaced_value() {
    let mut s = RuntimeSettings::new(ModeType::Priority, RumbleTarget::Both);
    assert_eq!(s.get_mode(), ModeType::Priority);
    assert_eq!(s.get_rumble(), RumbleTarget::Both);
    assert_eq!(s.update_mode(ModeType::Toggle), ModeType::Priority);
    assert_eq!(s.get_mode(), ModeType::Toggle);
    assert_eq!(s.get_rumble(), RumbleTarget::Both);
    assert_eq!(s.update_rumble(RumbleTarget::Assist), RumbleTarget::Both);
    assert_eq!(s.get_rumble(), RumbleTarget::Assist);
    assert_eq!(s.get_mode(), ModeType::Toggle);
}

#[test]
fn rumble_targets() {
    assert_eq!(rumble_target_ids(RumbleTarget::Primary, P, A), vec![P]);
    assert_eq!(rumble_target_ids(RumbleTarget::Assist, P, A), vec![A]);
    assert_eq!(rumble_target_ids(RumbleTarget::Both, P, A), vec![P, A]);
    assert_eq!(rumble_target_ids(RumbleTarget::Off, P, A), Vec::<usize>::new());
}

#[test]
fn refresh_mode_rebuilds_only_on_change() {
    let mut mode = create_mux_mode(ModeType::Priority);
    let mut last = ModeType::Priority;
    assert!(!refresh_mode(&mut mode, &mut last, ModeType::Priority));
    assert!(matches!(mode, MuxMode::Priority(_)));
    assert!(refresh_mode(&mut mode, &mut last, ModeType::Average));
    assert!(matches!(mode, MuxMode::Average(_)));
    assert_eq!(last, ModeType::Average);
    assert!(refresh_mode(&mut mode, &mut last, ModeType::Toggle));
    assert!(matches!(mode, MuxMode::Toggle(_)));
}

#[test]
fn processed_batch_ends_in_exactly_one_sync() {
    let mut primary = ControllerState::new();
    primary.set_axis(Axis::LeftStickX, 500);
    let assist = ControllerState::new();
    let mut mode = create_mux_mode(ModeType::Priority);
    let ev = GamepadEvent { id: P, kind: EventKind::AxisChanged(Axis::LeftStickX, 500) };
    let out = process_input_event(&mut mode, &ev, P, A, &primary, &assist).unwrap();
    assert_eq!(
        out,
        vec![
            OutputEvent::AbsAxis { code: ABS_X, value: scale_stick(500, false) },
            OutputEvent::AbsAxis { code: ABS_Y, value: scale_stick(0, true) },
            OutputEvent::Synchronization,
        ]
    );
    let syncs = out.iter().filter(|e| matches!(e, OutputEvent::Synchronization)).count();
    assert_eq!(syncs, 1);
    assert_eq!(out.last(), Some(&OutputEvent::Synchronization));
}

#[test]
fn suppressed_events_produce_no_write() {
    let primary = ControllerState::new();
    let mut assist = ControllerState::new();
    assist.set_button(Button::South, 1000, true);
    let mut mode = create_mux_mode(ModeType::Priority);
    // Primary press while assist holds: suppressed, no batch, no sync.
    let ev = GamepadEvent { id: P, kind: EventKind::ButtonPressed(Button::South) };
    assert_eq!(process_input_event(&mut mode, &ev, P, A, &primary, &assist), None);
    // Unmapped vendor button: mapping miss, silently dropped.
    let ev = GamepadEvent { id: P, kind: EventKind::ButtonPressed(Button::Z) };
    assert_eq!(process_input_event(&mut mode, &ev, P, A, &primary, &assist), None);
}

#[test]
fn processed_key_batch() {
    let primary = ControllerState::new();
    let assist = ControllerState::new();
    let mut mode = create_mux_mode(ModeType::Average);
    let ev = GamepadEvent { id: P, kind: EventKind::ButtonPressed(Button::South) };
    let out = process_input_event(&mut mode, &ev, P, A, &primary, &assist);
    assert_eq!(
        out,
        Some(vec![
            OutputEvent::Key { code: BTN_SOUTH, value: 1 },
            OutputEvent::Synchronization,
        ])
    );
}
