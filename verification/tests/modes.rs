//! Scenario tests for the three arbitration policies.

use ctrlassist::gamepad::{Axis, Button, ControllerState, EventKind, GamepadEvent};
use ctrlassist::mux_modes::average::AverageMode;
use ctrlassist::mux_modes::priority::PriorityMode;
use ctrlassist::mux_modes::toggle::ToggleMode;
use ctrlassist::mux_modes::{create_mux_mode, ModeType, MuxMode};
use ctrlassist::translate::{
    scale_stick, scale_trigger, OutputEvent, ABS_HAT0X, ABS_HAT0Y, ABS_RZ, ABS_X, ABS_Y,
    BTN_SOUTH,
};

const P: usize = 0;
const A: usize = 1;

fn ev(id: usize, kind: EventKind) -> GamepadEvent {
    GamepadEvent { id, kind }
}

#[test]
fn priority_assist_press_overrides_held_primary_button() {
    // Primary holds South; Assist presses South: the press is forwarded.
    let mut primary = ControllerState::new();
    primary.set_button(Button::South, 1000, true);
    let assist = ControllerState::new();
    let m = PriorityMode;
    let out = m.handle_event(&ev(A, EventKind::ButtonPressed(Button::South)), P, A, &primary, &assist);
    assert_eq!(out, Some(vec![OutputEvent::Key { code: BTN_SOUTH, value: 1 }]));
}

#[test]
fn priority_primary_press_suppressed_while_assist_holds() {
    let primary = ControllerState::new();
    let mut assist = ControllerState::new();
    assist.set_button(Button::South, 1000, true);
    let m = PriorityMode;
    let out = m.handle_event(&ev(P, EventKind::ButtonPressed(Button::South)), P, A, &primary, &assist);
    assert_eq!(out, None);
    let out = m.handle_event(&ev(P, EventKind::ButtonReleased(Button::South)), P, A, &primary, &assist);
    assert_eq!(out, None);
}

#[test]
fn priority_assist_release_forwarded_while_primary_holds() {
    // The documented staleness window: when assist releases a button the
    // primary still physically holds, the release is forwarded and the
    // output key stays up until the primary's own next button event.
    let mut primary = ControllerState::new();
    primary.set_button(Button::South, 1000, true);
    let assist = ControllerState::new();
    let m = PriorityMode;
    let out = m.handle_event(&ev(A, EventKind::ButtonReleased(Button::South)), P, A, &primary, &assist);
    assert_eq!(out, Some(vec![OutputEvent::Key { code: BTN_SOUTH, value: 0 }]));
}

#[test]
fn priority_trigger_override_and_fallback() {
    // Assist's trigger value above primary's: assist's scaled value wins.
    let mut primary = ControllerState::new();
    primary.set_button(Button::RightTrigger2, 300, true);
    let mut assist = ControllerState::new();
    assist.set_button(Button::RightTrigger2, 500, true);
    let m = PriorityMode;
    let changed = ev(A, EventKind::ButtonChanged(Button::RightTrigger2, 500));
    let out = m.handle_event(&changed, P, A, &primary, &assist);
    assert_eq!(
        out,
        Some(vec![OutputEvent::AbsAxis { code: ABS_RZ, value: scale_trigger(500) }])
    );

    // The instant assist's value drops below primary's, the very next
    // event yields primary's scaled value.
    let mut assist = ControllerState::new();
    assist.set_button(Button::RightTrigger2, 200, true);
    let changed = ev(A, EventKind::ButtonChanged(Button::RightTrigger2, 200));
    let out = m.handle_event(&changed, P, A, &primary, &assist);
    assert_eq!(
        out,
        Some(vec![OutputEvent::AbsAxis { code: ABS_RZ, value: scale_trigger(300) }])
    );
}

#[test]
fn priority_assist_owns_stick_and_suppresses_primary() {
    let mut primary = ControllerState::new();
    primary.set_axis(Axis::LeftStickX, 800);
    let mut assist = ControllerState::new();
    assist.set_axis(Axis::LeftStickX, -400);
    let m = PriorityMode;
    // Primary movement while assist is active on the stick: suppressed.
    let out = m.handle_event(&ev(P, EventKind::AxisChanged(Axis::LeftStickX, 800)), P, A, &primary, &assist);
    assert_eq!(out, None);
    // Assist movement: both axes re-emitted from the assist.
    let out = m.handle_event(&ev(A, EventKind::AxisChanged(Axis::LeftStickX, -400)), P, A, &primary, &assist);
    assert_eq!(
        out,
        Some(vec![
            OutputEvent::AbsAxis { code: ABS_X, value: scale_stick(-400, false) },
            OutputEvent::AbsAxis { code: ABS_Y, value: scale_stick(0, true) },
        ])
    );
}

#[test]
fn average_button_or_suppression() {
    // Controller A holds B: any press/release of B from the other side is
    // suppressed until A releases it.
    let mut primary = ControllerState::new();
    primary.set_button(Button::West, 1000, true);
    let assist = ControllerState::new();
    let m = AverageMode;
    let out = m.handle_event(&ev(A, EventKind::ButtonPressed(Button::West)), P, A, &primary, &assist);
    assert_eq!(out, None);
    let out = m.handle_event(&ev(A, EventKind::ButtonReleased(Button::West)), P, A, &primary, &assist);
    assert_eq!(out, None);
    // Once the primary releases, the assist's press goes through.
    let mut primary = ControllerState::new();
    primary.set_button(Button::West, 0, false);
    let out = m.handle_event(&ev(A, EventKind::ButtonPressed(Button::West)), P, A, &primary, &assist);
    assert!(out.is_some());
}

#[test]
fn average_stick_blend() {
    // Both sticks pushed right by 0.5 and 0.3: output X is the average 0.4.
    let mut primary = ControllerState::new();
    primary.set_axis(Axis::LeftStickX, 500);
    let mut assist = ControllerState::new();
    assist.set_axis(Axis::LeftStickX, 300);
    let m = AverageMode;
    let out = m.handle_event(&ev(P, EventKind::AxisChanged(Axis::LeftStickX, 500)), P, A, &primary, &assist);
    assert_eq!(
        out,
        Some(vec![
            OutputEvent::AbsAxis { code: ABS_X, value: scale_stick(400, false) },
            OutputEvent::AbsAxis { code: ABS_Y, value: scale_stick(0, true) },
        ])
    );
    assert_eq!(scale_stick(400, false), 45875);
}

#[test]
fn average_trigger_blend() {
    // Both active: average.  One active: that one.  Neither: primary's raw.
    let m = AverageMode;
    let changed = ev(P, EventKind::ButtonChanged(Button::RightTrigger2, 600));
    let mut primary = ControllerState::new();
    primary.set_button(Button::RightTrigger2, 600, true);
    let mut assist = ControllerState::new();
    assist.set_button(Button::RightTrigger2, 400, true);
    let out = m.handle_event(&changed, P, A, &primary, &assist);
    assert_eq!(
        out,
        Some(vec![OutputEvent::AbsAxis { code: ABS_RZ, value: scale_trigger(500) }])
    );

    let assist = ControllerState::new();
    let out = m.handle_event(&changed, P, A, &primary, &assist);
    assert_eq!(
        out,
        Some(vec![OutputEvent::AbsAxis { code: ABS_RZ, value: scale_trigger(600) }])
    );

    let mut primary = ControllerState::new();
    primary.set_button(Button::RightTrigger2, 50, false);
    let out = m.handle_event(&changed, P, A, &primary, &assist);
    assert_eq!(
        out,
        Some(vec![OutputEvent::AbsAxis { code: ABS_RZ, value: scale_trigger(50) }])
    );
}

#[test]
fn toggle_flip_resyncs_newly_active_controller() {
    // Assist holds South and Mode and has the left stick displaced.  A
    // mode press from assist flips control to assist and emits exactly one
    // event per held mapped button (Mode itself excluded) and one per
    // displaced axis.
    let primary = ControllerState::new();
    let mut assist = ControllerState::new();
    assist.set_button(Button::South, 1000, true);
    assist.set_button(Button::Mode, 1000, true);
    assist.set_axis(Axis::LeftStickX, 500);
    let mut m = ToggleMode::default();
    let out = m.handle_event(&ev(A, EventKind::ButtonPressed(Button::Mode)), P, A, &primary, &assist);
    assert_eq!(
        out,
        Some(vec![
            OutputEvent::Key { code: BTN_SOUTH, value: 1 },
            OutputEvent::AbsAxis { code: ABS_X, value: scale_stick(500, false) },
        ])
    );
    assert_eq!(m.active, Some(A));
}

#[test]
fn toggle_flip_back_resyncs_primary_without_skipping_mode() {
    let mut primary = ControllerState::new();
    primary.set_button(Button::Mode, 1000, true);
    let assist = ControllerState::new();
    let mut m = ToggleMode { active: Some(A) };
    let out = m.handle_event(&ev(A, EventKind::ButtonPressed(Button::Mode)), P, A, &primary, &assist);
    // Primary becomes active: its held Mode button is part of the resync.
    assert_eq!(
        out,
        Some(vec![OutputEvent::Key { code: ctrlassist::translate::BTN_MODE, value: 1 }])
    );
    assert_eq!(m.active, Some(P));
}

#[test]
fn toggle_forwards_only_the_active_controller() {
    let primary = ControllerState::new();
    let assist = ControllerState::new();
    let mut m = ToggleMode::default();
    // Bootstrap: primary is active on first use.
    let out = m.handle_event(&ev(A, EventKind::ButtonPressed(Button::South)), P, A, &primary, &assist);
    assert_eq!(out, None);
    assert_eq!(m.active, Some(P));
    let out = m.handle_event(&ev(P, EventKind::ButtonPressed(Button::South)), P, A, &primary, &assist);
    assert_eq!(out, Some(vec![OutputEvent::Key { code: BTN_SOUTH, value: 1 }]));
    // Axis events are forwarded with the event's own value.
    let out = m.handle_event(&ev(P, EventKind::AxisChanged(Axis::LeftStickX, -250)), P, A, &primary, &assist);
    assert_eq!(
        out,
        Some(vec![OutputEvent::AbsAxis { code: ABS_X, value: scale_stick(-250, false) }])
    );
}


#[test]
fn dpad_sign_selects_direction_inside_deadzone() {
    // A small positive net (50 thousandths toward DPadDown) selects the
    // positive direction button, so the emitted value sits just above
    // center; a small negative net selects the inverted DPadUp side and
    // sits just below.  The sign, not the deadzone, picks the direction.
    let m = PriorityMode;
    let assist = ControllerState::new();

    let mut primary = ControllerState::new();
    primary.set_button(Button::DPadDown, 50, false);
    let changed = ev(P, EventKind::ButtonChanged(Button::DPadDown, 50));
    let out = m.handle_event(&changed, P, A, &primary, &assist);
    assert_eq!(scale_stick(50, false), 34406);
    assert_eq!(out, Some(vec![OutputEvent::AbsAxis { code: ABS_HAT0Y, value: 34406 }]));

    let mut primary = ControllerState::new();
    primary.set_button(Button::DPadUp, 50, false);
    let changed = ev(P, EventKind::ButtonChanged(Button::DPadUp, 50));
    let out = m.handle_event(&changed, P, A, &primary, &assist);
    assert_eq!(scale_stick(50, true), 31129);
    assert_eq!(out, Some(vec![OutputEvent::AbsAxis { code: ABS_HAT0Y, value: 31129 }]));

    // A fully neutral pair lands exactly on center.
    let primary = ControllerState::new();
    let changed = ev(P, EventKind::ButtonChanged(Button::DPadDown, 0));
    let out = m.handle_event(&changed, P, A, &primary, &assist);
    assert_eq!(out, Some(vec![OutputEvent::AbsAxis { code: ABS_HAT0Y, value: 32768 }]));
}

#[test]
fn priority_dpad_assist_wins_above_deadzone() {
    // Assist pushes up (net -800) while primary pushes down (net 300):
    // assist's net value wins outright.
    let mut primary = ControllerState::new();
    primary.set_button(Button::DPadDown, 300, true);
    let mut assist = ControllerState::new();
    assist.set_button(Button::DPadUp, 800, true);
    let m = PriorityMode;
    let changed = ev(A, EventKind::ButtonChanged(Button::DPadUp, 800));
    let out = m.handle_event(&changed, P, A, &primary, &assist);
    assert_eq!(
        out,
        Some(vec![OutputEvent::AbsAxis { code: ABS_HAT0Y, value: scale_stick(800, true) }])
    );

    // The instant assist's net is inside the deadzone, primary's is used.
    let mut assist = ControllerState::new();
    assist.set_button(Button::DPadUp, 60, false);
    let changed = ev(A, EventKind::ButtonChanged(Button::DPadUp, 60));
    let out = m.handle_event(&changed, P, A, &primary, &assist);
    assert_eq!(
        out,
        Some(vec![OutputEvent::AbsAxis { code: ABS_HAT0Y, value: scale_stick(300, false) }])
    );
}

#[test]
fn average_dpad_sums_and_clamps() {
    // Both controllers push right beyond the deadzone: the nets are summed
    // and the sum clamped back into range.
    let mut primary = ControllerState::new();
    primary.set_button(Button::DPadRight, 800, true);
    let mut assist = ControllerState::new();
    assist.set_button(Button::DPadRight, 600, true);
    let m = AverageMode;
    let changed = ev(P, EventKind::ButtonChanged(Button::DPadRight, 800));
    let out = m.handle_event(&changed, P, A, &primary, &assist);
    assert_eq!(out, Some(vec![OutputEvent::AbsAxis { code: ABS_HAT0X, value: 65535 }]));

    // Counter-input neutralizes: primary right 800, assist left 600 sums
    // to a small positive net toward the right.
    let mut assist = ControllerState::new();
    assist.set_button(Button::DPadLeft, 600, true);
    let changed = ev(A, EventKind::ButtonChanged(Button::DPadLeft, 600));
    let out = m.handle_event(&changed, P, A, &primary, &assist);
    assert_eq!(
        out,
        Some(vec![OutputEvent::AbsAxis { code: ABS_HAT0X, value: scale_stick(200, false) }])
    );
}

#[test]
fn toggle_dpad_uses_active_state_net() {
    // The active controller's net value drives the D-pad axis, with the
    // sign rule picking the direction.
    let mut primary = ControllerState::new();
    primary.set_button(Button::DPadLeft, 700, true);
    let assist = ControllerState::new();
    let mut m = ToggleMode::default();
    let changed = ev(P, EventKind::ButtonChanged(Button::DPadLeft, 700));
    let out = m.handle_event(&changed, P, A, &primary, &assist);
    assert_eq!(
        out,
        Some(vec![OutputEvent::AbsAxis { code: ABS_HAT0X, value: scale_stick(700, true) }])
    );
}

#[test]
fn events_from_other_controllers_are_ignored() {
    let primary = ControllerState::new();
    let assist = ControllerState::new();
    let press = EventKind::ButtonPressed(Button::South);
    assert_eq!(PriorityMode.handle_event(&ev(7, press), P, A, &primary, &assist), None);
    assert_eq!(AverageMode.handle_event(&ev(7, press), P, A, &primary, &assist), None);
    let mut t = ToggleMode::default();
    assert_eq!(t.handle_event(&ev(7, press), P, A, &primary, &assist), None);
}

#[test]
fn unmapped_buttons_are_dropped() {
    let primary = ControllerState::new();
    let assist = ControllerState::new();
    let press = EventKind::ButtonPressed(Button::C);
    assert_eq!(PriorityMode.handle_event(&ev(P, press), P, A, &primary, &assist), None);
    assert_eq!(AverageMode.handle_event(&ev(P, press), P, A, &primary, &assist), None);
}

#[test]
fn engine_dispatches_by_mode() {
    let mut primary = ControllerState::new();
    primary.set_button(Button::South, 1000, true);
    let assist = ControllerState::new();
    // Under priority, an assist press of a button the primary holds is
    // forwarded; under average it is suppressed.
    let press = ev(A, EventKind::ButtonPressed(Button::South));
    let mut m = create_mux_mode(ModeType::Priority);
    let out = m.handle_event(&press, P, A, &primary, &assist);
    assert!(out.is_some());
    let mut m = create_mux_mode(ModeType::Average);
    let out = m.handle_event(&press, P, A, &primary, &assist);
    assert_eq!(out, None);
    let m = create_mux_mode(ModeType::Toggle);
    assert!(matches!(m, MuxMode::Toggle(ToggleMode { active: None })));
}
