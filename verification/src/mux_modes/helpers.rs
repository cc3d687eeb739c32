//! Shared pieces of the three arbitration policies: the deadzone rule, the
//! D-pad net value, stick activity, and the builders of output events.

use vstd::prelude::*;
use crate::gamepad::{Axis, Button, ControllerState};
use crate::translate::{
    is_inverted_dpad, scale_stick, scale_trigger, spec_axis_to_abs, spec_button_to_key,
    spec_dpad_axis_pair, spec_is_inverted_dpad, spec_is_y_axis, spec_scale_stick,
    spec_scale_trigger, OutputEvent,
};
use crate::translate::{dpad_axis_pair, gilrs_axis_to_evdev_axis, gilrs_button_to_evdev_key};

verus! {

/// Magnitude (in thousandths) below which an axis or trigger counts as not
/// actively pushed.
pub const DEADZONE: i32 = 100;

/// Net signed D-pad value of one controller along an axis pair:
/// `positive button value - negative button value`.
pub open spec fn spec_dpad_net(st: &ControllerState, neg: Button, pos: Button) -> int {
    st.spec_button_value(pos) - st.spec_button_value(neg)
}

/// Calculate the net axis value for a D-pad pair, in `[-1000, 1000]`.
pub fn calculate_dpad_net_value(st: &ControllerState, neg: Button, pos: Button) -> (r: i32)
    requires
        st.wf(),
    ensures
        r as int == spec_dpad_net(st, neg, pos),
        -1000 <= r <= 1000,
{
    st.button_value(pos) - st.button_value(neg)
}

/// Whether a stick is pushed out of its circular deadzone:
/// `x^2 + y^2 > deadzone^2`.
pub open spec fn spec_stick_active(st: &ControllerState, x: Axis, y: Axis) -> bool {
    let xv = st.spec_axis_value(x);
    let yv = st.spec_axis_value(y);
    xv * xv + yv * yv > 10000
}

/// Check if a stick is active using the circular deadzone.
pub fn is_stick_active(st: &ControllerState, x: Axis, y: Axis) -> (r: bool)
    requires
        st.wf(),
    ensures
        r == spec_stick_active(st, x, y),
{
    let xv = st.axis_value(x);
    let yv = st.axis_value(y);
    proof {
        assert(0 <= xv * xv <= 1000000 && 0 <= yv * yv <= 1000000) by (nonlinear_arith)
            requires
                -1000 <= xv <= 1000,
                -1000 <= yv <= 1000,
        ;
    }
    xv * xv + yv * yv > DEADZONE * DEADZONE
}

/// The two axes of the stick an axis belongs to, `None` for a non-stick
/// axis.
pub open spec fn spec_map_to_stick_pair(a: Axis) -> Option<(Axis, Axis)> {
    match a {
        Axis::LeftStickX => Some((Axis::LeftStickX, Axis::LeftStickY)),
        Axis::LeftStickY => Some((Axis::LeftStickX, Axis::LeftStickY)),
        Axis::RightStickX => Some((Axis::RightStickX, Axis::RightStickY)),
        Axis::RightStickY => Some((Axis::RightStickX, Axis::RightStickY)),
        _ => None,
    }
}

/// Map an axis to its stick pair (X and Y).
pub fn map_to_stick_pair(a: Axis) -> (r: Option<(Axis, Axis)>)
    ensures
        r == spec_map_to_stick_pair(a),
{
    match a {
        Axis::LeftStickX | Axis::LeftStickY => Some((Axis::LeftStickX, Axis::LeftStickY)),
        Axis::RightStickX | Axis::RightStickY => Some((Axis::RightStickX, Axis::RightStickY)),
        _ => None,
    }
}

/// Halve toward zero, the blend used when both controllers drive the same
/// analog control.
pub open spec fn spec_half(s: int) -> int {
    if s >= 0 {
        s / 2
    } else {
        -((-s) / 2)
    }
}

pub fn half_milli(s: i32) -> (r: i32)
    requires
        -2000 <= s <= 2000,
    ensures
        r as int == spec_half(s as int),
        -1000 <= r <= 1000,
{
    if s >= 0 {
        ((s as u32) / 2) as i32
    } else {
        let m: u32 = (-s) as u32;
        -((m / 2) as i32)
    }
}

/// Clamp a summed net value back into the normalized range.
pub open spec fn spec_clamp_milli(v: int) -> int {
    if v > 1000 {
        1000
    } else if v < -1000 {
        -1000
    } else {
        v
    }
}

pub fn clamp_milli(v: i32) -> (r: i32)
    requires
        -2000 <= v <= 2000,
    ensures
        r as int == spec_clamp_milli(v as int),
        -1000 <= r <= 1000,
{
    if v > 1000 {
        1000
    } else if v < -1000 {
        -1000
    } else {
        v
    }
}

/// Key press or release for a button, `None` when the button has no key
/// mapping.
pub open spec fn spec_button_key_event(b: Button, pressed: bool) -> Option<OutputEvent> {
    match spec_button_to_key(b) {
        Some(k) => Some(
            OutputEvent::Key {
                code: k,
                value: if pressed {
                    1
                } else {
                    0
                },
            },
        ),
        None => None,
    }
}

/// Create an output event for a button key press/release.
pub fn create_button_key_event(b: Button, pressed: bool) -> (r: Option<OutputEvent>)
    ensures
        r == spec_button_key_event(b, pressed),
{
    match gilrs_button_to_evdev_key(b) {
        Some(k) => Some(
            OutputEvent::Key {
                code: k,
                value: if pressed {
                    1
                } else {
                    0
                },
            },
        ),
        None => None,
    }
}

/// Axis event for a D-pad net value: the net value's sign selects which
/// direction button is active (which decides inversion), and its absolute
/// value is scaled as a stick.  A zero net lands on center either way.
pub open spec fn spec_dpad_event(net: int, neg: Button, pos: Button, code: u16) -> OutputEvent {
    if net > 0 {
        OutputEvent::AbsAxis { code, value: spec_scale_stick(net, spec_is_inverted_dpad(pos)) }
    } else {
        OutputEvent::AbsAxis { code, value: spec_scale_stick(-net, spec_is_inverted_dpad(neg)) }
    }
}

/// Create the output event for a D-pad axis.
pub fn create_dpad_event(net: i32, neg: Button, pos: Button, code: u16) -> (r: OutputEvent)
    requires
        -1000 <= net <= 1000,
    ensures
        r == spec_dpad_event(net as int, neg, pos, code),
{
    let (active, mag) = if net > 0 {
        (pos, net)
    } else {
        (neg, -net)
    };
    let invert = is_inverted_dpad(active);
    OutputEvent::AbsAxis { code, value: scale_stick(mag, invert) }
}

/// Axis event for a plain trigger value.
pub open spec fn spec_trigger_event(value: int, code: u16) -> OutputEvent {
    OutputEvent::AbsAxis { code, value: spec_scale_trigger(value) }
}

/// Create the output event for a trigger axis.
pub fn create_trigger_event(value: i32, code: u16) -> (r: OutputEvent)
    requires
        0 <= value <= 1000,
    ensures
        r == spec_trigger_event(value as int, code),
{
    OutputEvent::AbsAxis { code, value: scale_trigger(value) }
}

/// Axis event for a stick axis value, `None` when the axis has no mapping.
/// Vertical stick axes are inverted.
pub open spec fn spec_stick_event(a: Axis, value: int) -> Option<OutputEvent> {
    match spec_axis_to_abs(a) {
        Some(code) => Some(
            OutputEvent::AbsAxis { code, value: spec_scale_stick(value, spec_is_y_axis(a)) },
        ),
        None => None,
    }
}

/// Create the output event for a stick axis.
pub fn create_stick_event(a: Axis, value: i32) -> (r: Option<OutputEvent>)
    requires
        -1000 <= value <= 1000,
    ensures
        r == spec_stick_event(a, value as int),
{
    match gilrs_axis_to_evdev_axis(a) {
        Some(code) => {
            let is_y = crate::translate::is_y_axis(a);
            Some(OutputEvent::AbsAxis { code, value: scale_stick(value, is_y) })
        },
        None => None,
    }
}

/// A possibly-missing output event as a batch fragment.
pub open spec fn opt_seq(o: Option<OutputEvent>) -> Seq<OutputEvent> {
    match o {
        Some(e) => seq![e],
        None => Seq::empty(),
    }
}

/// The sequence of events behind an arbitration result: `None` means no
/// output at all.
pub open spec fn batch_view(r: Option<Vec<OutputEvent>>) -> Option<Seq<OutputEvent>> {
    match r {
        Some(v) => Some(v@),
        None => None,
    }
}

/// A batch of exactly one event.
pub fn batch1(e: OutputEvent) -> (v: Vec<OutputEvent>)
    ensures
        v@ == seq![e],
{
    let mut v: Vec<OutputEvent> = Vec::new();
    v.push(e);
    proof {
        assert(v@ =~= seq![e]);
    }
    v
}

/// Output event of one controller for a button that maps to an axis: the
/// D-pad net rule where the button is part of a D-pad pair, the plain
/// trigger rule otherwise.
pub open spec fn spec_process_button_axis(b: Button, st: &ControllerState, code: u16) -> OutputEvent {
    match spec_dpad_axis_pair(b) {
        Some(p) => spec_dpad_event(spec_dpad_net(st, p.0, p.1), p.0, p.1, code),
        None => spec_trigger_event(st.spec_button_value(b), code),
    }
}

/// Process a button that maps to an axis (D-pad or trigger).
pub fn process_button_axis(b: Button, st: &ControllerState, code: u16) -> (r: OutputEvent)
    requires
        st.wf(),
    ensures
        r == spec_process_button_axis(b, st, code),
{
    match dpad_axis_pair(b) {
        Some(p) => {
            let net = calculate_dpad_net_value(st, p.0, p.1);
            create_dpad_event(net, p.0, p.1, code)
        },
        None => {
            let value = st.button_value(b);
            create_trigger_event(value, code)
        },
    }
}


/// On a real D-pad pair — the negative direction button is the inverted
/// one — the emitted value follows the net value's sign: a positive net is
/// scaled straight toward the positive direction, a non-positive net has
/// its magnitude scaled through the inverted negative direction.
pub proof fn lemma_dpad_event_sign_rule(net: int, neg: Button, pos: Button, code: u16)
    requires
        spec_is_inverted_dpad(neg),
        !spec_is_inverted_dpad(pos),
    ensures
        spec_dpad_event(net, neg, pos, code) == (OutputEvent::AbsAxis {
            code,
            value: if net > 0 {
                spec_scale_stick(net, false)
            } else {
                spec_scale_stick(-net, true)
            },
        }),
{
}

/// Concatenating two optional single events yields no synchronization
/// marker when neither event is one.
pub proof fn lemma_opt_pair_no_sync(e1: Option<OutputEvent>, e2: Option<OutputEvent>)
    requires
        e1 matches Some(e) ==> !(e is Synchronization),
        e2 matches Some(e) ==> !(e is Synchronization),
    ensures
        forall|i: int|
            0 <= i < (opt_seq(e1) + opt_seq(e2)).len() ==> !((#[trigger] (opt_seq(e1) + opt_seq(
                e2,
            ))[i]) is Synchronization),
{
    assert forall|i: int|
        0 <= i < (opt_seq(e1) + opt_seq(e2)).len() implies !((#[trigger] (opt_seq(e1) + opt_seq(
        e2,
    ))[i]) is Synchronization) by {
        if i < opt_seq(e1).len() {
            assert((opt_seq(e1) + opt_seq(e2))[i] == opt_seq(e1)[i]);
        } else {
            assert((opt_seq(e1) + opt_seq(e2))[i] == opt_seq(e2)[i - opt_seq(e1).len()]);
        }
    }
}


} // verus!
