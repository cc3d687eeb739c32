//! The priority policy: the assist controller overrides the primary one
//! wherever it is actively pushing, and control falls back to the primary
//! controller the instant the assist lets go.

use vstd::prelude::*;
use crate::gamepad::{Axis, Button, ControllerId, ControllerState, EventKind, GamepadEvent};
use crate::translate::{
    dpad_axis_pair, gilrs_button_to_evdev_axis, spec_button_to_abs, spec_dpad_axis_pair,
    OutputEvent,
};
use super::helpers::{
    batch1, batch_view, calculate_dpad_net_value, create_button_key_event, create_dpad_event,
    create_stick_event, create_trigger_event, is_stick_active, lemma_dpad_event_sign_rule,
    map_to_stick_pair, opt_seq, spec_button_key_event, spec_dpad_event, spec_dpad_net,
    spec_map_to_stick_pair, spec_stick_active, spec_stick_event, spec_trigger_event, DEADZONE,
};
use crate::translate::spec_scale_stick;

verus! {

/// The stateless priority policy.
pub struct PriorityMode;

/// Button rule: an assist press or release is always forwarded; a primary
/// press or release is suppressed while assist holds the same button.
pub open spec fn spec_priority_button(
    b: Button,
    pressed: bool,
    src: ControllerId,
    p_id: ControllerId,
    p: &ControllerState,
    a: &ControllerState,
) -> Option<Seq<OutputEvent>> {
    match spec_button_key_event(b, pressed) {
        None => None,
        Some(e) => {
            let other_holding = if src == p_id {
                a.spec_is_pressed(b)
            } else {
                p.spec_is_pressed(b)
            };
            if other_holding && src == p_id {
                None
            } else {
                Some(seq![e])
            }
        },
    }
}

/// Pressure rule: on a D-pad pair the assist's net value wins outright when
/// it is outside the deadzone, otherwise the primary's net value is used; on
/// a plain trigger the higher of the two values wins.
pub open spec fn spec_priority_button_axis(
    b: Button,
    p: &ControllerState,
    a: &ControllerState,
) -> Option<Seq<OutputEvent>> {
    match spec_button_to_abs(b) {
        None => None,
        Some(code) => match spec_dpad_axis_pair(b) {
            Some(pair) => {
                let a_net = spec_dpad_net(a, pair.0, pair.1);
                let p_net = spec_dpad_net(p, pair.0, pair.1);
                let fin = if a_net > 100 || a_net < -100 {
                    a_net
                } else {
                    p_net
                };
                Some(seq![spec_dpad_event(fin, pair.0, pair.1, code)])
            },
            None => {
                let pv = p.spec_button_value(b);
                let av = a.spec_button_value(b);
                let v = if pv >= av {
                    pv
                } else {
                    av
                };
                Some(seq![spec_trigger_event(v, code)])
            },
        },
    }
}

/// Stick rule: when the assist's stick is outside the circular deadzone the
/// assist owns the whole stick and primary movements are suppressed;
/// otherwise the primary owns it.  Both axes of the stick are re-emitted
/// from the owner.
pub open spec fn spec_priority_stick(
    ax: Axis,
    src: ControllerId,
    p_id: ControllerId,
    p: &ControllerState,
    a: &ControllerState,
) -> Option<Seq<OutputEvent>> {
    match spec_map_to_stick_pair(ax) {
        None => None,
        Some(pair) => {
            let assist_active = spec_stick_active(a, pair.0, pair.1);
            if src == p_id && assist_active {
                None
            } else {
                let owner = if assist_active {
                    a
                } else {
                    p
                };
                let evs = opt_seq(spec_stick_event(pair.0, owner.spec_axis_value(pair.0)))
                    + opt_seq(spec_stick_event(pair.1, owner.spec_axis_value(pair.1)));
                if evs.len() == 0 {
                    None
                } else {
                    Some(evs)
                }
            }
        },
    }
}

/// The whole priority policy for one event: `None` when the event is
/// irrelevant or suppressed, otherwise the batch to forward (without its
/// trailing synchronization marker).
pub open spec fn spec_priority(
    ev: GamepadEvent,
    p_id: ControllerId,
    a_id: ControllerId,
    p: &ControllerState,
    a: &ControllerState,
) -> Option<Seq<OutputEvent>> {
    if ev.id != p_id && ev.id != a_id {
        None
    } else {
        match ev.kind {
            EventKind::ButtonPressed(b) => spec_priority_button(b, true, ev.id, p_id, p, a),
            EventKind::ButtonReleased(b) => spec_priority_button(b, false, ev.id, p_id, p, a),
            EventKind::ButtonChanged(b, _) => spec_priority_button_axis(b, p, a),
            EventKind::AxisChanged(ax, _) => spec_priority_stick(ax, ev.id, p_id, p, a),
        }
    }
}

impl PriorityMode {
    /// Arbitrate one event under the priority rule, reading both
    /// controllers' live state.
    pub fn handle_event(
        &self,
        ev: &GamepadEvent,
        p_id: ControllerId,
        a_id: ControllerId,
        primary: &ControllerState,
        assist: &ControllerState,
    ) -> (r: Option<Vec<OutputEvent>>)
        requires
            p_id != a_id,
            primary.wf(),
            assist.wf(),
        ensures
            batch_view(r) == spec_priority(*ev, p_id, a_id, primary, assist),
    {
        if ev.id != p_id && ev.id != a_id {
            return None;
        }
        match ev.kind {
            EventKind::ButtonPressed(b) | EventKind::ButtonReleased(b) => {
                let pressed = matches!(ev.kind, EventKind::ButtonPressed(_));
                match create_button_key_event(b, pressed) {
                    None => None,
                    Some(e) => {
                        let other_holding = if ev.id == p_id {
                            assist.is_pressed(b)
                        } else {
                            primary.is_pressed(b)
                        };
                        if other_holding && ev.id == p_id {
                            None
                        } else {
                            Some(batch1(e))
                        }
                    },
                }
            },
            EventKind::ButtonChanged(b, _) => {
                match gilrs_button_to_evdev_axis(b) {
                    None => None,
                    Some(code) => {
                        match dpad_axis_pair(b) {
                            Some((neg, pos)) => {
                                let a_net = calculate_dpad_net_value(assist, neg, pos);
                                let p_net = calculate_dpad_net_value(primary, neg, pos);
                                let fin = if a_net > DEADZONE || a_net < -DEADZONE {
                                    a_net
                                } else {
                                    p_net
                                };
                                Some(batch1(create_dpad_event(fin, neg, pos, code)))
                            },
                            None => {
                                let pv = primary.button_value(b);
                                let av = assist.button_value(b);
                                let v = if pv >= av {
                                    pv
                                } else {
                                    av
                                };
                                Some(batch1(create_trigger_event(v, code)))
                            },
                        }
                    },
                }
            },
            EventKind::AxisChanged(ax, _) => {
                match map_to_stick_pair(ax) {
                    None => None,
                    Some((x, y)) => {
                        let assist_active = is_stick_active(assist, x, y);
                        if ev.id == p_id && assist_active {
                            None
                        } else {
                            let owner = if assist_active {
                                assist
                            } else {
                                primary
                            };
                            let mut v: Vec<OutputEvent> = Vec::new();
                            match create_stick_event(x, owner.axis_value(x)) {
                                Some(e) => v.push(e),
                                None => (),
                            }
                            match create_stick_event(y, owner.axis_value(y)) {
                                Some(e) => v.push(e),
                                None => (),
                            }
                            proof {
                                assert(v@ =~= opt_seq(
                                    spec_stick_event(x, owner.spec_axis_value(x)),
                                ) + opt_seq(spec_stick_event(y, owner.spec_axis_value(y))));
                            }
                            if v.len() == 0 {
                                None
                            } else {
                                Some(v)
                            }
                        }
                    },
                }
            },
        }
    }
}

/// A priority batch never holds a synchronization marker.
pub proof fn lemma_priority_no_sync(
    ev: GamepadEvent,
    p_id: ControllerId,
    a_id: ControllerId,
    p: &ControllerState,
    a: &ControllerState,
)
    ensures
        spec_priority(ev, p_id, a_id, p, a) matches Some(s) ==> forall|i: int|
            0 <= i < s.len() ==> !((#[trigger] s[i]) is Synchronization),
{
    if ev.id == p_id || ev.id == a_id {
        match ev.kind {
            EventKind::AxisChanged(ax, _) => {
                match spec_map_to_stick_pair(ax) {
                    Some(pair) => {
                        let assist_active = spec_stick_active(a, pair.0, pair.1);
                        let owner = if assist_active {
                            a
                        } else {
                            p
                        };
                        super::helpers::lemma_opt_pair_no_sync(
                            spec_stick_event(pair.0, owner.spec_axis_value(pair.0)),
                            spec_stick_event(pair.1, owner.spec_axis_value(pair.1)),
                        );
                    },
                    None => {
                    },
                }
            },
            _ => {
            },
        }
    }
}


/// Priority override and fallback: on a plain trigger the assist's scaled
/// value is the output exactly while it exceeds the primary's, and the
/// output is the primary's scaled value again on the very next event after
/// the assist's value drops to or below it.
pub proof fn lemma_trigger_override_and_fallback(
    ev: GamepadEvent,
    p_id: ControllerId,
    a_id: ControllerId,
    p: &ControllerState,
    a: &ControllerState,
    b: Button,
    code: u16,
)
    requires
        p_id != a_id,
        ev.id == p_id || ev.id == a_id,
        ev.kind matches EventKind::ButtonChanged(bb, _) && bb == b,
        spec_button_to_abs(b) == Some(code),
        spec_dpad_axis_pair(b) is None,
    ensures
        spec_priority(ev, p_id, a_id, p, a) == Some(
            seq![
                spec_trigger_event(
                    if p.spec_button_value(b) >= a.spec_button_value(b) {
                        p.spec_button_value(b)
                    } else {
                        a.spec_button_value(b)
                    },
                    code,
                ),
            ],
        ),
        a.spec_button_value(b) > p.spec_button_value(b) ==> spec_priority(ev, p_id, a_id, p, a)
            == Some(seq![spec_trigger_event(a.spec_button_value(b), code)]),
        a.spec_button_value(b) <= p.spec_button_value(b) ==> spec_priority(ev, p_id, a_id, p, a)
            == Some(seq![spec_trigger_event(p.spec_button_value(b), code)]),
{
}


/// Priority D-pad rule: the assist's net value wins outright while its
/// magnitude exceeds the deadzone, otherwise the primary's net value is
/// used — override and return to primary happen within one event.  The
/// winning net's sign selects the direction button for inversion and its
/// absolute value is scaled.
pub proof fn lemma_dpad_override_and_fallback(
    ev: GamepadEvent,
    p_id: ControllerId,
    a_id: ControllerId,
    p: &ControllerState,
    a: &ControllerState,
    d: Button,
    neg: Button,
    pos: Button,
    code: u16,
)
    requires
        p_id != a_id,
        ev.id == p_id || ev.id == a_id,
        ev.kind matches EventKind::ButtonChanged(bb, _) && bb == d,
        spec_button_to_abs(d) == Some(code),
        spec_dpad_axis_pair(d) == Some((neg, pos)),
    ensures
        ({
            let a_net = spec_dpad_net(a, neg, pos);
            let p_net = spec_dpad_net(p, neg, pos);
            let v = if a_net > 100 || a_net < -100 {
                a_net
            } else {
                p_net
            };
            spec_priority(ev, p_id, a_id, p, a) == Some(
                seq![
                    (OutputEvent::AbsAxis {
                        code,
                        value: if v > 0 {
                            spec_scale_stick(v, false)
                        } else {
                            spec_scale_stick(-v, true)
                        },
                    }),
                ],
            )
        }),
{
    let a_net = spec_dpad_net(a, neg, pos);
    let p_net = spec_dpad_net(p, neg, pos);
    let v = if a_net > 100 || a_net < -100 {
        a_net
    } else {
        p_net
    };
    lemma_dpad_event_sign_rule(v, neg, pos, code);
}


} // verus!
