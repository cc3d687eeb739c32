//! The average policy: a cooperative blend.  Buttons follow OR semantics,
//! analog controls are blended when both controllers push them at once.

use vstd::prelude::*;
use crate::gamepad::{Axis, Button, ControllerId, ControllerState, EventKind, GamepadEvent};
use crate::translate::{
    dpad_axis_pair, gilrs_button_to_evdev_axis, spec_button_to_abs, spec_dpad_axis_pair,
    OutputEvent,
};
use super::helpers::{
    batch1, batch_view, calculate_dpad_net_value, clamp_milli, create_button_key_event,
    create_dpad_event, create_stick_event, create_trigger_event, half_milli, is_stick_active,
    lemma_dpad_event_sign_rule, map_to_stick_pair, opt_seq, spec_button_key_event,
    spec_clamp_milli, spec_dpad_event, spec_dpad_net, spec_half, spec_map_to_stick_pair,
    spec_stick_active, spec_stick_event, spec_trigger_event, DEADZONE,
};
use crate::translate::spec_scale_stick;

verus! {

/// The stateless average policy.
pub struct AverageMode;

/// Button rule (OR semantics): a press or release from either controller is
/// suppressed while the other controller holds that same button, so
/// releasing a button never de-presses one the other player still holds.
pub open spec fn spec_average_button(
    b: Button,
    pressed: bool,
    src: ControllerId,
    p_id: ControllerId,
    p: &ControllerState,
    a: &ControllerState,
) -> Option<Seq<OutputEvent>> {
    match spec_button_key_event(b, pressed) {
        None => None,
        Some(e) => {
            let other_holding = if src == p_id {
                a.spec_is_pressed(b)
            } else {
                p.spec_is_pressed(b)
            };
            if other_holding {
                None
            } else {
                Some(seq![e])
            }
        },
    }
}

/// Pressure rule: on a D-pad pair, when both controllers are active the net
/// values are summed (clamped back into range); when one is active its value
/// is used; when neither is, the primary's raw value is used.  On a plain
/// trigger the same selection applies with the average instead of the sum.
pub open spec fn spec_average_button_axis(
    b: Button,
    p: &ControllerState,
    a: &ControllerState,
) -> Option<Seq<OutputEvent>> {
    match spec_button_to_abs(b) {
        None => None,
        Some(code) => match spec_dpad_axis_pair(b) {
            Some(pair) => {
                let a_net = spec_dpad_net(a, pair.0, pair.1);
                let p_net = spec_dpad_net(p, pair.0, pair.1);
                let a_active = a_net > 100 || a_net < -100;
                let p_active = p_net > 100 || p_net < -100;
                let fin = if a_active && p_active {
                    spec_clamp_milli(p_net + a_net)
                } else if a_active {
                    a_net
                } else {
                    p_net
                };
                Some(seq![spec_dpad_event(fin, pair.0, pair.1, code)])
            },
            None => {
                let pv = p.spec_button_value(b);
                let av = a.spec_button_value(b);
                let v = if av > 100 && pv > 100 {
                    spec_half(pv + av)
                } else if av > 100 {
                    av
                } else {
                    pv
                };
                Some(seq![spec_trigger_event(v, code)])
            },
        },
    }
}

/// Stick rule: when both controllers push the stick out of its circular
/// deadzone the output is the per-axis average; when one does, its raw
/// values are used; otherwise the primary's.  Both axes of the stick are
/// always re-emitted together.
pub open spec fn spec_average_stick(
    ax: Axis,
    p: &ControllerState,
    a: &ControllerState,
) -> Option<Seq<OutputEvent>> {
    match spec_map_to_stick_pair(ax) {
        None => None,
        Some(pair) => {
            let a_active = spec_stick_active(a, pair.0, pair.1);
            let p_active = spec_stick_active(p, pair.0, pair.1);
            let px = p.spec_axis_value(pair.0);
            let py = p.spec_axis_value(pair.1);
            let qx = a.spec_axis_value(pair.0);
            let qy = a.spec_axis_value(pair.1);
            let vx = if a_active && p_active {
                spec_half(px + qx)
            } else if a_active {
                qx
            } else {
                px
            };
            let vy = if a_active && p_active {
                spec_half(py + qy)
            } else if a_active {
                qy
            } else {
                py
            };
            let evs = opt_seq(spec_stick_event(pair.0, vx)) + opt_seq(
                spec_stick_event(pair.1, vy),
            );
            if evs.len() == 0 {
                None
            } else {
                Some(evs)
            }
        },
    }
}

/// The whole average policy for one event: `None` when the event is
/// irrelevant or suppressed, otherwise the batch to forward (without its
/// trailing synchronization marker).
pub open spec fn spec_average(
    ev: GamepadEvent,
    p_id: ControllerId,
    a_id: ControllerId,
    p: &ControllerState,
    a: &ControllerState,
) -> Option<Seq<OutputEvent>> {
    if ev.id != p_id && ev.id != a_id {
        None
    } else {
        match ev.kind {
            EventKind::ButtonPressed(b) => spec_average_button(b, true, ev.id, p_id, p, a),
            EventKind::ButtonReleased(b) => spec_average_button(b, false, ev.id, p_id, p, a),
            EventKind::ButtonChanged(b, _) => spec_average_button_axis(b, p, a),
            EventKind::AxisChanged(ax, _) => spec_average_stick(ax, p, a),
        }
    }
}

impl AverageMode {
    /// Arbitrate one event under the average rule, reading both controllers'
    /// live state.
    pub fn handle_event(
        &self,
        ev: &GamepadEvent,
        p_id: ControllerId,
        a_id: ControllerId,
        primary: &ControllerState,
        assist: &ControllerState,
    ) -> (r: Option<Vec<OutputEvent>>)
        requires
            p_id != a_id,
            primary.wf(),
            assist.wf(),
        ensures
            batch_view(r) == spec_average(*ev, p_id, a_id, primary, assist),
    {
        if ev.id != p_id && ev.id != a_id {
            return None;
        }
        match ev.kind {
            EventKind::ButtonPressed(b) | EventKind::ButtonReleased(b) => {
                let pressed = matches!(ev.kind, EventKind::ButtonPressed(_));
                match create_button_key_event(b, pressed) {
                    None => None,
                    Some(e) => {
                        let other_holding = if ev.id == p_id {
                            assist.is_pressed(b)
                        } else {
                            primary.is_pressed(b)
                        };
                        if other_holding {
                            None
                        } else {
                            Some(batch1(e))
                        }
                    },
                }
            },
            EventKind::ButtonChanged(b, _) => {
                match gilrs_button_to_evdev_axis(b) {
                    None => None,
                    Some(code) => {
                        match dpad_axis_pair(b) {
                            Some((neg, pos)) => {
                                let a_net = calculate_dpad_net_value(assist, neg, pos);
                                let p_net = calculate_dpad_net_value(primary, neg, pos);
                                let a_active = a_net > DEADZONE || a_net < -DEADZONE;
                                let p_active = p_net > DEADZONE || p_net < -DEADZONE;
                                let fin = if a_active && p_active {
                                    clamp_milli(p_net + a_net)
                                } else if a_active {
                                    a_net
                                } else {
                                    p_net
                                };
                                Some(batch1(create_dpad_event(fin, neg, pos, code)))
                            },
                            None => {
                                let pv = primary.button_value(b);
                                let av = assist.button_value(b);
                                let v = if av > DEADZONE && pv > DEADZONE {
                                    half_milli(pv + av)
                                } else if av > DEADZONE {
                                    av
                                } else {
                                    pv
                                };
                                Some(batch1(create_trigger_event(v, code)))
                            },
                        }
                    },
                }
            },
            EventKind::AxisChanged(ax, _) => {
                match map_to_stick_pair(ax) {
                    None => None,
                    Some((x, y)) => {
                        let a_active = is_stick_active(assist, x, y);
                        let p_active = is_stick_active(primary, x, y);
                        let px = primary.axis_value(x);
                        let py = primary.axis_value(y);
                        let qx = assist.axis_value(x);
                        let qy = assist.axis_value(y);
                        let vx = if a_active && p_active {
                            half_milli(px + qx)
                        } else if a_active {
                            qx
                        } else {
                            px
                        };
                        let vy = if a_active && p_active {
                            half_milli(py + qy)
                        } else if a_active {
                            qy
                        } else {
                            py
                        };
                        let mut v: Vec<OutputEvent> = Vec::new();
                        match create_stick_event(x, vx) {
                            Some(e) => v.push(e),
                            None => (),
                        }
                        match create_stick_event(y, vy) {
                            Some(e) => v.push(e),
                            None => (),
                        }
                        proof {
                            assert(v@ =~= opt_seq(spec_stick_event(x, vx as int)) + opt_seq(
                                spec_stick_event(y, vy as int),
                            ));
                        }
                        if v.len() == 0 {
                            None
                        } else {
                            Some(v)
                        }
                    },
                }
            },
        }
    }
}

/// An average batch never holds a synchronization marker.
pub proof fn lemma_average_no_sync(
    ev: GamepadEvent,
    p_id: ControllerId,
    a_id: ControllerId,
    p: &ControllerState,
    a: &ControllerState,
)
    ensures
        spec_average(ev, p_id, a_id, p, a) matches Some(s) ==> forall|i: int|
            0 <= i < s.len() ==> !((#[trigger] s[i]) is Synchronization),
{
    if ev.id == p_id || ev.id == a_id {
        match ev.kind {
            EventKind::AxisChanged(ax, _) => {
                match spec_map_to_stick_pair(ax) {
                    Some(pair) => {
                        let a_active = spec_stick_active(a, pair.0, pair.1);
                        let p_active = spec_stick_active(p, pair.0, pair.1);
                        let px = p.spec_axis_value(pair.0);
                        let py = p.spec_axis_value(pair.1);
                        let qx = a.spec_axis_value(pair.0);
                        let qy = a.spec_axis_value(pair.1);
                        let vx = if a_active && p_active {
                            spec_half(px + qx)
                        } else if a_active {
                            qx
                        } else {
                            px
                        };
                        let vy = if a_active && p_active {
                            spec_half(py + qy)
                        } else if a_active {
                            qy
                        } else {
                            py
                        };
                        super::helpers::lemma_opt_pair_no_sync(
                            spec_stick_event(pair.0, vx),
                            spec_stick_event(pair.1, vy),
                        );
                    },
                    None => {
                    },
                }
            },
            _ => {
            },
        }
    }
}


/// Button OR invariant: while one controller holds a button, any press or
/// release of that same button from the other controller is suppressed, so
/// the held button is never de-pressed by the other player.
pub proof fn lemma_button_or_suppression(
    ev: GamepadEvent,
    p_id: ControllerId,
    a_id: ControllerId,
    p: &ControllerState,
    a: &ControllerState,
    b: Button,
)
    requires
        p_id != a_id,
        ev.kind == EventKind::ButtonPressed(b) || ev.kind == EventKind::ButtonReleased(b),
        (ev.id == p_id && a.spec_is_pressed(b)) || (ev.id == a_id && p.spec_is_pressed(b)),
    ensures
        spec_average(ev, p_id, a_id, p, a) is None,
{
}


/// Average D-pad rule: when both controllers' net values exceed the
/// deadzone the output follows their sum clamped into range, so either
/// side can neutralize with counter-input; when only one is active its net
/// value is used; when neither is, the primary's raw net.  The selected
/// net's sign picks the direction button for inversion and its absolute
/// value is scaled.
pub proof fn lemma_dpad_blend(
    ev: GamepadEvent,
    p_id: ControllerId,
    a_id: ControllerId,
    p: &ControllerState,
    a: &ControllerState,
    d: Button,
    neg: Button,
    pos: Button,
    code: u16,
)
    requires
        p_id != a_id,
        ev.id == p_id || ev.id == a_id,
        ev.kind matches EventKind::ButtonChanged(bb, _) && bb == d,
        spec_button_to_abs(d) == Some(code),
        spec_dpad_axis_pair(d) == Some((neg, pos)),
    ensures
        ({
            let a_net = spec_dpad_net(a, neg, pos);
            let p_net = spec_dpad_net(p, neg, pos);
            let a_active = a_net > 100 || a_net < -100;
            let p_active = p_net > 100 || p_net < -100;
            let v = if a_active && p_active {
                spec_clamp_milli(p_net + a_net)
            } else if a_active {
                a_net
            } else {
                p_net
            };
            spec_average(ev, p_id, a_id, p, a) == Some(
                seq![
                    (OutputEvent::AbsAxis {
                        code,
                        value: if v > 0 {
                            spec_scale_stick(v, false)
                        } else {
                            spec_scale_stick(-v, true)
                        },
                    }),
                ],
            )
        }),
{
    let a_net = spec_dpad_net(a, neg, pos);
    let p_net = spec_dpad_net(p, neg, pos);
    let a_active = a_net > 100 || a_net < -100;
    let p_active = p_net > 100 || p_net < -100;
    let v = if a_active && p_active {
        spec_clamp_milli(p_net + a_net)
    } else if a_active {
        a_net
    } else {
        p_net
    };
    lemma_dpad_event_sign_rule(v, neg, pos, code);
}


} // verus!
