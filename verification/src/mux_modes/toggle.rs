//! The toggle policy: an exclusive hand-off.  The assist controller flips
//! which controller is active by pressing the mode button; on a flip the
//! policy synthesizes a full state resync so the virtual device matches the
//! newly active controller, and afterwards only the active controller's
//! events are forwarded.

use vstd::prelude::*;
use crate::gamepad::{
    AxisSnapshot, Button, ButtonSnapshot, ControllerId, ControllerState, EventKind, GamepadEvent,
};
use crate::translate::{
    gilrs_button_to_evdev_axis, gilrs_button_to_evdev_key, spec_axis_to_abs, spec_button_to_abs,
    spec_button_to_key, OutputEvent,
};
use super::helpers::{
    batch1, batch_view, create_button_key_event, create_stick_event, opt_seq,
    process_button_axis, spec_button_key_event, spec_process_button_axis, spec_stick_event,
};

verus! {

/// The toggle policy's one piece of state: which controller is currently
/// active.  `None` until the first event, when it is initialized to the
/// primary controller.
pub struct ToggleMode {
    pub active: Option<ControllerId>,
}

impl Default for ToggleMode {
    fn default() -> (r: Self)
        ensures
            r.active is None,
    {
        ToggleMode { active: None }
    }
}

/// Resync fragment for one recorded button: a key press for a held button
/// with a key mapping, except the mode button itself when the assist
/// controller has just become active.
pub open spec fn spec_resync_button_item(e: ButtonSnapshot, skip_mode: bool) -> Seq<OutputEvent> {
    if e.pressed && !(skip_mode && e.button == Button::Mode) {
        match spec_button_to_key(e.button) {
            Some(k) => seq![OutputEvent::Key { code: k, value: 1 }],
            None => Seq::empty(),
        }
    } else {
        Seq::empty()
    }
}

/// Resync events of a button snapshot sequence, in recording order.
pub open spec fn spec_resync_buttons(s: Seq<ButtonSnapshot>, skip_mode: bool) -> Seq<OutputEvent>
    decreases s.len(),
{
    if s.len() == 0 {
        Seq::empty()
    } else {
        spec_resync_buttons(s.drop_last(), skip_mode) + spec_resync_button_item(
            s.last(),
            skip_mode,
        )
    }
}

/// Resync fragment for one recorded axis: an axis event for a displaced
/// (non-centered) axis with an output mapping.
pub open spec fn spec_resync_axis_item(e: AxisSnapshot) -> Seq<OutputEvent> {
    if e.value != 0 {
        opt_seq(spec_stick_event(e.axis, e.value as int))
    } else {
        Seq::empty()
    }
}

/// Resync events of an axis snapshot sequence, in recording order.
pub open spec fn spec_resync_axes(s: Seq<AxisSnapshot>) -> Seq<OutputEvent>
    decreases s.len(),
{
    if s.len() == 0 {
        Seq::empty()
    } else {
        spec_resync_axes(s.drop_last()) + spec_resync_axis_item(s.last())
    }
}

/// The full resync batch for a controller: one event per held mapped button,
/// then one per displaced mapped axis.
pub open spec fn spec_resync_batch(st: &ControllerState, skip_mode: bool) -> Seq<OutputEvent> {
    spec_resync_buttons(st.btns(), skip_mode) + spec_resync_axes(st.axs())
}

/// One step of the toggle policy: the successor state and the output batch.
pub open spec fn spec_toggle_step(
    t: ToggleMode,
    ev: GamepadEvent,
    p_id: ControllerId,
    a_id: ControllerId,
    p: &ControllerState,
    a: &ControllerState,
) -> (ToggleMode, Option<Seq<OutputEvent>>) {
    let active0 = match t.active {
        Some(x) => x,
        None => p_id,
    };
    if ev.id == a_id && ev.kind == EventKind::ButtonPressed(Button::Mode) {
        let new_active = if active0 == p_id {
            a_id
        } else {
            p_id
        };
        let st = if new_active == p_id {
            p
        } else {
            a
        };
        (
            ToggleMode { active: Some(new_active) },
            Some(spec_resync_batch(st, new_active == a_id)),
        )
    } else if ev.id != active0 {
        (ToggleMode { active: Some(active0) }, None)
    } else {
        let st = if active0 == p_id {
            p
        } else {
            a
        };
        let out = match ev.kind {
            EventKind::ButtonPressed(b) => match spec_button_key_event(b, true) {
                Some(e) => Some(seq![e]),
                None => None,
            },
            EventKind::ButtonReleased(b) => match spec_button_key_event(b, false) {
                Some(e) => Some(seq![e]),
                None => None,
            },
            EventKind::ButtonChanged(b, _) => match spec_button_to_abs(b) {
                Some(code) => Some(seq![spec_process_button_axis(b, st, code)]),
                None => None,
            },
            EventKind::AxisChanged(ax, v) => match spec_stick_event(ax, v as int) {
                Some(e) => Some(seq![e]),
                None => None,
            },
        };
        (ToggleMode { active: Some(active0) }, out)
    }
}

/// Build the resync batch of a controller's current state.
pub fn resync_state(st: &ControllerState, skip_mode: bool) -> (v: Vec<OutputEvent>)
    requires
        st.wf(),
    ensures
        v@ == spec_resync_batch(st, skip_mode),
{
    let mut v: Vec<OutputEvent> = Vec::new();
    let nb = st.buttons_len();
    let mut i: usize = 0;
    proof {
        assert(st.btns().take(0) =~= Seq::<ButtonSnapshot>::empty());
    }
    while i < nb
        invariant
            0 <= i <= nb,
            nb == st.btns().len(),
            v@ == spec_resync_buttons(st.btns().take(i as int), skip_mode),
        decreases nb - i,
    {
        let ghost prefix = v@;
        let e = st.button_at(i);
        if e.pressed && !(skip_mode && e.button == Button::Mode) {
            match gilrs_button_to_evdev_key(e.button) {
                Some(k) => v.push(OutputEvent::Key { code: k, value: 1 }),
                None => (),
            }
        }
        proof {
            assert(v@ =~= prefix + spec_resync_button_item(st.btns()[i as int], skip_mode));
            assert(st.btns().take(i + 1).drop_last() =~= st.btns().take(i as int));
            assert(st.btns().take(i + 1).last() == st.btns()[i as int]);
        }
        i = i + 1;
    }
    proof {
        assert(st.btns().take(nb as int) =~= st.btns());
        assert(st.axs().take(0) =~= Seq::<AxisSnapshot>::empty());
        assert(v@ =~= spec_resync_buttons(st.btns(), skip_mode) + spec_resync_axes(
            st.axs().take(0),
        ));
    }
    let na = st.axes_len();
    let mut j: usize = 0;
    while j < na
        invariant
            0 <= j <= na,
            na == st.axs().len(),
            v@ == spec_resync_buttons(st.btns(), skip_mode) + spec_resync_axes(
                st.axs().take(j as int),
            ),
        decreases na - j,
    {
        let ghost prefix = v@;
        let e = st.axis_at(j);
        if e.value != 0 {
            match create_stick_event(e.axis, e.value) {
                Some(ev) => v.push(ev),
                None => (),
            }
        }
        proof {
            assert(v@ =~= prefix + spec_resync_axis_item(st.axs()[j as int]));
            assert(st.axs().take(j + 1).drop_last() =~= st.axs().take(j as int));
            assert(st.axs().take(j + 1).last() == st.axs()[j as int]);
            assert(v@ =~= spec_resync_buttons(st.btns(), skip_mode) + (spec_resync_axes(
                st.axs().take(j as int),
            ) + spec_resync_axis_item(st.axs()[j as int])));
        }
        j = j + 1;
    }
    proof {
        assert(st.axs().take(na as int) =~= st.axs());
    }
    v
}

impl ToggleMode {
    /// Arbitrate one event under the toggle rule.  A mode-button press from
    /// the assist controller flips the active controller and emits the
    /// resync batch; everything else is forwarded only from the active
    /// controller.
    pub fn handle_event(
        &mut self,
        ev: &GamepadEvent,
        p_id: ControllerId,
        a_id: ControllerId,
        primary: &ControllerState,
        assist: &ControllerState,
    ) -> (r: Option<Vec<OutputEvent>>)
        requires
            p_id != a_id,
            ev.wf(),
            primary.wf(),
            assist.wf(),
        ensures
            *final(self) == spec_toggle_step(*old(self), *ev, p_id, a_id, primary, assist).0,
            batch_view(r) == spec_toggle_step(*old(self), *ev, p_id, a_id, primary, assist).1,
    {
        let active0 = match self.active {
            Some(x) => x,
            None => p_id,
        };
        self.active = Some(active0);
        if ev.id == a_id && matches!(ev.kind, EventKind::ButtonPressed(Button::Mode)) {
            let new_active = if active0 == p_id {
                a_id
            } else {
                p_id
            };
            self.active = Some(new_active);
            let st = if new_active == p_id {
                primary
            } else {
                assist
            };
            return Some(resync_state(st, new_active == a_id));
        }
        if ev.id != active0 {
            return None;
        }
        let st = if active0 == p_id {
            primary
        } else {
            assist
        };
        match ev.kind {
            EventKind::ButtonPressed(b) | EventKind::ButtonReleased(b) => {
                let pressed = matches!(ev.kind, EventKind::ButtonPressed(_));
                match create_button_key_event(b, pressed) {
                    Some(e) => Some(batch1(e)),
                    None => None,
                }
            },
            EventKind::ButtonChanged(b, _) => {
                match gilrs_button_to_evdev_axis(b) {
                    Some(code) => Some(batch1(process_button_axis(b, st, code))),
                    None => None,
                }
            },
            EventKind::AxisChanged(ax, v) => {
                match create_stick_event(ax, v) {
                    Some(e) => Some(batch1(e)),
                    None => None,
                }
            },
        }
    }
}

/// No resync button event is a synchronization marker.
proof fn lemma_resync_buttons_no_sync(s: Seq<ButtonSnapshot>, skip_mode: bool)
    ensures
        forall|i: int|
            0 <= i < spec_resync_buttons(s, skip_mode).len() ==> !((
            #[trigger] spec_resync_buttons(s, skip_mode)[i]) is Synchronization),
    decreases s.len(),
{
    if s.len() > 0 {
        lemma_resync_buttons_no_sync(s.drop_last(), skip_mode);
        assert forall|i: int|
            0 <= i < spec_resync_buttons(s, skip_mode).len() implies !((
        #[trigger] spec_resync_buttons(s, skip_mode)[i]) is Synchronization) by {
            let head = spec_resync_buttons(s.drop_last(), skip_mode);
            if i < head.len() {
                assert(spec_resync_buttons(s, skip_mode)[i] == head[i]);
            } else {
                assert(spec_resync_buttons(s, skip_mode)[i] == spec_resync_button_item(
                    s.last(),
                    skip_mode,
                )[i - head.len()]);
            }
        }
    }
}

/// No resync axis event is a synchronization marker.
proof fn lemma_resync_axes_no_sync(s: Seq<AxisSnapshot>)
    ensures
        forall|i: int|
            0 <= i < spec_resync_axes(s).len() ==> !((
            #[trigger] spec_resync_axes(s)[i]) is Synchronization),
    decreases s.len(),
{
    if s.len() > 0 {
        lemma_resync_axes_no_sync(s.drop_last());
        assert forall|i: int|
            0 <= i < spec_resync_axes(s).len() implies !((
        #[trigger] spec_resync_axes(s)[i]) is Synchronization) by {
            let head = spec_resync_axes(s.drop_last());
            if i < head.len() {
                assert(spec_resync_axes(s)[i] == head[i]);
            } else {
                assert(spec_resync_axes(s)[i] == spec_resync_axis_item(s.last())[i - head.len()]);
            }
        }
    }
}

/// A resync batch never holds a synchronization marker: the marker is
/// appended exactly once per written batch, by the input loop step.
pub proof fn lemma_resync_batch_no_sync(st: &ControllerState, skip_mode: bool)
    ensures
        forall|i: int|
            0 <= i < spec_resync_batch(st, skip_mode).len() ==> !((
            #[trigger] spec_resync_batch(st, skip_mode)[i]) is Synchronization),
{
    lemma_resync_buttons_no_sync(st.btns(), skip_mode);
    lemma_resync_axes_no_sync(st.axs());
}


/// Number of buttons a resync emits for: held, mapped to a key, and not
/// the skipped toggle button.
pub open spec fn spec_resync_button_count(s: Seq<ButtonSnapshot>, skip_mode: bool) -> int
    decreases s.len(),
{
    if s.len() == 0 {
        0
    } else {
        spec_resync_button_count(s.drop_last(), skip_mode) + (if s.last().pressed && !(skip_mode
            && s.last().button == Button::Mode) && spec_button_to_key(s.last().button) is Some {
            1int
        } else {
            0int
        })
    }
}

/// Number of axes a resync emits for: displaced and mapped.
pub open spec fn spec_resync_axis_count(s: Seq<AxisSnapshot>) -> int
    decreases s.len(),
{
    if s.len() == 0 {
        0
    } else {
        spec_resync_axis_count(s.drop_last()) + (if s.last().value != 0 && spec_axis_to_abs(
            s.last().axis,
        ) is Some {
            1int
        } else {
            0int
        })
    }
}

/// The key press a resync emits for a held button.
pub open spec fn spec_key_press(b: Button) -> OutputEvent {
    OutputEvent::Key { code: spec_button_to_key(b).unwrap(), value: 1 }
}

proof fn lemma_resync_buttons_len(s: Seq<ButtonSnapshot>, skip_mode: bool)
    ensures
        spec_resync_buttons(s, skip_mode).len() == spec_resync_button_count(s, skip_mode),
    decreases s.len(),
{
    if s.len() > 0 {
        lemma_resync_buttons_len(s.drop_last(), skip_mode);
    }
}

proof fn lemma_resync_axes_len(s: Seq<AxisSnapshot>)
    ensures
        spec_resync_axes(s).len() == spec_resync_axis_count(s),
    decreases s.len(),
{
    if s.len() > 0 {
        lemma_resync_axes_len(s.drop_last());
    }
}

proof fn lemma_resync_buttons_complete(s: Seq<ButtonSnapshot>, skip_mode: bool)
    ensures
        forall|i: int|
            0 <= i < s.len() && (#[trigger] s[i]).pressed && spec_button_to_key(s[i].button)
                is Some && !(skip_mode && s[i].button == Button::Mode)
                ==> spec_resync_buttons(s, skip_mode).contains(spec_key_press(s[i].button)),
    decreases s.len(),
{
    if s.len() > 0 {
        lemma_resync_buttons_complete(s.drop_last(), skip_mode);
        let head = spec_resync_buttons(s.drop_last(), skip_mode);
        let whole = spec_resync_buttons(s, skip_mode);
        assert forall|i: int|
            0 <= i < s.len() && (#[trigger] s[i]).pressed && spec_button_to_key(s[i].button)
                is Some && !(skip_mode && s[i].button == Button::Mode) implies whole.contains(
            spec_key_press(s[i].button)) by {
            if i < s.len() - 1 {
                assert(s.drop_last()[i] == s[i]);
                assert(head.contains(spec_key_press(s[i].button)));
                let k = choose|k: int| 0 <= k < head.len() && head[k] == spec_key_press(
                    s[i].button,
                );
                assert(whole[k] == spec_key_press(s[i].button));
            } else {
                assert(spec_resync_button_item(s.last(), skip_mode) == seq![
                    spec_key_press(s.last().button),
                ]);
                assert(whole[head.len() as int] == spec_key_press(s.last().button));
            }
        }
    }
}

proof fn lemma_resync_buttons_skip_mode(s: Seq<ButtonSnapshot>)
    ensures
        forall|j: int|
            0 <= j < spec_resync_buttons(s, true).len() ==> (#[trigger] spec_resync_buttons(
                s,
                true,
            )[j]) != spec_key_press(Button::Mode),
    decreases s.len(),
{
    if s.len() > 0 {
        lemma_resync_buttons_skip_mode(s.drop_last());
        let head = spec_resync_buttons(s.drop_last(), true);
        assert forall|j: int|
            0 <= j < spec_resync_buttons(s, true).len() implies (#[trigger] spec_resync_buttons(
            s,
            true,
        )[j]) != spec_key_press(Button::Mode) by {
            if j < head.len() {
                assert(spec_resync_buttons(s, true)[j] == head[j]);
            } else {
                let item = spec_resync_button_item(s.last(), true);
                assert(spec_resync_buttons(s, true)[j] == item[j - head.len()]);
                assert(s.last().button != Button::Mode);
            }
        }
    }
}

proof fn lemma_resync_axes_no_key(s: Seq<AxisSnapshot>)
    ensures
        forall|j: int|
            0 <= j < spec_resync_axes(s).len() ==> !((#[trigger] spec_resync_axes(s)[j]) is Key),
    decreases s.len(),
{
    if s.len() > 0 {
        lemma_resync_axes_no_key(s.drop_last());
        let head = spec_resync_axes(s.drop_last());
        assert forall|j: int|
            0 <= j < spec_resync_axes(s).len() implies !((#[trigger] spec_resync_axes(s)[j])
            is Key) by {
            if j < head.len() {
                assert(spec_resync_axes(s)[j] == head[j]);
            } else {
                assert(spec_resync_axes(s)[j] == spec_resync_axis_item(s.last())[j - head.len()]);
            }
        }
    }
}

/// Toggle resync completeness: after a flip the batch holds exactly one
/// output event per held mapped button plus one per displaced mapped axis
/// of the newly active controller; it contains the key press of every such
/// button; and when the assist controller becomes active the toggle button
/// itself is excluded — no event of the batch presses it.
pub proof fn lemma_toggle_resync_completeness(st: &ControllerState, skip_mode: bool)
    ensures
        spec_resync_batch(st, skip_mode).len() == spec_resync_button_count(st.btns(), skip_mode)
            + spec_resync_axis_count(st.axs()),
        forall|i: int|
            0 <= i < st.btns().len() && (#[trigger] st.btns()[i]).pressed && spec_button_to_key(
                st.btns()[i].button,
            ) is Some && !(skip_mode && st.btns()[i].button == Button::Mode)
                ==> spec_resync_batch(st, skip_mode).contains(spec_key_press(st.btns()[i].button)),
        skip_mode ==> forall|j: int|
            0 <= j < spec_resync_batch(st, skip_mode).len() ==> (#[trigger] spec_resync_batch(
                st,
                skip_mode,
            )[j]) != spec_key_press(Button::Mode),
{
    lemma_resync_buttons_len(st.btns(), skip_mode);
    lemma_resync_axes_len(st.axs());
    lemma_resync_buttons_complete(st.btns(), skip_mode);
    let bpart = spec_resync_buttons(st.btns(), skip_mode);
    let apart = spec_resync_axes(st.axs());
    let batch = spec_resync_batch(st, skip_mode);
    assert forall|i: int|
        0 <= i < st.btns().len() && (#[trigger] st.btns()[i]).pressed && spec_button_to_key(
            st.btns()[i].button,
        ) is Some && !(skip_mode && st.btns()[i].button == Button::Mode) implies batch.contains(
        spec_key_press(st.btns()[i].button)) by {
        let k = choose|k: int| 0 <= k < bpart.len() && bpart[k] == spec_key_press(
            st.btns()[i].button,
        );
        assert(batch[k] == spec_key_press(st.btns()[i].button));
    }
    if skip_mode {
        lemma_resync_buttons_skip_mode(st.btns());
        lemma_resync_axes_no_key(st.axs());
        assert forall|j: int| 0 <= j < batch.len() implies (#[trigger] batch[j])
            != spec_key_press(Button::Mode) by {
            if j < bpart.len() {
                assert(batch[j] == bpart[j]);
            } else {
                assert(batch[j] == apart[j - bpart.len()]);
            }
        }
    }
}


} // verus!
