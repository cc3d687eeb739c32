//! The decision core of the two runtime loops: the live-reconfigurable
//! settings record, the input loop's per-event step (arbitrate, then
//! terminate a non-empty batch with exactly one synchronization marker),
//! and the choice of force-feedback targets.
//!
//! The loops themselves — waiting for gamepad events, writing to the
//! virtual device, polling the force-feedback queue — are I/O and live in
//! the binary around the library, which shares one `RuntimeSettings` under
//! a lock and calls these steps every iteration.

use vstd::prelude::*;
use crate::gamepad::{ControllerId, ControllerState, GamepadEvent};
use crate::mux_modes::{
    lemma_step_output_no_sync, spec_create_mux_mode, spec_mux_step, ModeType, MuxMode,
};
use crate::mux_modes::helpers::batch_view;
use crate::mux_modes::create_mux_mode;
use crate::translate::OutputEvent;
use crate::RumbleTarget;

verus! {

/// Runtime-updatable session settings: the arbitration policy and the
/// rumble target.  Both loops read it every iteration; the control surface
/// mutates it.  The caller shares it under a lock so that a reader never
/// observes a half-written value.
pub struct RuntimeSettings {
    mode: ModeType,
    rumble: RumbleTarget,
}

impl RuntimeSettings {
    pub closed spec fn spec_mode(&self) -> ModeType {
        self.mode
    }

    pub closed spec fn spec_rumble(&self) -> RumbleTarget {
        self.rumble
    }

    pub fn new(mode: ModeType, rumble: RumbleTarget) -> (r: Self)
        ensures
            r.spec_mode() == mode,
            r.spec_rumble() == rumble,
    {
        RuntimeSettings { mode, rumble }
    }

    /// Switch the arbitration policy; returns the policy it replaces.
    pub fn update_mode(&mut self, new_mode: ModeType) -> (old_mode: ModeType)
        ensures
            old_mode == old(self).spec_mode(),
            final(self).spec_mode() == new_mode,
            final(self).spec_rumble() == old(self).spec_rumble(),
    {
        let old_mode = self.mode;
        self.mode = new_mode;
        old_mode
    }

    /// Switch the rumble target; returns the target it replaces.
    pub fn update_rumble(&mut self, new_rumble: RumbleTarget) -> (old_rumble: RumbleTarget)
        ensures
            old_rumble == old(self).spec_rumble(),
            final(self).spec_rumble() == new_rumble,
            final(self).spec_mode() == old(self).spec_mode(),
    {
        let old_rumble = self.rumble;
        self.rumble = new_rumble;
        old_rumble
    }

    pub fn get_mode(&self) -> (r: ModeType)
        ensures
            r == self.spec_mode(),
    {
        self.mode
    }

    pub fn get_rumble(&self) -> (r: RumbleTarget)
        ensures
            r == self.spec_rumble(),
    {
        self.rumble
    }
}

/// The input loop's per-iteration settings check: rebuild the arbitration
/// engine exactly when the requested policy differs from the one last seen.
/// Policy instances are cheap and carry at most one small state field, so a
/// rebuild also resets the toggle policy's active controller.
pub fn refresh_mode(mode: &mut MuxMode, last: &mut ModeType, requested: ModeType) -> (changed:
    bool)
    ensures
        changed == (requested != *old(last)),
        *final(last) == requested,
        changed ==> *final(mode) == spec_create_mux_mode(requested),
        !changed ==> *final(mode) == *old(mode),
{
    if requested != *last {
        *mode = create_mux_mode(requested);
        *last = requested;
        true
    } else {
        false
    }
}

/// A policy batch with the write discipline applied: an empty or missing
/// batch yields no write, a non-empty batch gets exactly one trailing
/// synchronization marker.
pub open spec fn spec_finalize_batch(out: Option<Seq<OutputEvent>>) -> Option<Seq<OutputEvent>> {
    match out {
        None => None,
        Some(s) => if s.len() == 0 {
            None
        } else {
            Some(s.push(OutputEvent::Synchronization))
        },
    }
}

/// One full input loop step for one event: arbitrate under the active
/// policy, drop empty output, and terminate a non-empty batch with exactly
/// one synchronization marker — the unit written to the virtual device.
pub fn process_input_event(
    mode: &mut MuxMode,
    ev: &GamepadEvent,
    p_id: ControllerId,
    a_id: ControllerId,
    primary: &ControllerState,
    assist: &ControllerState,
) -> (r: Option<Vec<OutputEvent>>)
    requires
        p_id != a_id,
        ev.wf(),
        primary.wf(),
        assist.wf(),
    ensures
        *final(mode) == spec_mux_step(*old(mode), *ev, p_id, a_id, primary, assist).0,
        batch_view(r) == spec_finalize_batch(
            spec_mux_step(*old(mode), *ev, p_id, a_id, primary, assist).1,
        ),
        r matches Some(v) ==> v@.len() >= 1 && v@.last() == OutputEvent::Synchronization
            && forall|i: int|
            0 <= i < v@.len() - 1 ==> !((#[trigger] v@[i]) is Synchronization),
{
    proof {
        lemma_step_output_no_sync(*mode, *ev, p_id, a_id, primary, assist);
    }
    let out = mode.handle_event(ev, p_id, a_id, primary, assist);
    match out {
        None => None,
        Some(mut v) => {
            if v.len() == 0 {
                None
            } else {
                v.push(OutputEvent::Synchronization);
                Some(v)
            }
        },
    }
}

/// The controllers a rumble target selects, primary first.
pub open spec fn spec_rumble_ids(
    rumble: RumbleTarget,
    p_id: ControllerId,
    a_id: ControllerId,
) -> Seq<ControllerId> {
    match rumble {
        RumbleTarget::Primary => seq![p_id],
        RumbleTarget::Assist => seq![a_id],
        RumbleTarget::Both => seq![p_id, a_id],
        RumbleTarget::Off => Seq::empty(),
    }
}

/// Which controllers the force-feedback loop targets for a rumble setting.
/// The capability filter — only devices with force-feedback support become
/// targets — is applied by the caller per device.
pub fn rumble_target_ids(rumble: RumbleTarget, p_id: ControllerId, a_id: ControllerId) -> (r: Vec<
    ControllerId,
>)
    ensures
        r@ == spec_rumble_ids(rumble, p_id, a_id),
{
    let mut r: Vec<ControllerId> = Vec::new();
    match rumble {
        RumbleTarget::Primary => {
            r.push(p_id);
            proof {
                assert(r@ =~= seq![p_id]);
            }
        },
        RumbleTarget::Assist => {
            r.push(a_id);
            proof {
                assert(r@ =~= seq![a_id]);
            }
        },
        RumbleTarget::Both => {
            r.push(p_id);
            r.push(a_id);
            proof {
                assert(r@ =~= seq![p_id, a_id]);
            }
        },
        RumbleTarget::Off => {
            proof {
                assert(r@ =~= Seq::<ControllerId>::empty());
            }
        },
    }
    r
}

} // verus!
