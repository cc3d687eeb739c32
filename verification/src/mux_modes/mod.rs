//! The arbitration engine: three interchangeable policies that convert two
//! controllers' event streams into one merged output stream.

use vstd::prelude::*;
use crate::gamepad::{ControllerId, ControllerState, GamepadEvent};
use crate::translate::OutputEvent;

pub mod average;
pub mod helpers;
pub mod priority;
pub mod toggle;

use self::average::{spec_average, AverageMode};
use self::helpers::batch_view;
use self::priority::{spec_priority, PriorityMode};
use self::toggle::{spec_toggle_step, ToggleMode};

verus! {

/// The arbitration policies a session can run.
#[derive(Clone, Copy, Debug, PartialEq, Eq, Structural)]
pub enum ModeType {
    Average,
    Priority,
    Toggle,
}

impl Default for ModeType {
    fn default() -> (r: Self)
        ensures
            r == ModeType::Priority,
    {
        ModeType::Priority
    }
}

/// The arbitration engine: one of the three policies together with its
/// state.  The policy set is closed, so the engine is a tagged union rather
/// than a trait object.
pub enum MuxMode {
    Average(AverageMode),
    Priority(PriorityMode),
    Toggle(ToggleMode),
}

/// The freshly built engine for a policy choice; the toggle policy starts
/// with no active controller recorded.
pub open spec fn spec_create_mux_mode(mode: ModeType) -> MuxMode {
    match mode {
        ModeType::Average => MuxMode::Average(AverageMode),
        ModeType::Priority => MuxMode::Priority(PriorityMode),
        ModeType::Toggle => MuxMode::Toggle(ToggleMode { active: None }),
    }
}

/// Build the engine for the chosen policy.
pub fn create_mux_mode(mode: ModeType) -> (m: MuxMode)
    ensures
        m == spec_create_mux_mode(mode),
{
    match mode {
        ModeType::Average => MuxMode::Average(AverageMode),
        ModeType::Priority => MuxMode::Priority(PriorityMode),
        ModeType::Toggle => MuxMode::Toggle(ToggleMode { active: None }),
    }
}

/// One step of whichever policy is active: the successor engine and the
/// output batch (still without its trailing synchronization marker).
pub open spec fn spec_mux_step(
    m: MuxMode,
    ev: GamepadEvent,
    p_id: ControllerId,
    a_id: ControllerId,
    p: &ControllerState,
    a: &ControllerState,
) -> (MuxMode, Option<Seq<OutputEvent>>) {
    match m {
        MuxMode::Average(_) => (m, spec_average(ev, p_id, a_id, p, a)),
        MuxMode::Priority(_) => (m, spec_priority(ev, p_id, a_id, p, a)),
        MuxMode::Toggle(t) => {
            let step = spec_toggle_step(t, ev, p_id, a_id, p, a);
            (MuxMode::Toggle(step.0), step.1)
        },
    }
}

impl MuxMode {
    /// Arbitrate one normalized event, reading both controllers' live
    /// state.  Returns `None` when the event is irrelevant or the policy
    /// suppresses it; a returned batch still lacks its trailing
    /// synchronization marker.
    pub fn handle_event(
        &mut self,
        ev: &GamepadEvent,
        p_id: ControllerId,
        a_id: ControllerId,
        primary: &ControllerState,
        assist: &ControllerState,
    ) -> (r: Option<Vec<OutputEvent>>)
        requires
            p_id != a_id,
            ev.wf(),
            primary.wf(),
            assist.wf(),
        ensures
            *final(self) == spec_mux_step(*old(self), *ev, p_id, a_id, primary, assist).0,
            batch_view(r) == spec_mux_step(*old(self), *ev, p_id, a_id, primary, assist).1,
    {
        match self {
            MuxMode::Average(x) => x.handle_event(ev, p_id, a_id, primary, assist),
            MuxMode::Priority(x) => x.handle_event(ev, p_id, a_id, primary, assist),
            MuxMode::Toggle(t) => t.handle_event(ev, p_id, a_id, primary, assist),
        }
    }
}

/// No arbitration policy emits a synchronization marker itself: every event
/// of a policy's batch is a key or axis event.  The marker is appended
/// exactly once per written batch by the input loop step.
pub proof fn lemma_step_output_no_sync(
    m: MuxMode,
    ev: GamepadEvent,
    p_id: ControllerId,
    a_id: ControllerId,
    p: &ControllerState,
    a: &ControllerState,
)
    ensures
        spec_mux_step(m, ev, p_id, a_id, p, a).1 matches Some(s) ==> forall|i: int|
            0 <= i < s.len() ==> !((#[trigger] s[i]) is Synchronization),
{
    match m {
        MuxMode::Average(_) => {
            average::lemma_average_no_sync(ev, p_id, a_id, p, a);
        },
        MuxMode::Priority(_) => {
            priority::lemma_priority_no_sync(ev, p_id, a_id, p, a);
        },
        MuxMode::Toggle(t) => {
            let active0 = match t.active {
                Some(x) => x,
                None => p_id,
            };
            if ev.id == a_id && ev.kind == crate::gamepad::EventKind::ButtonPressed(
                crate::gamepad::Button::Mode,
            ) {
                let new_active = if active0 == p_id {
                    a_id
                } else {
                    p_id
                };
                let st = if new_active == p_id {
                    p
                } else {
                    a
                };
                toggle::lemma_resync_batch_no_sync(st, new_active == a_id);
            }
        },
    }
}


} // verus!
