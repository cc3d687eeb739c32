//! State of the control surface (tray and terminal front-ends): the list of
//! detected controllers, the current selections and settings, and the rules
//! for cycling and validating them.  Drawing, input handling and config
//! persistence are the binary's concern; it keeps one of these records and
//! calls the methods here for every decision.

use vstd::prelude::*;
use crate::gamepad::ControllerId;
use crate::mux_modes::ModeType;
use crate::{HideType, RumbleTarget, SpoofTarget};

verus! {

/// One detected controller, as shown to the user.
pub struct ControllerInfo {
    pub id: ControllerId,
    pub name: String,
}

/// Whether a mux session is currently running.
#[derive(Clone, Copy, Debug, PartialEq, Eq, Structural)]
pub enum MuxStatus {
    Stopped,
    Running,
}

/// Which control the terminal front-end currently focuses.
#[derive(Clone, Copy, Debug, PartialEq, Eq, Structural)]
pub enum FocusedSection {
    PrimaryController,
    AssistController,
    Mode,
    Hide,
    Spoof,
    Rumble,
    StartStop,
}

impl FocusedSection {
    /// The section after this one, wrapping around.
    pub open spec fn spec_next(self) -> Self {
        match self {
            FocusedSection::PrimaryController => FocusedSection::AssistController,
            FocusedSection::AssistController => FocusedSection::Mode,
            FocusedSection::Mode => FocusedSection::Hide,
            FocusedSection::Hide => FocusedSection::Spoof,
            FocusedSection::Spoof => FocusedSection::Rumble,
            FocusedSection::Rumble => FocusedSection::StartStop,
            FocusedSection::StartStop => FocusedSection::PrimaryController,
        }
    }

    /// The section before this one, wrapping around.
    pub open spec fn spec_prev(self) -> Self {
        match self {
            FocusedSection::PrimaryController => FocusedSection::StartStop,
            FocusedSection::AssistController => FocusedSection::PrimaryController,
            FocusedSection::Mode => FocusedSection::AssistController,
            FocusedSection::Hide => FocusedSection::Mode,
            FocusedSection::Spoof => FocusedSection::Hide,
            FocusedSection::Rumble => FocusedSection::Spoof,
            FocusedSection::StartStop => FocusedSection::Rumble,
        }
    }

    pub fn next(&self) -> (r: Self)
        ensures
            r == self.spec_next(),
    {
        match self {
            FocusedSection::PrimaryController => FocusedSection::AssistController,
            FocusedSection::AssistController => FocusedSection::Mode,
            FocusedSection::Mode => FocusedSection::Hide,
            FocusedSection::Hide => FocusedSection::Spoof,
            FocusedSection::Spoof => FocusedSection::Rumble,
            FocusedSection::Rumble => FocusedSection::StartStop,
            FocusedSection::StartStop => FocusedSection::PrimaryController,
        }
    }

    pub fn prev(&self) -> (r: Self)
        ensures
            r == self.spec_prev(),
    {
        match self {
            FocusedSection::PrimaryController => FocusedSection::StartStop,
            FocusedSection::AssistController => FocusedSection::PrimaryController,
            FocusedSection::Mode => FocusedSection::AssistController,
            FocusedSection::Hide => FocusedSection::Mode,
            FocusedSection::Spoof => FocusedSection::Hide,
            FocusedSection::Rumble => FocusedSection::Spoof,
            FocusedSection::StartStop => FocusedSection::Rumble,
        }
    }
}

/// What the front-ends persist between runs: the selections by controller
/// name (for best-effort matching on the next start) and the settings.
pub struct TrayConfig {
    pub primary_name: Option<String>,
    pub assist_name: Option<String>,
    pub mode: ModeType,
    pub hide: HideType,
    pub spoof: SpoofTarget,
    pub rumble: RumbleTarget,
}

impl Default for TrayConfig {
    fn default() -> (r: Self)
        ensures
            r.primary_name is None,
            r.assist_name is None,
            r.mode == ModeType::Priority,
            r.hide == HideType::Off,
            r.spoof == SpoofTarget::Off,
            r.rumble == RumbleTarget::Both,
    {
        TrayConfig {
            primary_name: None,
            assist_name: None,
            mode: ModeType::Priority,
            hide: HideType::Off,
            spoof: SpoofTarget::Off,
            rumble: RumbleTarget::Both,
        }
    }
}

/// First controller with this name.
pub open spec fn find_by_name(s: Seq<ControllerInfo>, name: Seq<char>) -> Option<ControllerInfo>
    decreases s.len(),
{
    if s.len() == 0 {
        None
    } else if s[0].name@ == name {
        Some(s[0])
    } else {
        find_by_name(s.drop_first(), name)
    }
}

/// First controller with this id.
pub open spec fn find_by_id(s: Seq<ControllerInfo>, id: ControllerId) -> Option<ControllerInfo>
    decreases s.len(),
{
    if s.len() == 0 {
        None
    } else if s[0].id == id {
        Some(s[0])
    } else {
        find_by_id(s.drop_first(), id)
    }
}

/// Position of the first controller with this id.
pub open spec fn index_of_id(s: Seq<ControllerInfo>, id: ControllerId) -> Option<int>
    decreases s.len(),
{
    if s.len() == 0 {
        None
    } else if s[0].id == id {
        Some(0)
    } else {
        match index_of_id(s.drop_first(), id) {
            Some(i) => Some(i + 1),
            None => None,
        }
    }
}

/// The initial selection for one slot: the saved name when it still
/// matches a controller, else the controller at the fallback position,
/// else nothing.
pub open spec fn spec_initial_selection(
    s: Seq<ControllerInfo>,
    saved: Option<String>,
    fallback: int,
) -> Option<ControllerId> {
    let by_name = match saved {
        Some(n) => find_by_name(s, n@),
        None => None,
    };
    match by_name {
        Some(c) => Some(c.id),
        None => if 0 <= fallback < s.len() {
            Some(s[fallback].id)
        } else {
            None
        },
    }
}

/// The name a selection resolves to, if any.
pub open spec fn spec_name_of(
    s: Seq<ControllerInfo>,
    sel: Option<ControllerId>,
) -> Option<Seq<char>> {
    match sel {
        Some(id) => match find_by_id(s, id) {
            Some(c) => Some(c.name@),
            None => None,
        },
        None => None,
    }
}


/// The next selection when cycling through the detected controllers: one
/// past the current selection's position, wrapping around.
pub open spec fn spec_cycle_selection(
    s: Seq<ControllerInfo>,
    sel: Option<ControllerId>,
) -> Option<ControllerId>
    recommends
        s.len() > 0,
{
    let cur = match sel {
        Some(id) => match index_of_id(s, id) {
            Some(i) => i,
            None => 0,
        },
        None => 0,
    };
    Some(s[(cur + 1) % (s.len() as int)].id)
}

/// The policy after this one when cycling.
pub open spec fn spec_cycle_mode(m: ModeType) -> ModeType {
    match m {
        ModeType::Priority => ModeType::Average,
        ModeType::Average => ModeType::Toggle,
        ModeType::Toggle => ModeType::Priority,
    }
}

/// The hide choice after this one when cycling.
pub open spec fn spec_cycle_hide(h: HideType) -> HideType {
    match h {
        HideType::Off => HideType::Steam,
        HideType::Steam => HideType::System,
        HideType::System => HideType::Off,
    }
}

/// The spoof choice after this one when cycling.
pub open spec fn spec_cycle_spoof(t: SpoofTarget) -> SpoofTarget {
    match t {
        SpoofTarget::Off => SpoofTarget::Primary,
        SpoofTarget::Primary => SpoofTarget::Assist,
        SpoofTarget::Assist => SpoofTarget::Off,
    }
}

/// The rumble target after this one when cycling.
pub open spec fn spec_cycle_rumble(t: RumbleTarget) -> RumbleTarget {
    match t {
        RumbleTarget::Both => RumbleTarget::Primary,
        RumbleTarget::Primary => RumbleTarget::Assist,
        RumbleTarget::Assist => RumbleTarget::Off,
        RumbleTarget::Off => RumbleTarget::Both,
    }
}

/// The state a control surface keeps while it runs: detected controllers,
/// current selections, settings, and whether a session is live.  Thread
/// handles and the shared settings of a running session stay with the
/// binary.
pub struct TrayState {
    pub controllers: Vec<ControllerInfo>,
    pub selected_primary: Option<ControllerId>,
    pub selected_assist: Option<ControllerId>,
    pub mode: ModeType,
    pub hide: HideType,
    pub spoof: SpoofTarget,
    pub rumble: RumbleTarget,
    pub status: MuxStatus,
}

/// Find a controller by name, as the saved-selection matcher does.
fn find_controller_by_name(controllers: &Vec<ControllerInfo>, name: &String) -> (r: Option<
    ControllerId,
>)
    ensures
        r == match find_by_name(controllers@, name@) {
            Some(c) => Some(c.id),
            None => None::<ControllerId>,
        },
{
    let n = controllers.len();
    let mut i: usize = 0;
    proof {
        assert(controllers@.skip(0) =~= controllers@);
    }
    while i < n
        invariant
            n == controllers@.len(),
            0 <= i <= n,
            find_by_name(controllers@, name@) == find_by_name(controllers@.skip(i as int), name@),
        decreases n - i,
    {
        if controllers[i].name == *name {
            proof {
                assert(controllers@.skip(i as int)[0] == controllers@[i as int]);
            }
            return Some(controllers[i].id);
        }
        proof {
            assert(controllers@.skip(i as int)[0] == controllers@[i as int]);
            assert(controllers@.skip(i as int).drop_first() =~= controllers@.skip(i + 1));
        }
        i = i + 1;
    }
    proof {
        assert(controllers@.skip(n as int).len() == 0);
    }
    None
}

/// Find a controller's name by id.
fn find_controller_by_id(controllers: &Vec<ControllerInfo>, id: ControllerId) -> (r: Option<
    String,
>)
    ensures
        match r {
            Some(name) => spec_name_of(controllers@, Some(id)) == Some(name@),
            None => spec_name_of(controllers@, Some(id)) is None,
        },
{
    let n = controllers.len();
    let mut i: usize = 0;
    proof {
        assert(controllers@.skip(0) =~= controllers@);
    }
    while i < n
        invariant
            n == controllers@.len(),
            0 <= i <= n,
            find_by_id(controllers@, id) == find_by_id(controllers@.skip(i as int), id),
        decreases n - i,
    {
        if controllers[i].id == id {
            proof {
                assert(controllers@.skip(i as int)[0] == controllers@[i as int]);
            }
            return Some(controllers[i].name.clone());
        }
        proof {
            assert(controllers@.skip(i as int).drop_first() =~= controllers@.skip(i + 1));
        }
        i = i + 1;
    }
    proof {
        assert(controllers@.skip(n as int).len() == 0);
    }
    None
}

/// A found position is in range and holds the id.
proof fn lemma_index_of_id_bounds(s: Seq<ControllerInfo>, id: ControllerId)
    ensures
        index_of_id(s, id) matches Some(k) ==> 0 <= k < s.len() && s[k].id == id,
    decreases s.len(),
{
    if s.len() > 0 && s[0].id != id {
        lemma_index_of_id_bounds(s.drop_first(), id);
        if index_of_id(s.drop_first(), id) is Some {
            let k = index_of_id(s.drop_first(), id).unwrap();
            assert(s.drop_first()[k] == s[k + 1]);
        }
    }
}

/// Position of a controller by id.
fn position_of_id(controllers: &Vec<ControllerInfo>, id: ControllerId) -> (r: Option<usize>)
    ensures
        r == match index_of_id(controllers@, id) {
            Some(i) => Some(i as usize),
            None => None::<usize>,
        },
        r matches Some(i) ==> i < controllers@.len(),
        index_of_id(controllers@, id) matches Some(k) ==> 0 <= k < controllers@.len(),
{
    proof {
        lemma_index_of_id_bounds(controllers@, id);
    }
    let n = controllers.len();
    let mut i: usize = 0;
    proof {
        assert(controllers@.skip(0) =~= controllers@);
    }
    while i < n
        invariant
            n == controllers@.len(),
            0 <= i <= n,
            index_of_id(controllers@, id) == match index_of_id(controllers@.skip(i as int), id) {
                Some(k) => Some(k + i),
                None => None::<int>,
            },
        decreases n - i,
    {
        if controllers[i].id == id {
            proof {
                assert(controllers@.skip(i as int)[0] == controllers@[i as int]);
            }
            return Some(i);
        }
        proof {
            assert(controllers@.skip(i as int)[0] == controllers@[i as int]);
            assert(controllers@.skip(i as int).drop_first() =~= controllers@.skip(i + 1));
        }
        i = i + 1;
    }
    proof {
        assert(controllers@.skip(n as int).len() == 0);
    }
    None
}

impl TrayState {
    /// Build the state from the detected controllers and the saved config:
    /// saved names are matched best-effort, else the first two controllers
    /// are preselected.
    pub fn new(controllers: Vec<ControllerInfo>, config: TrayConfig) -> (r: Self)
        ensures
            r.controllers@ == controllers@,
            r.selected_primary == spec_initial_selection(controllers@, config.primary_name, 0),
            r.selected_assist == spec_initial_selection(controllers@, config.assist_name, 1),
            r.mode == config.mode,
            r.hide == config.hide,
            r.spoof == config.spoof,
            r.rumble == config.rumble,
            r.status == MuxStatus::Stopped,
    {
        let selected_primary = match &config.primary_name {
            Some(name) => find_controller_by_name(&controllers, name),
            None => None,
        };
        let selected_primary = match selected_primary {
            Some(id) => Some(id),
            None => if controllers.len() > 0 {
                Some(controllers[0].id)
            } else {
                None
            },
        };
        let selected_assist = match &config.assist_name {
            Some(name) => find_controller_by_name(&controllers, name),
            None => None,
        };
        let selected_assist = match selected_assist {
            Some(id) => Some(id),
            None => if controllers.len() > 1 {
                Some(controllers[1].id)
            } else {
                None
            },
        };
        TrayState {
            controllers,
            selected_primary,
            selected_assist,
            mode: config.mode,
            hide: config.hide,
            spoof: config.spoof,
            rumble: config.rumble,
            status: MuxStatus::Stopped,
        }
    }

    /// The config to persist: the selections resolved back to names.
    pub fn to_config(&self) -> (r: TrayConfig)
        ensures
            match r.primary_name {
                Some(n) => spec_name_of(self.controllers@, self.selected_primary) == Some(n@),
                None => spec_name_of(self.controllers@, self.selected_primary) is None,
            },
            match r.assist_name {
                Some(n) => spec_name_of(self.controllers@, self.selected_assist) == Some(n@),
                None => spec_name_of(self.controllers@, self.selected_assist) is None,
            },
            r.mode == self.mode,
            r.hide == self.hide,
            r.spoof == self.spoof,
            r.rumble == self.rumble,
    {
        let primary_name = match self.selected_primary {
            Some(id) => find_controller_by_id(&self.controllers, id),
            None => None,
        };
        let assist_name = match self.selected_assist {
            Some(id) => find_controller_by_id(&self.controllers, id),
            None => None,
        };
        TrayConfig {
            primary_name,
            assist_name,
            mode: self.mode,
            hide: self.hide,
            spoof: self.spoof,
            rumble: self.rumble,
        }
    }

    /// A session may start exactly when two distinct controllers are
    /// selected and none is running.
    pub fn is_valid_for_start(&self) -> (r: bool)
        ensures
            r == (self.selected_primary is Some && self.selected_assist is Some
                && self.selected_primary != self.selected_assist && self.status
                == MuxStatus::Stopped),
    {
        self.selected_primary.is_some() && self.selected_assist.is_some() && {
            let p = self.selected_primary.unwrap();
            let a = self.selected_assist.unwrap();
            p != a && matches!(self.status, MuxStatus::Stopped)
        }
    }

    /// The selected primary controller's name, for display.
    pub fn get_primary_name(&self) -> (r: String)
        ensures
            r@ == match spec_name_of(self.controllers@, self.selected_primary) {
                Some(n) => n,
                None => "None"@,
            },
    {
        let found = match self.selected_primary {
            Some(id) => find_controller_by_id(&self.controllers, id),
            None => None,
        };
        match found {
            Some(name) => name,
            None => "None".to_owned(),
        }
    }

    /// The selected assist controller's name, for display.
    pub fn get_assist_name(&self) -> (r: String)
        ensures
            r@ == match spec_name_of(self.controllers@, self.selected_assist) {
                Some(n) => n,
                None => "None"@,
            },
    {
        let found = match self.selected_assist {
            Some(id) => find_controller_by_id(&self.controllers, id),
            None => None,
        };
        match found {
            Some(name) => name,
            None => "None".to_owned(),
        }
    }


    /// Replace the detected-controller list after a refresh: a selection
    /// that no longer exists falls back to the first (primary) or second
    /// (assist) detected controller, or to nothing.
    pub fn set_controllers(&mut self, controllers: Vec<ControllerInfo>)
        ensures
            final(self).controllers@ == controllers@,
            final(self).mode == old(self).mode,
            final(self).hide == old(self).hide,
            final(self).spoof == old(self).spoof,
            final(self).rumble == old(self).rumble,
            final(self).status == old(self).status,
            final(self).selected_primary == match old(self).selected_primary {
                Some(id) => if find_by_id(controllers@, id) is Some {
                    Some(id)
                } else if controllers@.len() > 0 {
                    Some(controllers@[0].id)
                } else {
                    None
                },
                None => None::<ControllerId>,
            },
            final(self).selected_assist == match old(self).selected_assist {
                Some(id) => if find_by_id(controllers@, id) is Some {
                    Some(id)
                } else if controllers@.len() > 1 {
                    Some(controllers@[1].id)
                } else {
                    None
                },
                None => None::<ControllerId>,
            },
    {
        self.controllers = controllers;
        if let Some(id) = self.selected_primary {
            if find_controller_by_id(&self.controllers, id).is_none() {
                self.selected_primary = if self.controllers.len() > 0 {
                    Some(self.controllers[0].id)
                } else {
                    None
                };
            }
        }
        if let Some(id) = self.selected_assist {
            if find_controller_by_id(&self.controllers, id).is_none() {
                self.selected_assist = if self.controllers.len() > 1 {
                    Some(self.controllers[1].id)
                } else {
                    None
                };
            }
        }
    }

    /// Cycle the primary selection to the next detected controller; a
    /// no-op while a session runs or nothing is detected.
    pub fn cycle_primary(&mut self)
        ensures
            final(self).controllers@ == old(self).controllers@,
            final(self).selected_assist == old(self).selected_assist,
            final(self).mode == old(self).mode,
            final(self).hide == old(self).hide,
            final(self).spoof == old(self).spoof,
            final(self).rumble == old(self).rumble,
            final(self).status == old(self).status,
            final(self).selected_primary == if old(self).status == MuxStatus::Running || old(
                self,
            ).controllers@.len() == 0 {
                old(self).selected_primary
            } else {
                spec_cycle_selection(old(self).controllers@, old(self).selected_primary)
            },
    {
        if matches!(self.status, MuxStatus::Running) || self.controllers.len() == 0 {
            return ;
        }
        let cur = match self.selected_primary {
            Some(id) => match position_of_id(&self.controllers, id) {
                Some(i) => i,
                None => 0,
            },
            None => 0,
        };
        let next = (cur + 1) % self.controllers.len();
        self.selected_primary = Some(self.controllers[next].id);
    }

    /// Cycle the assist selection to the next detected controller; a
    /// no-op while a session runs or nothing is detected.
    pub fn cycle_assist(&mut self)
        ensures
            final(self).controllers@ == old(self).controllers@,
            final(self).selected_primary == old(self).selected_primary,
            final(self).mode == old(self).mode,
            final(self).hide == old(self).hide,
            final(self).spoof == old(self).spoof,
            final(self).rumble == old(self).rumble,
            final(self).status == old(self).status,
            final(self).selected_assist == if old(self).status == MuxStatus::Running || old(
                self,
            ).controllers@.len() == 0 {
                old(self).selected_assist
            } else {
                spec_cycle_selection(old(self).controllers@, old(self).selected_assist)
            },
    {
        if matches!(self.status, MuxStatus::Running) || self.controllers.len() == 0 {
            return ;
        }
        let cur = match self.selected_assist {
            Some(id) => match position_of_id(&self.controllers, id) {
                Some(i) => i,
                None => 0,
            },
            None => 0,
        };
        let next = (cur + 1) % self.controllers.len();
        self.selected_assist = Some(self.controllers[next].id);
    }

    /// Cycle the arbitration policy.  Allowed while a session runs: the
    /// caller then pushes the new policy into the shared runtime settings.
    pub fn cycle_mode(&mut self)
        ensures
            final(self).controllers@ == old(self).controllers@,
            final(self).selected_primary == old(self).selected_primary,
            final(self).selected_assist == old(self).selected_assist,
            final(self).hide == old(self).hide,
            final(self).spoof == old(self).spoof,
            final(self).rumble == old(self).rumble,
            final(self).status == old(self).status,
            final(self).mode == spec_cycle_mode(old(self).mode),
    {
        self.mode = match self.mode {
            ModeType::Priority => ModeType::Average,
            ModeType::Average => ModeType::Toggle,
            ModeType::Toggle => ModeType::Priority,
        };
    }

    /// Cycle the hide choice; fixed while a session runs.
    pub fn cycle_hide(&mut self)
        ensures
            final(self).controllers@ == old(self).controllers@,
            final(self).selected_primary == old(self).selected_primary,
            final(self).selected_assist == old(self).selected_assist,
            final(self).mode == old(self).mode,
            final(self).spoof == old(self).spoof,
            final(self).rumble == old(self).rumble,
            final(self).status == old(self).status,
            final(self).hide == if old(self).status == MuxStatus::Running {
                old(self).hide
            } else {
                spec_cycle_hide(old(self).hide)
            },
    {
        if matches!(self.status, MuxStatus::Running) {
            return ;
        }
        self.hide = match self.hide {
            HideType::Off => HideType::Steam,
            HideType::Steam => HideType::System,
            HideType::System => HideType::Off,
        };
    }

    /// Cycle the spoof choice; fixed while a session runs.
    pub fn cycle_spoof(&mut self)
        ensures
            final(self).controllers@ == old(self).controllers@,
            final(self).selected_primary == old(self).selected_primary,
            final(self).selected_assist == old(self).selected_assist,
            final(self).mode == old(self).mode,
            final(self).hide == old(self).hide,
            final(self).rumble == old(self).rumble,
            final(self).status == old(self).status,
            final(self).spoof == if old(self).status == MuxStatus::Running {
                old(self).spoof
            } else {
                spec_cycle_spoof(old(self).spoof)
            },
    {
        if matches!(self.status, MuxStatus::Running) {
            return ;
        }
        self.spoof = match self.spoof {
            SpoofTarget::Off => SpoofTarget::Primary,
            SpoofTarget::Primary => SpoofTarget::Assist,
            SpoofTarget::Assist => SpoofTarget::Off,
        };
    }

    /// Cycle the rumble target.  Allowed while a session runs: the caller
    /// then pushes the new target into the shared runtime settings.
    pub fn cycle_rumble(&mut self)
        ensures
            final(self).controllers@ == old(self).controllers@,
            final(self).selected_primary == old(self).selected_primary,
            final(self).selected_assist == old(self).selected_assist,
            final(self).mode == old(self).mode,
            final(self).hide == old(self).hide,
            final(self).spoof == old(self).spoof,
            final(self).status == old(self).status,
            final(self).rumble == spec_cycle_rumble(old(self).rumble),
    {
        self.rumble = match self.rumble {
            RumbleTarget::Both => RumbleTarget::Primary,
            RumbleTarget::Primary => RumbleTarget::Assist,
            RumbleTarget::Assist => RumbleTarget::Off,
            RumbleTarget::Off => RumbleTarget::Both,
        };
    }
}

} // verus!
