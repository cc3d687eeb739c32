//! Merges the input of two physical game controllers into one virtual
//! controller and mirrors force-feedback commands issued against the virtual
//! controller back out to the real hardware.
//!
//! The crate holds the decision logic of that system: the event translator,
//! the three arbitration policies (priority, average, toggle), the
//! force-feedback effect manager with its replication and recovery rules, and
//! the live-reconfigurable runtime settings.  Device I/O (reading gamepad
//! events, writing to the virtual device node, force-feedback ioctls) is left
//! to the binary built around the library; every value crossing that boundary
//! is plain data.
//!
//! Normalized analog values are carried as thousandths (millis): a stick axis
//! ranges over `[-1000, 1000]`, a button or trigger over `[0, 1000]`.

#![verifier::loop_isolation(false)]

use vstd::prelude::*;

pub mod dux_modes;
pub mod ff_helpers;
pub mod gamepad;
pub mod mux_manager;
pub mod mux_modes;
pub mod mux_runtime;
pub mod panel;
pub mod translate;

verus! {

/// How the real controllers are hidden from other consumers while a session
/// runs.  The hiding itself is done by an outside collaborator; the library
/// only records the choice.
#[derive(Clone, Copy, Debug, PartialEq, Eq, Structural)]
pub enum HideType {
    Off,
    Steam,
    System,
}

impl Default for HideType {
    fn default() -> (r: Self)
        ensures
            r == HideType::Off,
    {
        HideType::Off
    }
}

/// Whose identity the virtual device presents to the rest of the system.
#[derive(Clone, Copy, Debug, PartialEq, Eq, Structural)]
pub enum SpoofTarget {
    Primary,
    Assist,
    Off,
}

impl Default for SpoofTarget {
    fn default() -> (r: Self)
        ensures
            r == SpoofTarget::Off,
    {
        SpoofTarget::Off
    }
}

/// Which physical controllers currently receive replicated force-feedback
/// commands.
#[derive(Clone, Copy, Debug, PartialEq, Eq, Structural)]
pub enum RumbleTarget {
    Primary,
    Assist,
    Both,
    Off,
}

impl Default for RumbleTarget {
    fn default() -> (r: Self)
        ensures
            r == RumbleTarget::Both,
    {
        RumbleTarget::Both
    }
}

} // verus!
