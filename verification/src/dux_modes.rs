//! Mode set for the reverse direction — fanning one controller's input out
//! to several virtual pads.  Only the mode choice itself lives here; the
//! fan-out runtime is carried by the binary when that direction is wired
//! up.

use vstd::prelude::*;

verus! {

/// The demultiplexing policies: mirror input to every virtual pad, or
/// route it to a single one.
#[derive(Clone, Copy, Debug, PartialEq, Eq, Structural)]
pub enum ModeType {
    Multicast,
    Unicast,
}

impl Default for ModeType {
    fn default() -> (r: Self)
        ensures
            r == ModeType::Unicast,
    {
        ModeType::Unicast
    }
}

} // verus!
