//! Session configuration: what a mux session is started with, and the
//! identity the virtual device presents.  Resolving devices, creating the
//! virtual device node and spawning the two loop threads is plumbing done
//! by the binary around the library.

use vstd::prelude::*;
use crate::gamepad::ControllerId;
use crate::mux_modes::ModeType;
use crate::translate::VirtualGamepadInfo;
use crate::{HideType, RumbleTarget, SpoofTarget};

verus! {

/// Configuration for starting a mux session.
pub struct MuxConfig {
    pub primary_id: ControllerId,
    pub assist_id: ControllerId,
    pub mode: ModeType,
    pub hide: HideType,
    pub spoof: SpoofTarget,
    pub rumble: RumbleTarget,
}

impl MuxConfig {
    /// A session needs two distinct physical controllers; starting with
    /// the same device twice is rejected before any resource is acquired.
    pub fn is_valid(&self) -> (r: bool)
        ensures
            r == (self.primary_id != self.assist_id),
    {
        self.primary_id != self.assist_id
    }
}

/// The identity the virtual device presents, per the spoof choice: the
/// primary controller's, the assist controller's, or a neutral name with
/// no vendor/product pair.
pub fn choose_virtual_info(
    spoof: SpoofTarget,
    primary: &VirtualGamepadInfo,
    assist: &VirtualGamepadInfo,
) -> (r: VirtualGamepadInfo)
    ensures
        spoof == SpoofTarget::Primary ==> r.name@ == primary.name@ && r.vendor_id
            == primary.vendor_id && r.product_id == primary.product_id,
        spoof == SpoofTarget::Assist ==> r.name@ == assist.name@ && r.vendor_id
            == assist.vendor_id && r.product_id == assist.product_id,
        spoof == SpoofTarget::Off ==> r.name@ == "CtrlAssist Virtual Gamepad"@ && r.vendor_id
            is None && r.product_id is None,
{
    match spoof {
        SpoofTarget::Primary => VirtualGamepadInfo {
            name: primary.name.clone(),
            vendor_id: primary.vendor_id,
            product_id: primary.product_id,
        },
        SpoofTarget::Assist => VirtualGamepadInfo {
            name: assist.name.clone(),
            vendor_id: assist.vendor_id,
            product_id: assist.product_id,
        },
        SpoofTarget::Off => VirtualGamepadInfo {
            name: "CtrlAssist Virtual Gamepad".to_owned(),
            vendor_id: None,
            product_id: None,
        },
    }
}

} // verus!
