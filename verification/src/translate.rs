//! The event translator: pure functions that map a gamepad button or axis
//! identifier to the output device's key or axis code, and convert a
//! normalized fixed-point value into the output device's integer scale.

use vstd::prelude::*;
use crate::gamepad::{Axis, Button};

verus! {

// Output key codes of the virtual device (the Linux input event codes).
pub const BTN_SOUTH: u16 = 304;

pub const BTN_EAST: u16 = 305;

pub const BTN_NORTH: u16 = 307;

pub const BTN_WEST: u16 = 308;

pub const BTN_TL: u16 = 310;

pub const BTN_TR: u16 = 311;

pub const BTN_TL2: u16 = 312;

pub const BTN_TR2: u16 = 313;

pub const BTN_SELECT: u16 = 314;

pub const BTN_START: u16 = 315;

pub const BTN_MODE: u16 = 316;

pub const BTN_THUMBL: u16 = 317;

pub const BTN_THUMBR: u16 = 318;

pub const BTN_DPAD_UP: u16 = 544;

pub const BTN_DPAD_DOWN: u16 = 545;

pub const BTN_DPAD_LEFT: u16 = 546;

pub const BTN_DPAD_RIGHT: u16 = 547;

// Output absolute-axis codes of the virtual device.
pub const ABS_X: u16 = 0;

pub const ABS_Y: u16 = 1;

pub const ABS_Z: u16 = 2;

pub const ABS_RX: u16 = 3;

pub const ABS_RY: u16 = 4;

pub const ABS_RZ: u16 = 5;

pub const ABS_HAT0X: u16 = 16;

pub const ABS_HAT0Y: u16 = 17;

/// Largest value of an output axis.
pub const AXIS_MAX: i32 = 65535;

/// One event of the batch written to the virtual device.  A batch is always
/// terminated by exactly one `Synchronization` event.
#[derive(Clone, Copy, Debug, PartialEq, Eq, Structural)]
pub enum OutputEvent {
    /// A key pressed (value 1) or released (value 0).
    Key { code: u16, value: i32 },
    /// An absolute axis moved; value in `[0, 65535]`.
    AbsAxis { code: u16, value: i32 },
    /// End-of-batch marker.
    Synchronization,
}

/// Identity the virtual device presents: a name and an optional
/// vendor/product pair to spoof.
#[derive(Debug)]
pub struct VirtualGamepadInfo {
    pub name: String,
    pub vendor_id: Option<u16>,
    pub product_id: Option<u16>,
}

/// `scale_stick` as a mathematical function: the linear map of a stick value
/// in `[-1000, 1000]` onto `[0, 65535]`, rounding half up, with optional
/// inversion.
pub open spec fn spec_scale_stick(val: int, invert: bool) -> i32 {
    let w = if invert {
        -val
    } else {
        val
    };
    (((w + 1000) * 65535 + 1000) / 2000) as i32
}

/// `scale_trigger` as a mathematical function: the linear map of a trigger
/// value in `[0, 1000]` onto `[0, 65535]`, rounding half up.
pub open spec fn spec_scale_trigger(val: int) -> i32 {
    ((val * 65535 + 500) / 1000) as i32
}

/// Scales a stick value from `[-1000, 1000]` to `[0, 65535]`; a centered
/// stick maps to 32768.
pub fn scale_stick(val: i32, invert: bool) -> (r: i32)
    requires
        -1000 <= val <= 1000,
    ensures
        r == spec_scale_stick(val as int, invert),
        0 <= r <= 65535,
{
    let w: i32 = if invert {
        -val
    } else {
        val
    };
    let n: u32 = ((w + 1000) as u32) * 65535 + 1000;
    let q: u32 = n / 2000;
    q as i32
}

/// Scales a trigger value from `[0, 1000]` to `[0, 65535]`.
pub fn scale_trigger(val: i32) -> (r: i32)
    requires
        0 <= val <= 1000,
    ensures
        r == spec_scale_trigger(val as int),
        0 <= r <= 65535,
{
    let n: u32 = (val as u32) * 65535 + 500;
    let q: u32 = n / 1000;
    q as i32
}

/// Key code of the output device for a gamepad button, `None` for buttons
/// without a key mapping.
pub open spec fn spec_button_to_key(b: Button) -> Option<u16> {
    match b {
        Button::North => Some(BTN_NORTH),
        Button::South => Some(BTN_SOUTH),
        Button::East => Some(BTN_EAST),
        Button::West => Some(BTN_WEST),
        Button::LeftTrigger => Some(BTN_TL),
        Button::RightTrigger => Some(BTN_TR),
        Button::LeftTrigger2 => Some(BTN_TL2),
        Button::RightTrigger2 => Some(BTN_TR2),
        Button::LeftThumb => Some(BTN_THUMBL),
        Button::RightThumb => Some(BTN_THUMBR),
        Button::Select => Some(BTN_SELECT),
        Button::Start => Some(BTN_START),
        Button::Mode => Some(BTN_MODE),
        Button::DPadUp => Some(BTN_DPAD_UP),
        Button::DPadDown => Some(BTN_DPAD_DOWN),
        Button::DPadLeft => Some(BTN_DPAD_LEFT),
        Button::DPadRight => Some(BTN_DPAD_RIGHT),
        _ => None,
    }
}

pub fn gilrs_button_to_evdev_key(b: Button) -> (r: Option<u16>)
    ensures
        r == spec_button_to_key(b),
{
    match b {
        Button::North => Some(BTN_NORTH),
        Button::South => Some(BTN_SOUTH),
        Button::East => Some(BTN_EAST),
        Button::West => Some(BTN_WEST),
        Button::LeftTrigger => Some(BTN_TL),
        Button::RightTrigger => Some(BTN_TR),
        Button::LeftTrigger2 => Some(BTN_TL2),
        Button::RightTrigger2 => Some(BTN_TR2),
        Button::LeftThumb => Some(BTN_THUMBL),
        Button::RightThumb => Some(BTN_THUMBR),
        Button::Select => Some(BTN_SELECT),
        Button::Start => Some(BTN_START),
        Button::Mode => Some(BTN_MODE),
        Button::DPadUp => Some(BTN_DPAD_UP),
        Button::DPadDown => Some(BTN_DPAD_DOWN),
        Button::DPadLeft => Some(BTN_DPAD_LEFT),
        Button::DPadRight => Some(BTN_DPAD_RIGHT),
        _ => None,
    }
}

/// Absolute-axis code of the output device for a pressure button, `None` for
/// buttons without an axis mapping.  The D-pad is mapped onto the two hat
/// axes.
pub open spec fn spec_button_to_abs(b: Button) -> Option<u16> {
    match b {
        Button::LeftTrigger2 => Some(ABS_Z),
        Button::RightTrigger2 => Some(ABS_RZ),
        Button::DPadUp => Some(ABS_HAT0Y),
        Button::DPadDown => Some(ABS_HAT0Y),
        Button::DPadLeft => Some(ABS_HAT0X),
        Button::DPadRight => Some(ABS_HAT0X),
        _ => None,
    }
}

pub fn gilrs_button_to_evdev_axis(b: Button) -> (r: Option<u16>)
    ensures
        r == spec_button_to_abs(b),
{
    match b {
        Button::LeftTrigger2 => Some(ABS_Z),
        Button::RightTrigger2 => Some(ABS_RZ),
        Button::DPadUp => Some(ABS_HAT0Y),
        Button::DPadDown => Some(ABS_HAT0Y),
        Button::DPadLeft => Some(ABS_HAT0X),
        Button::DPadRight => Some(ABS_HAT0X),
        _ => None,
    }
}

/// Absolute-axis code of the output device for a gamepad axis, `None` for
/// axes without a mapping.
pub open spec fn spec_axis_to_abs(a: Axis) -> Option<u16> {
    match a {
        Axis::LeftStickX => Some(ABS_X),
        Axis::LeftStickY => Some(ABS_Y),
        Axis::LeftZ => Some(ABS_Z),
        Axis::RightStickX => Some(ABS_RX),
        Axis::RightStickY => Some(ABS_RY),
        Axis::RightZ => Some(ABS_RZ),
        _ => None,
    }
}

pub fn gilrs_axis_to_evdev_axis(a: Axis) -> (r: Option<u16>)
    ensures
        r == spec_axis_to_abs(a),
{
    match a {
        Axis::LeftStickX => Some(ABS_X),
        Axis::LeftStickY => Some(ABS_Y),
        Axis::LeftZ => Some(ABS_Z),
        Axis::RightStickX => Some(ABS_RX),
        Axis::RightStickY => Some(ABS_RY),
        Axis::RightZ => Some(ABS_RZ),
        _ => None,
    }
}

/// The two opposing D-pad buttons sharing one output axis, as
/// `(negative, positive)`: up/down share the vertical hat axis, left/right
/// the horizontal one.
pub open spec fn spec_dpad_axis_pair(b: Button) -> Option<(Button, Button)> {
    match b {
        Button::DPadUp => Some((Button::DPadUp, Button::DPadDown)),
        Button::DPadDown => Some((Button::DPadUp, Button::DPadDown)),
        Button::DPadLeft => Some((Button::DPadLeft, Button::DPadRight)),
        Button::DPadRight => Some((Button::DPadLeft, Button::DPadRight)),
        _ => None,
    }
}

pub fn dpad_axis_pair(b: Button) -> (r: Option<(Button, Button)>)
    ensures
        r == spec_dpad_axis_pair(b),
{
    match b {
        Button::DPadUp | Button::DPadDown => Some((Button::DPadUp, Button::DPadDown)),
        Button::DPadLeft | Button::DPadRight => Some((Button::DPadLeft, Button::DPadRight)),
        _ => None,
    }
}

/// Whether this axis is a vertical stick axis, which the output device
/// expects inverted.
pub open spec fn spec_is_y_axis(a: Axis) -> bool {
    a == Axis::LeftStickY || a == Axis::RightStickY
}

pub fn is_y_axis(a: Axis) -> (r: bool)
    ensures
        r == spec_is_y_axis(a),
{
    match a {
        Axis::LeftStickY | Axis::RightStickY => true,
        _ => false,
    }
}

/// A D-pad button whose direction is reported as the negative end of its
/// output axis.
pub open spec fn spec_is_inverted_dpad(b: Button) -> bool {
    b == Button::DPadUp || b == Button::DPadLeft
}

pub fn is_inverted_dpad(b: Button) -> (r: bool)
    ensures
        r == spec_is_inverted_dpad(b),
{
    match b {
        Button::DPadUp | Button::DPadLeft => true,
        _ => false,
    }
}

} // verus!
