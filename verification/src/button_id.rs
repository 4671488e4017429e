//! The numbers of the buttons and axes of a controller.

use vstd::prelude::*;

verus! {

pub const SYSTEM: u32 = 0;

pub const APPLICATION_MENU: u32 = 1;

pub const GRIP: u32 = 2;

pub const DPAD_LEFT: u32 = 3;

pub const DPAD_UP: u32 = 4;

pub const DPAD_RIGHT: u32 = 5;

pub const DPAD_DOWN: u32 = 6;

pub const A: u32 = 7;

pub const PROXIMITY_SENSOR: u32 = 31;

pub const AXIS0: u32 = 32;

pub const AXIS1: u32 = 33;

pub const AXIS2: u32 = 34;

pub const AXIS3: u32 = 35;

pub const AXIS4: u32 = 36;

pub const STEAM_VR_TOUCHPAD: u32 = 32;

pub const STEAM_VR_TRIGGER: u32 = 33;

pub const DASHBOARD_BACK: u32 = 2;

pub const MAX: u32 = 64;

} // verus!
