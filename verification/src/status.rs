//! Status codes and capability bits of the native boundary.
//!
//! The native library answers every call with an integer status from a
//! closed set; codes outside this set are reserved and treated as generic
//! failures.  At initialization it also reports a bitmask of the optional
//! features it supports.

use vstd::prelude::*;

verus! {

/// The call succeeded.
pub const BLUR_SUCCESS: i32 = 0;

/// The library was asked to operate before its own initialization.
pub const BLUR_NOT_INITIALIZED: i32 = 1;

/// The window handle does not refer to a window the library can reach.
pub const BLUR_INVALID_HANDLE: i32 = 2;

/// The window already carries the requested effect.
pub const BLUR_ALREADY_APPLIED: i32 = 9;

/// Capability bit: blur through the window-composition interface.
pub const BLUR_CAP_SETWINDOWCOMPOSITION: u32 = 0x0001;

/// Capability bit: blur through the desktop window manager.
pub const BLUR_CAP_DWM_BLUR: u32 = 0x0002;

/// Capability bit: the tint color of the effect can be controlled.
pub const BLUR_CAP_COLOR_CONTROL: u32 = 0x0008;

} // verus!
