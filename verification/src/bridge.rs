//! The error/string bridge.
//!
//! The native library allocates its error and version strings itself and
//! hands out a string handle.  The bridge copies the text into host-owned
//! memory and releases the native allocation exactly once — and only on
//! the path where a non-null handle was obtained with a success status.
//! When the native call fails, or answers with a null handle, the bridge
//! degrades to a fixed fallback text instead of failing: these strings are
//! best-effort diagnostics, never a second failure mode.

use vstd::prelude::*;

use crate::native::NativeEffects;
use crate::status::BLUR_SUCCESS;

verus! {

/// Final native state and returned text of one last-error query: on a
/// success status with a non-null handle, the text behind the handle, with
/// the handle released exactly once; otherwise the fixed `"Unknown error"`
/// fallback, with the native layer left as the query left it.
pub open spec fn last_error_outcome<N: NativeEffects>(n: N) -> (N, Seq<char>) {
    let (mid, st, handle) = n.last_error_transition();
    if st == BLUR_SUCCESS && handle != 0 {
        (mid.free_transition(handle), mid.string_at(handle))
    } else {
        (mid, "Unknown error"@)
    }
}

/// Final native state and returned text of one version query: on a
/// success status with a non-null handle, the text behind the handle, with
/// the handle released exactly once; otherwise the fixed `"unknown"`
/// fallback, with the native layer left as the query left it.
pub open spec fn version_outcome<N: NativeEffects>(n: N) -> (N, Seq<char>) {
    let (mid, st, handle) = n.version_transition();
    if st == BLUR_SUCCESS && handle != 0 {
        (mid.free_transition(handle), mid.string_at(handle))
    } else {
        (mid, "unknown"@)
    }
}

/// The message of the native library's last error, or `"Unknown error"`
/// when none can be obtained.
pub fn get_last_error_message<N: NativeEffects>(native: &mut N) -> (r: String)
    ensures
        (*final(native), r@) == last_error_outcome(*old(native)),
{
    let (st, handle) = native.get_last_error();
    if st == BLUR_SUCCESS && handle != 0 {
        let message = native.read_string(handle);
        native.free_string(handle);
        message
    } else {
        "Unknown error".to_string()
    }
}

/// The native library's version string, or `"unknown"` when none can be
/// obtained.
pub fn get_version<N: NativeEffects>(native: &mut N) -> (r: String)
    ensures
        (*final(native), r@) == version_outcome(*old(native)),
{
    let (st, handle) = native.get_version();
    if st == BLUR_SUCCESS && handle != 0 {
        let version = native.read_string(handle);
        native.free_string(handle);
        version
    } else {
        "unknown".to_string()
    }
}

} // verus!
