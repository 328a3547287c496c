//! The safe operations over the native boundary: initialization with its
//! status mapping, shutdown, and the per-window apply/clear protocol.
//!
//! Every operation makes a single native call — no retry, no backoff —
//! and translates the answered status into a uniform result.  A native
//! "already applied" answer to `apply` is success: re-requesting an effect
//! a window already carries is a no-op for the caller, not an error.  On
//! any other non-success status the operation consults the error bridge
//! for a descriptive message.

use vstd::prelude::*;
use vstd::string::StringExecFns;

use crate::bridge::{get_last_error_message, last_error_outcome};
use crate::native::NativeEffects;
use crate::numfmt::{i32_decimal, spec_i32_decimal};
use crate::params::EffectParams;
use crate::status::{BLUR_ALREADY_APPLIED, BLUR_SUCCESS};

verus! {

/// The message reported when native initialization answers a non-success
/// status: the fixed text with the status code in decimal.
pub open spec fn init_error_message(st: i32) -> Seq<char> {
    "blur_init failed with code "@ + spec_i32_decimal(st as int)
}

/// Whether an executable result and its mathematical model agree: same
/// variant, same success payload, and the error text reads as modeled.
pub open spec fn result_matches<T>(r: Result<T, String>, m: Result<T, Seq<char>>) -> bool {
    match (r, m) {
        (Ok(a), Ok(b)) => a == b,
        (Err(s), Err(t)) => s@ == t,
        _ => false,
    }
}

/// Final native state and result of one `apply` operation: the request is
/// built from the given strength and tint over the defaults and passed
/// with timeout `0`; success and "already applied" are success, any other
/// status is a failure carrying the bridged last-error message.
pub open spec fn apply_outcome<N: NativeEffects>(
    n: N,
    window: usize,
    intensity_bits: u32,
    color_argb: u32,
) -> (N, Result<(), Seq<char>>) {
    let request = EffectParams::spec_new(intensity_bits, color_argb);
    let (mid, st) = n.apply_transition(window, request, 0);
    if st == BLUR_SUCCESS || st == BLUR_ALREADY_APPLIED {
        (mid, Ok(()))
    } else {
        let (fin, message) = last_error_outcome(mid);
        (fin, Err(message))
    }
}

/// Final native state and result of one `clear` operation: the native
/// clear entry point is called with timeout `0`; only success is success,
/// any other status is a failure carrying the bridged last-error message.
pub open spec fn clear_outcome<N: NativeEffects>(n: N, window: usize) -> (
    N,
    Result<(), Seq<char>>,
) {
    let (mid, st) = n.clear_transition(window, 0);
    if st == BLUR_SUCCESS {
        (mid, Ok(()))
    } else {
        let (fin, message) = last_error_outcome(mid);
        (fin, Err(message))
    }
}

/// Initialize the native library.  On success the answered capability
/// bitmask is returned; on any other status the failure names the status
/// code.
pub fn init<N: NativeEffects>(native: &mut N) -> (r: Result<u32, String>)
    ensures
        ({
            let (post, st, caps) = (*old(native)).init_transition();
            &&& *final(native) == post
            &&& st == BLUR_SUCCESS ==> r == Ok::<u32, String>(caps)
            &&& st != BLUR_SUCCESS ==> r is Err && r->Err_0@ == init_error_message(st)
        }),
{
    let (st, caps) = native.init();
    if st == BLUR_SUCCESS {
        Ok(caps)
    } else {
        let mut message = "blur_init failed with code ".to_string();
        let digits = i32_decimal(st);
        message.append(digits.as_str());
        Err(message)
    }
}

/// Shut the native library down.
pub fn shutdown<N: NativeEffects>(native: &mut N)
    ensures
        *final(native) == (*old(native)).shutdown_transition(),
{
    native.shutdown();
}

/// Request the effect on `window` with the given strength (as IEEE-754
/// bits) and tint.
pub fn apply_blur<N: NativeEffects>(
    native: &mut N,
    window: usize,
    intensity_bits: u32,
    color_argb: u32,
) -> (r: Result<(), String>)
    ensures
        ({
            let (post, m) = apply_outcome(*old(native), window, intensity_bits, color_argb);
            &&& *final(native) == post
            &&& result_matches(r, m)
        }),
{
    let request = EffectParams::new(intensity_bits, color_argb);
    let st = native.apply(window, &request, 0);
    if st == BLUR_SUCCESS {
        Ok(())
    } else if st == BLUR_ALREADY_APPLIED {
        Ok(())
    } else {
        Err(get_last_error_message(native))
    }
}

/// Remove the effect from `window`.
pub fn clear_blur<N: NativeEffects>(native: &mut N, window: usize) -> (r: Result<(), String>)
    ensures
        ({
            let (post, m) = clear_outcome(*old(native), window);
            &&& *final(native) == post
            &&& result_matches(r, m)
        }),
{
    let st = native.clear(window, 0);
    if st == BLUR_SUCCESS {
        Ok(())
    } else {
        Err(get_last_error_message(native))
    }
}

} // verus!
