//! The stated laws of the effect-control layer, proved over the outcome
//! models that the executable functions are verified against.
//!
//! Each law quantifies over every native layer that meets the
//! [`NativeEffects`] contract and over every scripted answer, so it holds
//! in particular of [`crate::fake::FakeNative`] with any script.

use vstd::prelude::*;

use crate::bridge::{last_error_outcome, version_outcome};
use crate::controller::EffectController;
use crate::native::NativeEffects;
use crate::ops;
use crate::params::{spec_bytes, u32_le, EffectParams};
use crate::status::{BLUR_ALREADY_APPLIED, BLUR_SUCCESS};

verus! {

/// Whatever strength and tint a request is built from, its serialized
/// form is exactly 25 bytes: the current schema version leads, the
/// strength bits and the tint sit at their fixed offsets, and every byte
/// from the animation flag on — flag, animation length, reserved word and
/// reserved padding — is zero.
pub proof fn lemma_request_encoding(intensity_bits: u32, color_argb: u32)
    ensures
        ({
            let b = spec_bytes(EffectParams::spec_new(intensity_bits, color_argb));
            &&& b.len() == 25
            &&& b[0] == 1u8 && b[1] == 0u8 && b[2] == 0u8 && b[3] == 0u8
            &&& b.subrange(4, 8) == u32_le(intensity_bits)
            &&& b.subrange(8, 12) == u32_le(color_argb)
            &&& forall|i: int| 12 <= i < 25 ==> b[i] == 0u8
        }),
{
    let b = spec_bytes(EffectParams::spec_new(intensity_bits, color_argb));
    assert(1u32 & 0xff == 1 && (1u32 >> 8) & 0xff == 0 && (1u32 >> 16) & 0xff == 0 && (1u32
        >> 24) & 0xff == 0) by (bit_vector);
    assert(0u32 & 0xff == 0 && (0u32 >> 8) & 0xff == 0 && (0u32 >> 16) & 0xff == 0 && (0u32
        >> 24) & 0xff == 0) by (bit_vector);
    assert(b.subrange(4, 8) =~= u32_le(intensity_bits));
    assert(b.subrange(8, 12) =~= u32_le(color_argb));
}

/// An `apply` request before initialization fails with the fixed
/// "not initialized" message and leaves the native layer untouched: no
/// native call occurs.
pub proof fn lemma_apply_before_initialize<N: NativeEffects>(
    c: EffectController,
    n: N,
    window: usize,
    intensity_bits: u32,
    color_argb: u32,
)
    requires
        c.supported,
        !c.initialized,
    ensures
        EffectController::apply_outcome(c, n, window, intensity_bits, color_argb) == (
            n,
            Err::<(), Seq<char>>("Library not initialized"@),
        ),
{
}

/// A `clear` request before initialization fails the same way, with the
/// native layer untouched.
pub proof fn lemma_clear_before_initialize<N: NativeEffects>(
    c: EffectController,
    n: N,
    window: usize,
)
    requires
        c.supported,
        !c.initialized,
    ensures
        EffectController::clear_outcome(c, n, window) == (
            n,
            Err::<(), Seq<char>>("Library not initialized"@),
        ),
{
}

/// When the first `initialize` succeeds, a second `initialize` request is
/// rejected with the fixed "already initialized" message, whatever the
/// native layer would have answered, and no second native init call is
/// made: the native layer is exactly as the first call left it.
pub proof fn lemma_initialize_twice<N: NativeEffects>(c: EffectController, n: N)
    requires
        c.supported,
        !c.initialized,
        n.init_transition().1 == BLUR_SUCCESS,
    ensures
        ({
            let (c1, n1, r1) = EffectController::initialize_outcome(c, n);
            let (c2, n2, r2) = EffectController::initialize_outcome(c1, n1);
            &&& r1 == Ok::<u32, Seq<char>>(n.init_transition().2)
            &&& c1.initialized && c1.capabilities == n.init_transition().2
            &&& r2 == Err::<u32, Seq<char>>("Already initialized"@)
            &&& c2 == c1
            &&& n2 == n1
        }),
{
}

/// From the `Initialized` state every further `initialize` request is
/// rejected with the fixed "already initialized" message and the native
/// layer is untouched.  Together with [`lemma_initialize_twice`]: of any
/// sequence of `initialize` requests against a native layer whose init
/// succeeds, exactly the first reaches the native init entry point and
/// performs the transition; every later one observes the rejection.
/// (Callers that share one controller across threads serialize these
/// requests, for example behind a lock.)
pub proof fn lemma_initialize_when_initialized<N: NativeEffects>(c: EffectController, n: N)
    requires
        c.supported,
        c.initialized,
    ensures
        EffectController::initialize_outcome(c, n) == (
            c,
            n,
            Err::<u32, Seq<char>>("Already initialized"@),
        ),
{
}

/// A native "already applied" answer is success at the operation layer,
/// not a failure: re-requesting an effect a window already carries is a
/// no-op for the caller.
pub proof fn lemma_already_applied_is_success<N: NativeEffects>(
    n: N,
    window: usize,
    intensity_bits: u32,
    color_argb: u32,
)
    requires
        n.apply_transition(
            window,
            EffectParams::spec_new(intensity_bits, color_argb),
            0,
        ).1 == BLUR_ALREADY_APPLIED,
    ensures
        ops::apply_outcome(n, window, intensity_bits, color_argb) == (
            n.apply_transition(window, EffectParams::spec_new(intensity_bits, color_argb), 0).0,
            Ok::<(), Seq<char>>(()),
        ),
{
}

/// When the last-error query answers success with a null string handle,
/// the bridge degrades to the fixed `"Unknown error"` fallback and
/// releases nothing.
pub proof fn lemma_error_bridge_null_fallback<N: NativeEffects>(n: N)
    requires
        n.last_error_transition().1 == BLUR_SUCCESS,
        n.last_error_transition().2 == 0,
    ensures
        last_error_outcome(n) == (n.last_error_transition().0, "Unknown error"@),
{
}

/// When the last-error query answers success with a non-null string
/// handle, the bridge returns exactly the text behind that handle and
/// releases the handle exactly once: the final native state is the
/// queried state with one release of that very handle applied, and
/// nothing else.
pub proof fn lemma_error_bridge_copies_and_frees<N: NativeEffects>(n: N)
    requires
        n.last_error_transition().1 == BLUR_SUCCESS,
        n.last_error_transition().2 != 0,
    ensures
        ({
            let (mid, st, handle) = n.last_error_transition();
            last_error_outcome(n) == (mid.free_transition(handle), mid.string_at(handle))
        }),
{
}

/// When the version query answers success with a non-null string handle,
/// the version text is exactly the text behind that handle, released
/// exactly once; on any failure status, and on a null handle, it is the
/// fixed `"unknown"` sentinel.
pub proof fn lemma_version_text<N: NativeEffects>(n: N)
    ensures
        ({
            let (mid, st, handle) = n.version_transition();
            &&& (st == BLUR_SUCCESS && handle != 0) ==> version_outcome(n) == (
                mid.free_transition(handle),
                mid.string_at(handle),
            )
            &&& !(st == BLUR_SUCCESS && handle != 0) ==> version_outcome(n) == (mid, "unknown"@)
        }),
{
}

} // verus!
