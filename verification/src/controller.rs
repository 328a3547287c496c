//! The effect lifecycle controller.
//!
//! One controller instance owns the process-wide subsystem state: whether
//! the native library has been initialized, the capability bitmask it
//! answered with, and whether the running platform carries the native
//! library at all.  The state machine is
//! `Uninitialized --initialize--> Initialized --shutdown--> Uninitialized`;
//! a second `initialize` is rejected, not silently accepted, and every
//! window operation demands the `Initialized` state before any native call
//! is made.
//!
//! On a platform without the native library every operation answers the
//! fixed "unsupported" failure — and the version query its `"N/A"`
//! sentinel — without touching the native layer.
//!
//! The controller itself is synchronous: callers that share one instance
//! across threads serialize access to it (for example behind a lock), and
//! a caller that observes the `Initialized` state then also observes the
//! recorded capability bitmask.

use vstd::prelude::*;

use crate::bridge;
use crate::native::NativeEffects;
use crate::ops;
use crate::ops::result_matches;
use crate::status::BLUR_SUCCESS;

verus! {

/// The init/operate/shutdown state machine around the native library.
pub struct EffectController {
    /// Whether the native library has been initialized by this controller.
    pub initialized: bool,
    /// The capability bitmask recorded at initialization; `0` before.
    pub capabilities: u32,
    /// Whether the running platform carries the native library.
    pub supported: bool,
}

impl EffectController {
    /// Controller state, native state and result of one `initialize`
    /// request.  An unsupported platform and a repeated initialization are
    /// rejected with their fixed messages, native layer untouched; else
    /// the native init entry point decides: success records the
    /// capability bitmask and reaches `Initialized`, any other status
    /// leaves the state machine where it was.
    pub open spec fn initialize_outcome<N: NativeEffects>(c: EffectController, n: N) -> (
        EffectController,
        N,
        Result<u32, Seq<char>>,
    ) {
        if !c.supported {
            (c, n, Err("Only supported on Windows"@))
        } else if c.initialized {
            (c, n, Err("Already initialized"@))
        } else {
            let (post, st, caps) = n.init_transition();
            if st == BLUR_SUCCESS {
                (
                    EffectController { initialized: true, capabilities: caps, supported: true },
                    post,
                    Ok(caps),
                )
            } else {
                (c, post, Err(ops::init_error_message(st)))
            }
        }
    }

    /// Native state and result of one `apply` request: rejected with the
    /// fixed message on an unsupported platform or before initialization,
    /// native layer untouched; else as the apply operation maps the
    /// native status.
    pub open spec fn apply_outcome<N: NativeEffects>(
        c: EffectController,
        n: N,
        window: usize,
        intensity_bits: u32,
        color_argb: u32,
    ) -> (N, Result<(), Seq<char>>) {
        if !c.supported {
            (n, Err("Only supported on Windows"@))
        } else if !c.initialized {
            (n, Err("Library not initialized"@))
        } else {
            ops::apply_outcome(n, window, intensity_bits, color_argb)
        }
    }

    /// Native state and result of one `clear` request: rejected with the
    /// fixed message on an unsupported platform or before initialization,
    /// native layer untouched; else as the clear operation maps the
    /// native status.
    pub open spec fn clear_outcome<N: NativeEffects>(
        c: EffectController,
        n: N,
        window: usize,
    ) -> (N, Result<(), Seq<char>>) {
        if !c.supported {
            (n, Err("Only supported on Windows"@))
        } else if !c.initialized {
            (n, Err("Library not initialized"@))
        } else {
            ops::clear_outcome(n, window)
        }
    }

    /// Native state and text of one version query: the `"N/A"` sentinel on
    /// an unsupported platform, native layer untouched; else the bridged
    /// version text.  Initialization is not demanded.
    pub open spec fn version_outcome<N: NativeEffects>(c: EffectController, n: N) -> (
        N,
        Seq<char>,
    ) {
        if !c.supported {
            (n, "N/A"@)
        } else {
            bridge::version_outcome(n)
        }
    }

    /// A fresh controller in the `Uninitialized` state for a platform
    /// that does (`supported == true`) or does not carry the native
    /// library.
    pub fn new(supported: bool) -> (r: EffectController)
        ensures
            !r.initialized,
            r.capabilities == 0,
            r.supported == supported,
    {
        EffectController { initialized: false, capabilities: 0, supported }
    }

    /// Whether the controller has reached the `Initialized` state.
    pub fn is_initialized(&self) -> (r: bool)
        ensures
            r == self.initialized,
    {
        self.initialized
    }

    /// The capability bitmask recorded at initialization.
    pub fn capabilities(&self) -> (r: u32)
        ensures
            r == self.capabilities,
    {
        self.capabilities
    }

    /// Initialize the effect subsystem and report the native capability
    /// bitmask, as [`Self::initialize_outcome`] says.
    pub fn blur_init_lib<N: NativeEffects>(&mut self, native: &mut N) -> (r: Result<u32, String>)
        ensures
            ({
                let (c2, n2, m) = EffectController::initialize_outcome(*old(self), *old(native));
                &&& *final(self) == c2
                &&& *final(native) == n2
                &&& result_matches(r, m)
            }),
    {
        if !self.supported {
            return Err("Only supported on Windows".to_string());
        }
        if self.initialized {
            return Err("Already initialized".to_string());
        }
        match ops::init(native) {
            Ok(caps) => {
                self.initialized = true;
                self.capabilities = caps;
                Ok(caps)
            },
            Err(message) => Err(message),
        }
    }

    /// Request the effect on `window` with the given strength (as
    /// IEEE-754 bits) and tint, as [`Self::apply_outcome`] says.  The
    /// controller state never changes.
    pub fn apply_blur<N: NativeEffects>(
        &mut self,
        native: &mut N,
        window: usize,
        intensity_bits: u32,
        color_argb: u32,
    ) -> (r: Result<(), String>)
        ensures
            *final(self) == *old(self),
            ({
                let (n2, m) = EffectController::apply_outcome(
                    *old(self),
                    *old(native),
                    window,
                    intensity_bits,
                    color_argb,
                );
                &&& *final(native) == n2
                &&& result_matches(r, m)
            }),
    {
        if !self.supported {
            return Err("Only supported on Windows".to_string());
        }
        if !self.initialized {
            return Err("Library not initialized".to_string());
        }
        ops::apply_blur(native, window, intensity_bits, color_argb)
    }

    /// Remove the effect from `window`, as [`Self::clear_outcome`] says.
    /// The controller state never changes.
    pub fn clear_blur<N: NativeEffects>(&mut self, native: &mut N, window: usize) -> (r: Result<
        (),
        String,
    >)
        ensures
            *final(self) == *old(self),
            ({
                let (n2, m) = EffectController::clear_outcome(*old(self), *old(native), window);
                &&& *final(native) == n2
                &&& result_matches(r, m)
            }),
    {
        if !self.supported {
            return Err("Only supported on Windows".to_string());
        }
        if !self.initialized {
            return Err("Library not initialized".to_string());
        }
        ops::clear_blur(native, window)
    }

    /// The native library's version text, as [`Self::version_outcome`]
    /// says.  This query never fails: every problem degrades to a
    /// sentinel text.
    pub fn get_blur_version<N: NativeEffects>(&self, native: &mut N) -> (r: String)
        ensures
            (*final(native), r@) == EffectController::version_outcome(*self, *old(native)),
    {
        if !self.supported {
            return "N/A".to_string();
        }
        bridge::get_version(native)
    }

    /// Shut the effect subsystem down.  The native shutdown entry point is
    /// invoked unconditionally — without checking the prior state — and
    /// the state machine returns to `Uninitialized`; the recorded
    /// capability bitmask is kept.  On an unsupported platform the native
    /// layer is left untouched.
    pub fn shutdown<N: NativeEffects>(&mut self, native: &mut N)
        ensures
            !final(self).initialized,
            final(self).capabilities == old(self).capabilities,
            final(self).supported == old(self).supported,
            old(self).supported ==> *final(native) == (*old(native)).shutdown_transition(),
            !old(self).supported ==> *final(native) == *old(native),
    {
        if self.supported {
            ops::shutdown(native);
        }
        self.initialized = false;
    }
}

} // verus!
