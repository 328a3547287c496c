//! The native boundary: the fixed set of entry points the compositor-effect
//! library exports, as a substitutable interface.
//!
//! Every operation answers with an integer status from the closed set in
//! [`crate::status`].  The two string queries hand back, beside the status,
//! a *string handle*: a machine word that stands for a native-allocated,
//! UTF-8, null-terminated string, with `0` standing for the null answer.
//! A non-null handle is owned by the caller until it is released through
//! [`NativeEffects::free_string`], exactly once.
//!
//! The interface is specified by transition functions: each call maps the
//! implementation's state to its successor state plus the values it answers
//! with, so that everything proved over this trait holds for any
//! implementation that meets it.  The production adapter binds the trait to
//! the real library; [`crate::fake::FakeNative`] is a scripted stand-in,
//! verified against the same contract.

use vstd::prelude::*;

use crate::params::EffectParams;

verus! {

/// The entry points of the native compositor-effect library.
///
/// The transition functions carry neutral default bodies so that an
/// adapter outside this crate provides only the executable methods;
/// [`crate::fake::FakeNative`] overrides every one of them with its own
/// scripted transition.
pub trait NativeEffects: Sized {
    /// State and answers of one `init` call: successor state, status, and
    /// the capability bitmask (meaningful only on success).
    open spec fn init_transition(self) -> (Self, i32, u32) {
        (self, 0, 0)
    }

    /// State after one `shutdown` call.
    open spec fn shutdown_transition(self) -> Self {
        self
    }

    /// State and status of one `apply` call with the given window,
    /// parameter record and timeout.
    open spec fn apply_transition(self, window: usize, params: EffectParams, timeout_ms: u32) -> (
        Self,
        i32,
    ) {
        (self, 0)
    }

    /// State and status of one `clear` call with the given window and
    /// timeout.
    open spec fn clear_transition(self, window: usize, timeout_ms: u32) -> (Self, i32) {
        (self, 0)
    }

    /// State and status of one `restore_all` call.
    open spec fn restore_transition(self) -> (Self, i32) {
        (self, 0)
    }

    /// State and answers of one `get_version` call: successor state,
    /// status, and the handle of the version string (`0` for null).
    open spec fn version_transition(self) -> (Self, i32, usize) {
        (self, 0, 0)
    }

    /// State and answers of one `get_last_error` call: successor state,
    /// status, and the handle of the message string (`0` for null).
    open spec fn last_error_transition(self) -> (Self, i32, usize) {
        (self, 0, 0)
    }

    /// The text behind a non-null string handle.
    open spec fn string_at(self, handle: usize) -> Seq<char> {
        Seq::empty()
    }

    /// State after the string behind `handle` has been released.
    open spec fn free_transition(self, handle: usize) -> Self {
        self
    }

    /// Initialize the library and report its capability bitmask.
    fn init(&mut self) -> (r: (i32, u32))
        ensures
            (*final(self), r.0, r.1) == (*old(self)).init_transition(),
    ;

    /// Shut the library down.
    fn shutdown(&mut self)
        ensures
            *final(self) == (*old(self)).shutdown_transition(),
    ;

    /// Request the effect on `window`; a timeout of `0` means the
    /// library's default blocking behavior.
    fn apply(&mut self, window: usize, params: &EffectParams, timeout_ms: u32) -> (r: i32)
        ensures
            (*final(self), r) == (*old(self)).apply_transition(window, *params, timeout_ms),
    ;

    /// Remove the effect from `window`; a timeout of `0` means the
    /// library's default blocking behavior.
    fn clear(&mut self, window: usize, timeout_ms: u32) -> (r: i32)
        ensures
            (*final(self), r) == (*old(self)).clear_transition(window, timeout_ms),
    ;

    /// Remove the effect from every window it was applied to.
    fn restore_all(&mut self) -> (r: i32)
        ensures
            (*final(self), r) == (*old(self)).restore_transition(),
    ;

    /// Ask for the library's version string.
    fn get_version(&mut self) -> (r: (i32, usize))
        ensures
            (*final(self), r.0, r.1) == (*old(self)).version_transition(),
    ;

    /// Ask for the message of the library's last error.
    fn get_last_error(&mut self) -> (r: (i32, usize))
        ensures
            (*final(self), r.0, r.1) == (*old(self)).last_error_transition(),
    ;

    /// Copy the text behind a non-null string handle into host-owned
    /// memory.
    fn read_string(&self, handle: usize) -> (r: String)
        requires
            handle != 0,
        ensures
            r@ == (*self).string_at(handle),
    ;

    /// Release the native allocation behind a non-null string handle.
    /// After this call the handle must not be touched again.
    fn free_string(&mut self, handle: usize)
        requires
            handle != 0,
        ensures
            *final(self) == (*old(self)).free_transition(handle),
    ;
}

} // verus!
