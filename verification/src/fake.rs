//! A scripted native layer for tests.
//!
//! [`FakeNative`] answers every entry point from fields set up front (the
//! script) and records what was asked of it (the counters and the last
//! arguments seen).  Its transition functions say exactly that, so every
//! contract proved over [`NativeEffects`] can be exercised against it: a
//! counter left at zero shows that no call was made, and `free_calls`
//! together with `last_freed` shows that a string handle was released
//! exactly once.
//!
//! Call counters saturate at their maximum instead of wrapping, so the
//! fake has no failing input.

use vstd::prelude::*;

use crate::native::NativeEffects;
use crate::params::EffectParams;

verus! {

/// A native layer whose answers are scripted and whose calls are counted.
pub struct FakeNative {
    /// Status every `init` call answers with.
    pub init_status: i32,
    /// Capability bitmask every `init` call answers with.
    pub init_caps: u32,
    /// Status every `apply` call answers with.
    pub apply_status: i32,
    /// Status every `clear` call answers with.
    pub clear_status: i32,
    /// Status every `restore_all` call answers with.
    pub restore_status: i32,
    /// Status every `get_version` call answers with.
    pub version_status: i32,
    /// String handle every `get_version` call answers with; `0` for null.
    pub version_handle: usize,
    /// Text behind [`Self::version_handle`].
    pub version_text: String,
    /// Status every `get_last_error` call answers with.
    pub error_status: i32,
    /// String handle every `get_last_error` call answers with; `0` for null.
    pub error_handle: usize,
    /// Text behind [`Self::error_handle`].
    pub error_text: String,
    /// How often `init` was called.
    pub init_calls: u32,
    /// How often `shutdown` was called.
    pub shutdown_calls: u32,
    /// How often `apply` was called.
    pub apply_calls: u32,
    /// How often `clear` was called.
    pub clear_calls: u32,
    /// How often `restore_all` was called.
    pub restore_calls: u32,
    /// How often `get_version` was called.
    pub version_calls: u32,
    /// How often `get_last_error` was called.
    pub error_calls: u32,
    /// How often `free_string` was called.
    pub free_calls: u32,
    /// The handle of the last `free_string` call.
    pub last_freed: usize,
    /// The window of the last `apply` or `clear` call.
    pub last_window: usize,
    /// The parameter record of the last `apply` call.
    pub last_params: EffectParams,
    /// The timeout of the last `apply` or `clear` call.
    pub last_timeout: u32,
}

/// `c + 1`, saturating at the largest 32-bit value.
pub open spec fn bump(c: u32) -> u32 {
    if c == u32::MAX {
        c
    } else {
        (c + 1) as u32
    }
}

impl FakeNative {
    /// A baseline script: every status is success, the capability bitmask
    /// is zero, both string handles are null with empty texts, and nothing
    /// has been called yet.
    pub fn new() -> (r: FakeNative)
        ensures
            r.init_status == 0 && r.init_caps == 0,
            r.apply_status == 0 && r.clear_status == 0 && r.restore_status == 0,
            r.version_status == 0 && r.version_handle == 0 && r.version_text@ == Seq::<
                char,
            >::empty(),
            r.error_status == 0 && r.error_handle == 0 && r.error_text@ == Seq::<char>::empty(),
            r.init_calls == 0 && r.shutdown_calls == 0 && r.apply_calls == 0,
            r.clear_calls == 0 && r.restore_calls == 0,
            r.version_calls == 0 && r.error_calls == 0 && r.free_calls == 0,
            r.last_freed == 0 && r.last_window == 0 && r.last_timeout == 0,
            r.last_params == EffectParams::spec_default(),
    {
        FakeNative {
            init_status: 0,
            init_caps: 0,
            apply_status: 0,
            clear_status: 0,
            restore_status: 0,
            version_status: 0,
            version_handle: 0,
            version_text: String::new(),
            error_status: 0,
            error_handle: 0,
            error_text: String::new(),
            init_calls: 0,
            shutdown_calls: 0,
            apply_calls: 0,
            clear_calls: 0,
            restore_calls: 0,
            version_calls: 0,
            error_calls: 0,
            free_calls: 0,
            last_freed: 0,
            last_window: 0,
            last_params: EffectParams::new(
                crate::params::DEFAULT_INTENSITY_BITS,
                crate::params::DEFAULT_COLOR_ARGB,
            ),
            last_timeout: 0,
        }
    }
}

impl NativeEffects for FakeNative {
    open spec fn init_transition(self) -> (FakeNative, i32, u32) {
        (
            FakeNative { init_calls: bump(self.init_calls), ..self },
            self.init_status,
            self.init_caps,
        )
    }

    open spec fn shutdown_transition(self) -> FakeNative {
        FakeNative { shutdown_calls: bump(self.shutdown_calls), ..self }
    }

    open spec fn apply_transition(self, window: usize, params: EffectParams, timeout_ms: u32) -> (
        FakeNative,
        i32,
    ) {
        (
            FakeNative {
                apply_calls: bump(self.apply_calls),
                last_window: window,
                last_params: params,
                last_timeout: timeout_ms,
                ..self
            },
            self.apply_status,
        )
    }

    open spec fn clear_transition(self, window: usize, timeout_ms: u32) -> (FakeNative, i32) {
        (
            FakeNative {
                clear_calls: bump(self.clear_calls),
                last_window: window,
                last_timeout: timeout_ms,
                ..self
            },
            self.clear_status,
        )
    }

    open spec fn restore_transition(self) -> (FakeNative, i32) {
        (FakeNative { restore_calls: bump(self.restore_calls), ..self }, self.restore_status)
    }

    open spec fn version_transition(self) -> (FakeNative, i32, usize) {
        (
            FakeNative { version_calls: bump(self.version_calls), ..self },
            self.version_status,
            self.version_handle,
        )
    }

    open spec fn last_error_transition(self) -> (FakeNative, i32, usize) {
        (
            FakeNative { error_calls: bump(self.error_calls), ..self },
            self.error_status,
            self.error_handle,
        )
    }

    open spec fn string_at(self, handle: usize) -> Seq<char> {
        if handle == self.version_handle {
            self.version_text@
        } else {
            self.error_text@
        }
    }

    open spec fn free_transition(self, handle: usize) -> FakeNative {
        FakeNative { free_calls: bump(self.free_calls), last_freed: handle, ..self }
    }

    fn init(&mut self) -> (r: (i32, u32)) {
        self.init_calls = if self.init_calls == u32::MAX {
            u32::MAX
        } else {
            self.init_calls + 1
        };
        (self.init_status, self.init_caps)
    }

    fn shutdown(&mut self) {
        self.shutdown_calls = if self.shutdown_calls == u32::MAX {
            u32::MAX
        } else {
            self.shutdown_calls + 1
        };
    }

    fn apply(&mut self, window: usize, params: &EffectParams, timeout_ms: u32) -> (r: i32) {
        self.apply_calls = if self.apply_calls == u32::MAX {
            u32::MAX
        } else {
            self.apply_calls + 1
        };
        self.last_window = window;
        self.last_params = *params;
        self.last_timeout = timeout_ms;
        self.apply_status
    }

    fn clear(&mut self, window: usize, timeout_ms: u32) -> (r: i32) {
        self.clear_calls = if self.clear_calls == u32::MAX {
            u32::MAX
        } else {
            self.clear_calls + 1
        };
        self.last_window = window;
        self.last_timeout = timeout_ms;
        self.clear_status
    }

    fn restore_all(&mut self) -> (r: i32) {
        self.restore_calls = if self.restore_calls == u32::MAX {
            u32::MAX
        } else {
            self.restore_calls + 1
        };
        self.restore_status
    }

    fn get_version(&mut self) -> (r: (i32, usize)) {
        self.version_calls = if self.version_calls == u32::MAX {
            u32::MAX
        } else {
            self.version_calls + 1
        };
        (self.version_status, self.version_handle)
    }

    fn get_last_error(&mut self) -> (r: (i32, usize)) {
        self.error_calls = if self.error_calls == u32::MAX {
            u32::MAX
        } else {
            self.error_calls + 1
        };
        (self.error_status, self.error_handle)
    }

    fn read_string(&self, handle: usize) -> (r: String) {
        if handle == self.version_handle {
            self.version_text.clone()
        } else {
            self.error_text.clone()
        }
    }

    fn free_string(&mut self, handle: usize) {
        self.free_calls = if self.free_calls == u32::MAX {
            u32::MAX
        } else {
            self.free_calls + 1
        };
        self.last_freed = handle;
    }
}

} // verus!
