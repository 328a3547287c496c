//! Effect-control layer for a compositor blur effect.
//!
//! A desktop application can request a translucent blur on one of its
//! top-level windows; the rendering itself is done by a native library
//! reached through a fixed function-and-struct boundary.  This crate holds
//! the logic around that boundary: the parameter codec with its frozen byte
//! layout, the init/shutdown lifecycle state machine, the per-window
//! apply/clear operations with their status mapping, and the bridge that
//! copies native-allocated error and version strings exactly once.
//!
//! The boundary itself is the [`native::NativeEffects`] trait: a production
//! adapter binds it to the real library, and [`fake::FakeNative`] is a
//! scripted stand-in for tests.

pub mod bridge;
pub mod controller;
pub mod fake;
pub mod laws;
pub mod native;
pub mod numfmt;
pub mod ops;
pub mod params;
pub mod status;
