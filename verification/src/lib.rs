//! Window placement and focus arbitration.
//!
//! This crate turns an abstract target rectangle and a window handle into
//! correct, side-effect-minimized window-manager operations, and implements
//! a best-effort protocol for forcing keyboard focus onto a window despite
//! operating-system anti-focus-stealing protections. The window manager is
//! modeled as an abstract capability (the `WindowSystem` trait), so the
//! protocols are verified against its contract and can be exercised with a
//! deterministic in-memory implementation.

pub mod fake;
pub mod geometry;
pub mod handler;
pub mod laws;
pub mod os;
