//! Verified core of a fixed-function display compositor / GPU rendering
//! pipeline for an embedded single-display target.
//!
//! The library models the brittle parts of surface bring-up as explicit,
//! verified state machines: a compositor session that batches element
//! mutations into atomic update transactions, and a strictly ordered GPU
//! context bring-up whose steps must not be skipped or repeated. The
//! steady-state frame driver is modelled as a function from the context
//! state to the per-frame command stream. The native calls themselves
//! (compositor FFI, EGL, GL) are performed by an unverified shell that
//! drives these state machines and obeys their verdicts.

pub mod alpha;
pub mod bringup;
pub mod compositor;
pub mod error;
pub mod frame;
pub mod geometry;
pub mod resources;
