//! Platform-synchronization subsystem of a tiling window manager.
//!
//! The library keeps a declarative model of workspaces and windows and, once
//! per reconciliation cycle, converts the accumulated pending-sync intents
//! (queued redraws, a focus-changed flag, an effects-reset flag) into the
//! ordered sequence of native windowing calls that brings the platform in
//! line with the model. The caller samples the platform state (foreground
//! and desktop handles) before a cycle and performs the emitted calls after
//! it; everything in between is verified.

pub mod actions;
pub mod geometry;
pub mod laws;
pub mod model;
pub mod sync;
