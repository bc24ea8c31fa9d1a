//! A user-space resource guardian: watches named process classes, tracks
//! threshold violations with per-class state machines, reacts to kernel
//! memory-pressure telemetry, and manages a cgroup-v2 slice for quota
//! enforcement.
//!
//! The crate holds the decision logic: parsers for the kernel's text
//! interfaces, the violation state machines, the pressure reactor, the
//! cgroup lifecycle model, and the service-restart guard. Process scanning
//! and filesystem writes are performed by the embedding program, which
//! hands the library plain values and applies the filesystem operations
//! the library emits.

use vstd::prelude::*;

pub mod cgroups;
pub mod config;
pub mod errors;
pub mod ml_types;
pub mod monitor;
pub mod executor;
pub mod num;
pub mod psi;
pub mod scanner;
pub mod stats;
pub mod systemd;
pub mod text;
pub mod types;
pub mod violations;

verus! {

/// Crate version string, mirrored by the package manifest.
pub const VERSION: &'static str = "0.1.0";

} // verus!
