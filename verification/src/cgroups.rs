//! The cgroup-v2 subsystem: resource limits and their file encodings,
//! the managed entities, the controller file parsers, and the lifecycle
//! manager that decides every filesystem operation under the slice.

pub mod controller;
pub mod manager;
pub mod types;
pub mod utils;

pub use controller::{CpuController, CpuStats, MemoryController, MemoryPressure, MemoryStats};
pub use manager::{CgroupManager, FsOp};
pub use types::{
    Cgroup, CgroupConfig, CgroupStrategy, CgroupType, DynamicCgroupSettings, HealthStatus,
    ResourceLimits, StaticCgroupConfig,
};
