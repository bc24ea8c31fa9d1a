//! Core data types: per-process snapshots and aggregated monitor counters.
//!
//! CPU load is carried as hundredths of a percent (`4550` means `45.50 %`)
//! so that thresholds and readings stay exact integers.

use vstd::prelude::*;

verus! {

/// Aggregated monitoring counters, kept for the engine's lifetime.
#[derive(Clone, Debug)]
pub struct MonitorStats {
    /// Ticks performed since start.
    pub total_checks: u64,
    /// Violations observed since start (never reset).
    pub total_violations: u64,
    /// Processes killed since start.
    pub total_kills: u64,
    /// Service restarts performed since start.
    pub total_restarts: u64,
    /// Consecutive CPU violations of the supervised service.
    pub cpu_violations: u32,
    /// Consecutive memory violations of the supervised service.
    pub memory_violations: u32,
    /// Wall-clock second of the latest tick.
    pub last_check_timestamp: u64,
}

impl MonitorStats {
    /// Fresh counters, all zero.
    pub fn new() -> (s: Self)
        ensures
            s == (MonitorStats {
                total_checks: 0,
                total_violations: 0,
                total_kills: 0,
                total_restarts: 0,
                cpu_violations: 0,
                memory_violations: 0,
                last_check_timestamp: 0,
            }),
    {
        MonitorStats {
            total_checks: 0,
            total_violations: 0,
            total_kills: 0,
            total_restarts: 0,
            cpu_violations: 0,
            memory_violations: 0,
            last_check_timestamp: 0,
        }
    }

    /// Clear the consecutive violation counters; history totals are kept.
    pub fn reset_violations(&mut self)
        ensures
            *final(self) == (MonitorStats {
                cpu_violations: 0,
                memory_violations: 0,
                ..*old(self)
            }),
    {
        self.cpu_violations = 0;
        self.memory_violations = 0;
    }

    /// Count one CPU violation, both consecutive and total.
    pub fn increment_cpu_violation(&mut self)
        requires
            old(self).cpu_violations < u32::MAX,
            old(self).total_violations < u64::MAX,
        ensures
            *final(self) == (MonitorStats {
                cpu_violations: (old(self).cpu_violations + 1) as u32,
                total_violations: (old(self).total_violations + 1) as u64,
                ..*old(self)
            }),
    {
        self.cpu_violations = self.cpu_violations + 1;
        self.total_violations = self.total_violations + 1;
    }

    /// Count one memory violation, both consecutive and total.
    pub fn increment_memory_violation(&mut self)
        requires
            old(self).memory_violations < u32::MAX,
            old(self).total_violations < u64::MAX,
        ensures
            *final(self) == (MonitorStats {
                memory_violations: (old(self).memory_violations + 1) as u32,
                total_violations: (old(self).total_violations + 1) as u64,
                ..*old(self)
            }),
    {
        self.memory_violations = self.memory_violations + 1;
        self.total_violations = self.total_violations + 1;
    }

    /// Record one killed process.
    pub fn record_kill(&mut self)
        requires
            old(self).total_kills < u64::MAX,
        ensures
            *final(self) == (MonitorStats {
                total_kills: (old(self).total_kills + 1) as u64,
                ..*old(self)
            }),
    {
        self.total_kills = self.total_kills + 1;
    }

    /// Record one service restart; the consecutive violation counters are
    /// cleared, the history totals are kept.
    pub fn record_restart(&mut self)
        requires
            old(self).total_restarts < u64::MAX,
        ensures
            *final(self) == (MonitorStats {
                total_restarts: (old(self).total_restarts + 1) as u64,
                cpu_violations: 0,
                memory_violations: 0,
                ..*old(self)
            }),
    {
        self.total_restarts = self.total_restarts + 1;
        self.reset_violations();
    }

    /// Count one tick.
    pub fn increment_checks(&mut self)
        requires
            old(self).total_checks < u64::MAX,
        ensures
            *final(self) == (MonitorStats {
                total_checks: (old(self).total_checks + 1) as u64,
                ..*old(self)
            }),
    {
        self.total_checks = self.total_checks + 1;
    }

    /// Stamp the tick time and count the tick.
    pub fn update_check_time(&mut self, timestamp: u64)
        requires
            old(self).total_checks < u64::MAX,
        ensures
            *final(self) == (MonitorStats {
                last_check_timestamp: timestamp,
                total_checks: (old(self).total_checks + 1) as u64,
                ..*old(self)
            }),
    {
        self.last_check_timestamp = timestamp;
        self.total_checks = self.total_checks + 1;
    }
}

} // verus!

use crate::text::{contains_seq, contains_str, ends_with_str, is_suffix, str_eq};

verus! {

/// One process reading from a scan: identity, command line, CPU load in
/// hundredths of a percent, and resident memory.
#[derive(Debug, Clone)]
pub struct ProcessInfo {
    pub pid: u32,
    pub name: String,
    pub command: String,
    /// CPU load in hundredths of a percent of one core.
    pub cpu_centi_percent: u64,
    pub memory_mb: u64,
    pub memory_kb: u64,
}

/// The command line names the supervised antivirus binary.
pub open spec fn matches_kesl(command: Seq<char>) -> bool {
    contains_seq(command, "/opt/kaspersky/kesl/libexec/kesl"@)
}

/// The name or command line marks a Node.js process.
pub open spec fn matches_node(name: Seq<char>, command: Seq<char>) -> bool {
    ||| name == "node"@
    ||| is_suffix("/node"@, name)
    ||| contains_seq(command, "node "@)
}

impl ProcessInfo {
    /// Build a reading; the megabyte figure is derived from kilobytes.
    pub fn new(pid: u32, name: String, command: String, cpu_centi_percent: u64, memory_kb: u64) -> (p: Self)
        ensures
            p.pid == pid,
            p.name == name,
            p.command == command,
            p.cpu_centi_percent == cpu_centi_percent,
            p.memory_kb == memory_kb,
            p.memory_mb == memory_kb / 1024,
    {
        let memory_mb = memory_kb / 1024;
        ProcessInfo { pid, name, command, cpu_centi_percent, memory_mb, memory_kb }
    }

    /// Is this the supervised antivirus process?
    pub fn is_kesl(&self) -> (r: bool)
        ensures
            r == matches_kesl(self.command@),
    {
        contains_str(self.command.as_str(), "/opt/kaspersky/kesl/libexec/kesl")
    }

    /// Is this a Node.js process?
    pub fn is_node(&self) -> (r: bool)
        ensures
            r == matches_node(self.name@, self.command@),
    {
        str_eq(self.name.as_str(), "node") || ends_with_str(self.name.as_str(), "/node")
            || contains_str(self.command.as_str(), "node ")
    }

    /// Strictly above the CPU threshold, both in hundredths of a percent.
    pub fn cpu_exceeds(&self, threshold_centi: u64) -> (r: bool)
        ensures
            r == (self.cpu_centi_percent > threshold_centi),
    {
        self.cpu_centi_percent > threshold_centi
    }

    /// Strictly above the memory threshold in whole megabytes.
    pub fn memory_exceeds(&self, threshold_mb: u64) -> (r: bool)
        ensures
            r == (self.memory_mb > threshold_mb),
    {
        self.memory_mb > threshold_mb
    }
}

} // verus!
