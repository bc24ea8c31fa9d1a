//! The read-only statistics projection for external observers, and the
//! parsers for the system figures it carries. Percentages and load
//! averages are in hundredths.

use vstd::prelude::*;

use crate::monitor::ResourceMonitor;
use crate::num::{centi_ok, centi_val, dec_val, parse_centi, parse_u64};
use crate::text::{
    all_digits, is_prefix, split_lines, split_lines_spec, split_ws, split_ws_spec,
    starts_with_str, views_of,
};
use vstd::string::StringExecFns;
use crate::violations::TierAction;

verus! {

/// A complete statistics snapshot.
#[derive(Debug, Clone)]
pub struct MonitorStats {
    pub timestamp: u64,
    pub runtime_secs: u64,
    pub total_checks: u64,
    pub kesl: ProcessStats,
    pub node: NodeStats,
    pub snap: SnapStats,
    pub firefox: BrowserStats,
    pub brave: BrowserStats,
    pub telegram: BrowserStats,
    pub memory_pressure: MemoryPressureStats,
    pub system_health: SystemHealth,
    pub log_stats: LogStats,
}

/// Supervised-service figures.
#[derive(Debug, Clone, Copy, PartialEq, Eq, Structural)]
pub struct ProcessStats {
    pub pid: Option<u32>,
    /// Load in hundredths of a percent.
    pub cpu_centi_percent: u64,
    pub memory_mb: u64,
    pub cpu_threshold_centi: u64,
    pub memory_threshold_mb: u64,
    pub total_cpu_violations: u32,
    pub total_memory_violations: u32,
    pub current_cpu_violations: u32,
    pub current_memory_violations: u32,
    pub max_violations: u32,
    /// Violations per hundred ticks, in hundredths.
    pub violation_rate_centi: u64,
    pub total_restarts: u32,
}

/// Node.js figures.
#[derive(Debug, Clone, Copy, PartialEq, Eq, Structural)]
pub struct NodeStats {
    pub enabled: bool,
    pub cpu_threshold_centi: u64,
    pub auto_kill: bool,
    pub total_kills: u32,
}

/// Snap figures.
#[derive(Debug, Clone)]
pub struct SnapStats {
    pub enabled: bool,
    pub cpu_threshold_centi: u64,
    pub action: TierAction,
    pub nice_level: i32,
    pub total_actions: u32,
}

/// Two-tier class figures.
#[derive(Debug, Clone, Copy, PartialEq, Eq, Structural)]
pub struct BrowserStats {
    pub enabled: bool,
    pub freeze_threshold_centi: u64,
    pub kill_threshold_centi: u64,
    pub freeze_violations: u32,
    pub kill_violations: u32,
    pub max_violations_freeze: u32,
    pub max_violations_kill: u32,
    pub total_freezes: u32,
    pub total_kills: u32,
}

/// Pressure-reactor figures.
#[derive(Debug, Clone)]
pub struct MemoryPressureStats {
    pub enabled: bool,
    pub some_avg10: u64,
    pub full_avg10: u64,
    pub status: String,
    pub warning_count: u32,
    pub critical_count: u32,
    pub some_threshold_warning: u64,
    pub some_threshold_critical: u64,
    pub full_threshold_warning: u64,
    pub full_threshold_critical: u64,
    pub action_warning: TierAction,
    pub action_critical: TierAction,
}

/// Host figures: load averages in hundredths, memory in mebibytes.
#[derive(Debug, Clone, Copy, PartialEq, Eq, Structural)]
pub struct SystemHealth {
    pub load_1min_centi: u64,
    pub load_5min_centi: u64,
    pub load_15min_centi: u64,
    pub memory_used_centi_percent: u64,
    pub memory_total_mb: u64,
    pub memory_available_mb: u64,
}

/// Log housekeeping figures.
#[derive(Debug, Clone)]
pub struct LogStats {
    pub active_files: usize,
    pub active_size: String,
    pub archive_files: usize,
    pub archive_size: String,
}

impl Default for ProcessStats {
    /// All zero, thresholds at the supervised-service defaults.
    fn default() -> (r: Self)
        ensures
            r == (ProcessStats {
                pid: None,
                cpu_centi_percent: 0,
                memory_mb: 0,
                cpu_threshold_centi: 3000,
                memory_threshold_mb: 600,
                total_cpu_violations: 0,
                total_memory_violations: 0,
                current_cpu_violations: 0,
                current_memory_violations: 0,
                max_violations: 3,
                violation_rate_centi: 0,
                total_restarts: 0,
            }),
    {
        ProcessStats {
            pid: None,
            cpu_centi_percent: 0,
            memory_mb: 0,
            cpu_threshold_centi: 3000,
            memory_threshold_mb: 600,
            total_cpu_violations: 0,
            total_memory_violations: 0,
            current_cpu_violations: 0,
            current_memory_violations: 0,
            max_violations: 3,
            violation_rate_centi: 0,
            total_restarts: 0,
        }
    }
}

impl Default for NodeStats {
    /// Disabled, the default threshold, nothing killed.
    fn default() -> (r: Self)
        ensures
            r == (NodeStats {
                enabled: false,
                cpu_threshold_centi: 8000,
                auto_kill: false,
                total_kills: 0,
            }),
    {
        NodeStats { enabled: false, cpu_threshold_centi: 8000, auto_kill: false, total_kills: 0 }
    }
}

impl Default for SnapStats {
    /// Disabled, the default threshold and action.
    fn default() -> (r: Self)
        ensures
            !r.enabled,
            r.cpu_threshold_centi == 30000,
            r.action == TierAction::Nice(15),
            r.nice_level == 15,
            r.total_actions == 0,
    {
        SnapStats {
            enabled: false,
            cpu_threshold_centi: 30000,
            action: TierAction::Nice(15),
            nice_level: 15,
            total_actions: 0,
        }
    }
}

impl Default for BrowserStats {
    /// Disabled, the default two-tier thresholds.
    fn default() -> (r: Self)
        ensures
            r == (BrowserStats {
                enabled: false,
                freeze_threshold_centi: 8000,
                kill_threshold_centi: 9500,
                freeze_violations: 0,
                kill_violations: 0,
                max_violations_freeze: 2,
                max_violations_kill: 3,
                total_freezes: 0,
                total_kills: 0,
            }),
    {
        BrowserStats {
            enabled: false,
            freeze_threshold_centi: 8000,
            kill_threshold_centi: 9500,
            freeze_violations: 0,
            kill_violations: 0,
            max_violations_freeze: 2,
            max_violations_kill: 3,
            total_freezes: 0,
            total_kills: 0,
        }
    }
}

impl Default for MemoryPressureStats {
    /// Disabled, the default thresholds, no pressure seen.
    fn default() -> (r: Self)
        ensures
            !r.enabled,
            r.some_avg10 == 0 && r.full_avg10 == 0,
            r.status@ == "NONE"@,
            r.warning_count == 0 && r.critical_count == 0,
            r.some_threshold_warning == 1000,
            r.some_threshold_critical == 3000,
            r.full_threshold_warning == 500,
            r.full_threshold_critical == 1500,
    {
        MemoryPressureStats {
            enabled: false,
            some_avg10: 0,
            full_avg10: 0,
            status: "NONE".to_owned(),
            warning_count: 0,
            critical_count: 0,
            some_threshold_warning: 1000,
            some_threshold_critical: 3000,
            full_threshold_warning: 500,
            full_threshold_critical: 1500,
            action_warning: TierAction::Unknown,
            action_critical: TierAction::Freeze(5),
        }
    }
}

impl Default for SystemHealth {
    /// All zero.
    fn default() -> (r: Self)
        ensures
            r == (SystemHealth {
                load_1min_centi: 0,
                load_5min_centi: 0,
                load_15min_centi: 0,
                memory_used_centi_percent: 0,
                memory_total_mb: 0,
                memory_available_mb: 0,
            }),
    {
        SystemHealth {
            load_1min_centi: 0,
            load_5min_centi: 0,
            load_15min_centi: 0,
            memory_used_centi_percent: 0,
            memory_total_mb: 0,
            memory_available_mb: 0,
        }
    }
}

impl Default for LogStats {
    /// Nothing counted yet.
    fn default() -> (r: Self)
        ensures
            r.active_files == 0,
            r.active_size@ == "0"@,
            r.archive_files == 0,
            r.archive_size@ == "0"@,
    {
        LogStats {
            active_files: 0,
            active_size: "0".to_owned(),
            archive_files: 0,
            archive_size: "0".to_owned(),
        }
    }
}

/// The first three whitespace fields of a load-average line, each in
/// hundredths; zero where one does not parse.
pub open spec fn loadavg_field(content: Seq<char>, i: int) -> u64 {
    let toks = split_ws_spec(content);
    if toks.len() > i && centi_ok(toks[i]) && centi_val(toks[i]) <= u64::MAX {
        centi_val(toks[i]) as u64
    } else {
        0u64
    }
}

/// Parse a `/proc/loadavg` text into its three averages, in
/// hundredths.
pub fn parse_loadavg(content: &str) -> (r: (u64, u64, u64))
    ensures
        r.0 == loadavg_field(content@, 0),
        r.1 == loadavg_field(content@, 1),
        r.2 == loadavg_field(content@, 2),
{
    let toks = split_ws(content);
    let a = if toks.len() > 0 {
        proof {
            assert(toks@[0]@ == split_ws_spec(content@)[0]);
        }
        match parse_centi(toks[0].as_str()) {
            Some(v) => v,
            None => 0,
        }
    } else {
        0
    };
    let b = if toks.len() > 1 {
        proof {
            assert(toks@[1]@ == split_ws_spec(content@)[1]);
        }
        match parse_centi(toks[1].as_str()) {
            Some(v) => v,
            None => 0,
        }
    } else {
        0
    };
    let c = if toks.len() > 2 {
        proof {
            assert(toks@[2]@ == split_ws_spec(content@)[2]);
        }
        match parse_centi(toks[2].as_str()) {
            Some(v) => v,
            None => 0,
        }
    } else {
        0
    };
    (a, b, c)
}

/// The kilobyte figure of the last `key:` line of a memory-info text,
/// or zero.
pub open spec fn meminfo_field(lines: Seq<Seq<char>>, key: Seq<char>) -> u64
    decreases lines.len(),
{
    if lines.len() == 0 {
        0u64
    } else {
        let l = lines.last();
        let toks = split_ws_spec(l);
        if is_prefix(key, l) && toks.len() >= 2 && toks[1].len() >= 1 && all_digits(toks[1])
            && dec_val(toks[1]) <= u64::MAX {
            dec_val(toks[1]) as u64
        } else {
            meminfo_field(lines.drop_last(), key)
        }
    }
}

/// Parse a `/proc/meminfo` text into total and available kilobytes.
pub fn parse_meminfo(content: &str) -> (r: (u64, u64))
    ensures
        r.0 == meminfo_field(split_lines_spec(content@), "MemTotal:"@),
        r.1 == meminfo_field(split_lines_spec(content@), "MemAvailable:"@),
{
    let lines = split_lines(content);
    let mut total: u64 = 0;
    let mut avail: u64 = 0;
    let mut i: usize = 0;
    while i < lines.len()
        invariant
            views_of(lines@) == split_lines_spec(content@),
            i <= lines@.len(),
            total == meminfo_field(views_of(lines@).subrange(0, i as int), "MemTotal:"@),
            avail == meminfo_field(views_of(lines@).subrange(0, i as int), "MemAvailable:"@),
        decreases lines@.len() - i,
    {
        proof {
            let vs = views_of(lines@);
            let t = vs.subrange(0, i + 1);
            assert(t.drop_last() =~= vs.subrange(0, i as int));
            assert(t.last() == vs[i as int]);
            assert(vs[i as int] == lines@[i as int]@);
        }
        let l = lines[i].as_str();
        let is_total = starts_with_str(l, "MemTotal:");
        let is_avail = starts_with_str(l, "MemAvailable:");
        if is_total || is_avail {
            let toks = split_ws(l);
            if toks.len() >= 2 {
                proof {
                    assert(toks@[1]@ == split_ws_spec(lines@[i as int]@)[1]);
                }
                match parse_u64(toks[1].as_str()) {
                    Some(v) => {
                        if is_total {
                            total = v;
                        }
                        if is_avail {
                            avail = v;
                        }
                    },
                    None => {},
                }
            }
        }
        i = i + 1;
    }
    proof {
        assert(views_of(lines@).subrange(0, lines@.len() as int) =~= views_of(lines@));
    }
    (total, avail)
}

/// Used-memory share in hundredths of a percent.
pub fn memory_used_centi(total_kb: u64, available_kb: u64) -> (r: u64)
    ensures
        r == if total_kb == 0 || available_kb > total_kb {
            0u64
        } else {
            (((total_kb - available_kb) as int) * 10000 / (total_kb as int)) as u64
        },
{
    if total_kb == 0 || available_kb > total_kb {
        return 0;
    }
    let used = total_kb - available_kb;
    let wide = (used as u128) * 10000 / (total_kb as u128);
    proof {
        assert(((used as int) * 10000 / (total_kb as int)) <= 10000) by (nonlinear_arith)
            requires
                0 < total_kb,
                0 <= used <= total_kb,
        ;
    }
    wide as u64
}

/// The host figures a tick observed: the text of the load-average and
/// memory-info files, and the pressure reading if one was taken.
pub struct SystemReadings {
    pub loadavg: String,
    pub meminfo: String,
    pub pressure: Option<crate::psi::MemoryPressure>,
}

impl ResourceMonitor {
    /// Project the engine's state and the tick's readings into one
    /// read-only snapshot; the engine itself is untouched.
    pub fn export_stats(
        &self,
        runtime_secs: u64,
        timestamp: u64,
        kesl: &Option<crate::types::ProcessInfo>,
        readings: &SystemReadings,
    ) -> (r: MonitorStats)
        ensures
            r.runtime_secs == runtime_secs,
            r.timestamp == timestamp,
            r.total_checks == self.stats.total_checks,
            r.kesl.current_cpu_violations == self.cpu_violations,
            r.kesl.current_memory_violations == self.memory_violations,
            r.kesl.total_cpu_violations == self.stats.cpu_violations,
            r.kesl.total_memory_violations == self.stats.memory_violations,
            r.kesl.cpu_threshold_centi == self.cpu_threshold_centi,
            r.kesl.memory_threshold_mb == self.memory_threshold_mb,
            r.kesl.max_violations == self.max_violations,
            r.node.enabled == self.node_enabled,
            r.node.cpu_threshold_centi == self.node_cpu_threshold_centi,
            r.node.auto_kill == self.node_auto_kill,
            r.snap.enabled == self.snap_enabled,
            r.snap.cpu_threshold_centi == self.snap_cpu_threshold_centi,
            r.snap.action == self.snap_action,
            r.snap.nice_level == self.snap_nice_level,
            r.firefox.enabled == self.firefox_enabled,
            r.firefox.freeze_threshold_centi == self.firefox_config.freeze_centi,
            r.firefox.kill_threshold_centi == self.firefox_config.kill_centi,
            r.firefox.max_violations_freeze == self.firefox_config.max_freeze,
            r.firefox.max_violations_kill == self.firefox_config.max_kill,
            r.firefox.freeze_violations == self.firefox_counters.freeze_hits,
            r.firefox.kill_violations == self.firefox_counters.kill_hits,
            r.brave.enabled == self.brave_enabled,
            r.brave.freeze_threshold_centi == self.brave_config.freeze_centi,
            r.brave.kill_threshold_centi == self.brave_config.kill_centi,
            r.brave.max_violations_freeze == self.brave_config.max_freeze,
            r.brave.max_violations_kill == self.brave_config.max_kill,
            r.brave.freeze_violations == self.brave_counters.freeze_hits,
            r.brave.kill_violations == self.brave_counters.kill_hits,
            r.telegram.enabled == self.telegram_enabled,
            r.telegram.freeze_threshold_centi == self.telegram_config.freeze_centi,
            r.telegram.kill_threshold_centi == self.telegram_config.kill_centi,
            r.telegram.max_violations_freeze == self.telegram_config.max_freeze,
            r.telegram.max_violations_kill == self.telegram_config.max_kill,
            r.telegram.freeze_violations == self.telegram_counters.freeze_hits,
            r.telegram.kill_violations == self.telegram_counters.kill_hits,
            r.memory_pressure.enabled == self.memory_pressure_enabled,
            r.memory_pressure.warning_count == self.pressure_warning_count,
            r.memory_pressure.critical_count == self.pressure_critical_count,
            r.memory_pressure.some_threshold_warning == self.pressure_thresholds.some_warning,
            r.memory_pressure.some_threshold_critical == self.pressure_thresholds.some_critical,
            r.memory_pressure.full_threshold_warning == self.pressure_thresholds.full_warning,
            r.memory_pressure.full_threshold_critical == self.pressure_thresholds.full_critical,
            r.memory_pressure.action_warning == self.pressure_action_warning,
            r.memory_pressure.action_critical == self.pressure_action_critical,
            !self.memory_pressure_enabled ==> r.memory_pressure.some_avg10 == 0
                && r.memory_pressure.full_avg10 == 0 && r.memory_pressure.status@
                == "DISABLED"@,
            self.memory_pressure_enabled && (readings.pressure matches Some(pr)) ==> (
            readings.pressure matches Some(pr2) && r.memory_pressure.some_avg10
                == pr2.some_avg10 && r.memory_pressure.full_avg10 == pr2.full_avg10),
    {
        let (kesl_pid, kesl_cpu, kesl_mem) = match kesl {
            Some(p) => (Some(p.pid), p.cpu_centi_percent, p.memory_kb / 1024),
            None => (None, 0u64, 0u64),
        };
        let (mp_some, mp_full, mp_status) = if !self.memory_pressure_enabled {
            let mut status = String::new();
            status.append("DISABLED");
            (0u64, 0u64, status)
        } else {
            match &readings.pressure {
                Some(p) => {
                    let label = if p.full_avg10 >= self.pressure_thresholds.full_critical {
                        "CRITICAL"
                    } else if p.some_avg10 >= self.pressure_thresholds.some_critical {
                        "WARNING"
                    } else {
                        "OK"
                    };
                    let mut status = String::new();
                    status.append(label);
                    (p.some_avg10, p.full_avg10, status)
                },
                None => {
                    let mut status = String::new();
                    status.append("UNKNOWN");
                    (0u64, 0u64, status)
                },
            }
        };
        let loads = parse_loadavg(readings.loadavg.as_str());
        let mems = parse_meminfo(readings.meminfo.as_str());
        let used_centi = memory_used_centi(mems.0, mems.1);
        let violation_rate_centi: u64 = if self.stats.total_checks > 0 {
            let total_v = (self.stats.cpu_violations as u128)
                + (self.stats.memory_violations as u128);
            let wide = total_v * 10000 / (self.stats.total_checks as u128);
            if wide > u64::MAX as u128 {
                u64::MAX
            } else {
                wide as u64
            }
        } else {
            0
        };
        let total_restarts32: u32 = if self.stats.total_restarts > 4294967295 {
            4294967295u32
        } else {
            self.stats.total_restarts as u32
        };
        let total_kills32: u32 = if self.stats.total_kills > 4294967295 {
            4294967295u32
        } else {
            self.stats.total_kills as u32
        };
        MonitorStats {
            timestamp,
            runtime_secs,
            total_checks: self.stats.total_checks,
            kesl: ProcessStats {
                pid: kesl_pid,
                cpu_centi_percent: kesl_cpu,
                memory_mb: kesl_mem,
                cpu_threshold_centi: self.cpu_threshold_centi,
                memory_threshold_mb: self.memory_threshold_mb,
                total_cpu_violations: self.stats.cpu_violations,
                total_memory_violations: self.stats.memory_violations,
                current_cpu_violations: self.cpu_violations,
                current_memory_violations: self.memory_violations,
                max_violations: self.max_violations,
                violation_rate_centi,
                total_restarts: total_restarts32,
            },
            node: NodeStats {
                enabled: self.node_enabled,
                cpu_threshold_centi: self.node_cpu_threshold_centi,
                auto_kill: self.node_auto_kill,
                total_kills: total_kills32,
            },
            snap: SnapStats {
                enabled: self.snap_enabled,
                cpu_threshold_centi: self.snap_cpu_threshold_centi,
                action: self.snap_action,
                nice_level: self.snap_nice_level,
                total_actions: 0,
            },
            firefox: BrowserStats {
                enabled: self.firefox_enabled,
                freeze_threshold_centi: self.firefox_config.freeze_centi,
                kill_threshold_centi: self.firefox_config.kill_centi,
                freeze_violations: self.firefox_counters.freeze_hits,
                kill_violations: self.firefox_counters.kill_hits,
                max_violations_freeze: self.firefox_config.max_freeze,
                max_violations_kill: self.firefox_config.max_kill,
                total_freezes: 0,
                total_kills: 0,
            },
            brave: BrowserStats {
                enabled: self.brave_enabled,
                freeze_threshold_centi: self.brave_config.freeze_centi,
                kill_threshold_centi: self.brave_config.kill_centi,
                freeze_violations: self.brave_counters.freeze_hits,
                kill_violations: self.brave_counters.kill_hits,
                max_violations_freeze: self.brave_config.max_freeze,
                max_violations_kill: self.brave_config.max_kill,
                total_freezes: 0,
                total_kills: 0,
            },
            telegram: BrowserStats {
                enabled: self.telegram_enabled,
                freeze_threshold_centi: self.telegram_config.freeze_centi,
                kill_threshold_centi: self.telegram_config.kill_centi,
                freeze_violations: self.telegram_counters.freeze_hits,
                kill_violations: self.telegram_counters.kill_hits,
                max_violations_freeze: self.telegram_config.max_freeze,
                max_violations_kill: self.telegram_config.max_kill,
                total_freezes: 0,
                total_kills: 0,
            },
            memory_pressure: MemoryPressureStats {
                enabled: self.memory_pressure_enabled,
                some_avg10: mp_some,
                full_avg10: mp_full,
                status: mp_status,
                warning_count: self.pressure_warning_count,
                critical_count: self.pressure_critical_count,
                some_threshold_warning: self.pressure_thresholds.some_warning,
                some_threshold_critical: self.pressure_thresholds.some_critical,
                full_threshold_warning: self.pressure_thresholds.full_warning,
                full_threshold_critical: self.pressure_thresholds.full_critical,
                action_warning: self.pressure_action_warning,
                action_critical: self.pressure_action_critical,
            },
            system_health: SystemHealth {
                load_1min_centi: loads.0,
                load_5min_centi: loads.1,
                load_15min_centi: loads.2,
                memory_used_centi_percent: used_centi,
                memory_total_mb: mems.0 / 1024,
                memory_available_mb: mems.1 / 1024,
            },
            log_stats: LogStats::default(),
        }
    }
}

impl MonitorStats {
    /// The wall clock, in whole seconds.
    pub fn current_timestamp() -> u64 {
        crate::systemd::SystemdService::current_timestamp()
    }
}

} // verus!
