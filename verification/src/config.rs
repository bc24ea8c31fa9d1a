//! The engine's typed configuration and its validation. CPU thresholds
//! are hundredths of a percent; the host parses and serialises the
//! on-disk document and hands the values over.

use vstd::prelude::*;
use vstd::string::StringExecFns;

use crate::cgroups::types::CgroupConfig;
use crate::text::str_eq;

verus! {

/// Supervised-service settings.
#[derive(Debug, Clone)]
pub struct KeslConfig {
    /// CPU threshold in hundredths of a percent.
    pub cpu_threshold_centi: u64,
    pub memory_threshold_mb: u64,
    pub max_violations: u32,
    pub service_name: String,
    pub enabled: bool,
}

/// Node.js watching settings.
#[derive(Debug, Clone, Copy, PartialEq, Eq, Structural)]
pub struct NodeConfig {
    pub cpu_threshold_centi: u64,
    pub enabled: bool,
    pub auto_kill: bool,
    pub confirm_kill: bool,
}

/// Snap watching settings; the action is one of `nice`, `freeze`,
/// `kill`.
#[derive(Debug, Clone)]
pub struct SnapConfig {
    pub cpu_threshold_centi: u64,
    pub enabled: bool,
    pub action: String,
    pub nice_level: i32,
    pub freeze_duration_secs: u64,
    pub max_violations: u32,
}

/// Two-tier watching settings for one class.
#[derive(Debug, Clone, Copy, PartialEq, Eq, Structural)]
pub struct FirefoxConfig {
    pub cpu_threshold_freeze_centi: u64,
    pub cpu_threshold_kill_centi: u64,
    pub enabled: bool,
    pub freeze_duration_secs: u64,
    pub max_violations_freeze: u32,
    pub max_violations_kill: u32,
}

/// Two-tier watching settings for the Brave browser.
#[derive(Debug, Clone, Copy, PartialEq, Eq, Structural)]
pub struct BraveConfig {
    pub cpu_threshold_freeze_centi: u64,
    pub cpu_threshold_kill_centi: u64,
    pub enabled: bool,
    pub freeze_duration_secs: u64,
    pub max_violations_freeze: u32,
    pub max_violations_kill: u32,
}

/// Two-tier watching settings for the Telegram messenger.
#[derive(Debug, Clone, Copy, PartialEq, Eq, Structural)]
pub struct TelegramConfig {
    pub cpu_threshold_freeze_centi: u64,
    pub cpu_threshold_kill_centi: u64,
    pub enabled: bool,
    pub freeze_duration_secs: u64,
    pub max_violations_freeze: u32,
    pub max_violations_kill: u32,
}

/// Log placement and rotation settings.
#[derive(Debug, Clone)]
pub struct LogConfig {
    pub log_dir: String,
    pub kesl_log: String,
    pub node_log: String,
    pub actions_log: String,
    pub max_file_size_mb: u64,
    pub rotate_count: u32,
}

/// Tick and restart-guard settings.
#[derive(Debug, Clone, Copy, PartialEq, Eq, Structural)]
pub struct MonitoringConfig {
    pub check_interval_secs: u64,
    pub min_restart_interval_secs: u64,
}

/// Pressure-reactor settings; thresholds are hundredths of a percent
/// and each action is one of `log`, `nice`, `freeze`, `kill`.
#[derive(Debug, Clone)]
pub struct MemoryPressureConfig {
    pub enabled: bool,
    pub some_threshold_warning_centi: u64,
    pub some_threshold_critical_centi: u64,
    pub full_threshold_warning_centi: u64,
    pub full_threshold_critical_centi: u64,
    pub action_warning: String,
    pub action_critical: String,
    pub check_interval_secs: u64,
}

/// The whole configuration.
#[derive(Debug, Clone)]
pub struct Config {
    pub kesl: KeslConfig,
    pub node: NodeConfig,
    pub snap: SnapConfig,
    pub firefox: FirefoxConfig,
    pub brave: BraveConfig,
    pub telegram: TelegramConfig,
    pub memory_pressure: MemoryPressureConfig,
    pub cgroup: CgroupConfig,
    pub logging: LogConfig,
    pub monitoring: MonitoringConfig,
}

impl Default for KeslConfig {
    /// Thirty percent, six hundred mebibytes, three strikes.
    fn default() -> (r: Self)
        ensures
            r.cpu_threshold_centi == 3000,
            r.memory_threshold_mb == 600,
            r.max_violations == 3,
            r.service_name@ == "kesl"@,
            r.enabled,
    {
        KeslConfig {
            cpu_threshold_centi: 3000,
            memory_threshold_mb: 600,
            max_violations: 3,
            service_name: "kesl".to_owned(),
            enabled: true,
        }
    }
}

impl Default for NodeConfig {
    /// Eighty percent, kill on sight.
    fn default() -> (r: Self)
        ensures
            r == (NodeConfig {
                cpu_threshold_centi: 8000,
                enabled: true,
                auto_kill: true,
                confirm_kill: false,
            }),
    {
        NodeConfig {
            cpu_threshold_centi: 8000,
            enabled: true,
            auto_kill: true,
            confirm_kill: false,
        }
    }
}

impl Default for SnapConfig {
    /// Three saturated cores, then a moderate de-prioritisation.
    fn default() -> (r: Self)
        ensures
            r.cpu_threshold_centi == 30000,
            r.enabled,
            r.action@ == "nice"@,
            r.nice_level == 15,
            r.freeze_duration_secs == 5,
            r.max_violations == 3,
    {
        SnapConfig {
            cpu_threshold_centi: 30000,
            enabled: true,
            action: "nice".to_owned(),
            nice_level: 15,
            freeze_duration_secs: 5,
            max_violations: 3,
        }
    }
}

impl Default for FirefoxConfig {
    /// Freeze at eighty percent, kill at ninety-five.
    fn default() -> (r: Self)
        ensures
            r == (FirefoxConfig {
                cpu_threshold_freeze_centi: 8000,
                cpu_threshold_kill_centi: 9500,
                enabled: true,
                freeze_duration_secs: 5,
                max_violations_freeze: 2,
                max_violations_kill: 3,
            }),
    {
        FirefoxConfig {
            cpu_threshold_freeze_centi: 8000,
            cpu_threshold_kill_centi: 9500,
            enabled: true,
            freeze_duration_secs: 5,
            max_violations_freeze: 2,
            max_violations_kill: 3,
        }
    }
}

impl Default for BraveConfig {
    /// Freeze at eighty percent, kill at ninety-five.
    fn default() -> (r: Self)
        ensures
            r == (BraveConfig {
                cpu_threshold_freeze_centi: 8000,
                cpu_threshold_kill_centi: 9500,
                enabled: true,
                freeze_duration_secs: 5,
                max_violations_freeze: 2,
                max_violations_kill: 3,
            }),
    {
        BraveConfig {
            cpu_threshold_freeze_centi: 8000,
            cpu_threshold_kill_centi: 9500,
            enabled: true,
            freeze_duration_secs: 5,
            max_violations_freeze: 2,
            max_violations_kill: 3,
        }
    }
}

impl Default for TelegramConfig {
    /// Freeze at eighty percent, kill at ninety-five.
    fn default() -> (r: Self)
        ensures
            r == (TelegramConfig {
                cpu_threshold_freeze_centi: 8000,
                cpu_threshold_kill_centi: 9500,
                enabled: true,
                freeze_duration_secs: 5,
                max_violations_freeze: 2,
                max_violations_kill: 3,
            }),
    {
        TelegramConfig {
            cpu_threshold_freeze_centi: 8000,
            cpu_threshold_kill_centi: 9500,
            enabled: true,
            freeze_duration_secs: 5,
            max_violations_freeze: 2,
            max_violations_kill: 3,
        }
    }
}

impl Default for MemoryPressureConfig {
    /// Off; warn at ten and five percent, critical at thirty and
    /// fifteen; log on warning, freeze on critical; check every five
    /// seconds.
    fn default() -> (r: Self)
        ensures
            !r.enabled,
            r.some_threshold_warning_centi == 1000,
            r.some_threshold_critical_centi == 3000,
            r.full_threshold_warning_centi == 500,
            r.full_threshold_critical_centi == 1500,
            r.action_warning@ == "log"@,
            r.action_critical@ == "freeze"@,
            r.check_interval_secs == 5,
    {
        MemoryPressureConfig {
            enabled: false,
            some_threshold_warning_centi: 1000,
            some_threshold_critical_centi: 3000,
            full_threshold_warning_centi: 500,
            full_threshold_critical_centi: 1500,
            action_warning: "log".to_owned(),
            action_critical: "freeze".to_owned(),
            check_interval_secs: 5,
        }
    }
}

impl Default for LogConfig {
    /// Local `logs` directory, ten-mebibyte files, five kept.
    fn default() -> (r: Self)
        ensures
            r.log_dir@ == "./logs"@,
            r.kesl_log@ == "kesl-monitor.log"@,
            r.node_log@ == "node-monitor.log"@,
            r.actions_log@ == "actions.log"@,
            r.max_file_size_mb == 10,
            r.rotate_count == 5,
    {
        LogConfig {
            log_dir: "./logs".to_owned(),
            kesl_log: "kesl-monitor.log".to_owned(),
            node_log: "node-monitor.log".to_owned(),
            actions_log: "actions.log".to_owned(),
            max_file_size_mb: 10,
            rotate_count: 5,
        }
    }
}

impl Default for MonitoringConfig {
    /// A tick every three seconds, restarts one hundred apart.
    fn default() -> (r: Self)
        ensures
            r == (MonitoringConfig { check_interval_secs: 3, min_restart_interval_secs: 100 }),
    {
        MonitoringConfig { check_interval_secs: 3, min_restart_interval_secs: 100 }
    }
}

impl Default for Config {
    /// Every section at its defaults.
    fn default() -> (r: Self)
        ensures
            r.kesl.cpu_threshold_centi == 3000,
            r.kesl.memory_threshold_mb == 600,
            r.kesl.max_violations == 3,
            r.node.cpu_threshold_centi == 8000,
            r.monitoring.check_interval_secs == 3,
            r.monitoring.min_restart_interval_secs == 100,
            config_valid(r),
    {
        let c = Config {
            kesl: KeslConfig::default(),
            node: NodeConfig::default(),
            snap: SnapConfig::default(),
            firefox: FirefoxConfig::default(),
            brave: BraveConfig::default(),
            telegram: TelegramConfig::default(),
            memory_pressure: MemoryPressureConfig::default(),
            cgroup: CgroupConfig::default(),
            logging: LogConfig::default(),
            monitoring: MonitoringConfig::default(),
        };
        proof {
            reveal_strlit("nice");
            reveal_strlit("log");
            reveal_strlit("freeze");
        }
        c
    }
}

/// One of the four pressure remediations.
pub open spec fn pressure_action_known(a: Seq<char>) -> bool {
    a == "log"@ || a == "nice"@ || a == "freeze"@ || a == "kill"@
}

/// A configuration is valid when every threshold, level and interval
/// lies in its documented range: class CPU thresholds within one
/// hundred percent (ten hundred for snap), kill strictly above freeze
/// for the two-tier classes, caps and intervals positive, and the snap
/// action one of the three known words.
pub open spec fn config_valid(c: Config) -> bool {
    &&& c.kesl.cpu_threshold_centi <= 10000
    &&& c.kesl.memory_threshold_mb > 0
    &&& c.kesl.max_violations > 0
    &&& c.node.cpu_threshold_centi <= 10000
    &&& c.snap.cpu_threshold_centi <= 100000
    &&& (c.snap.action@ == "freeze"@ || c.snap.action@ == "nice"@ || c.snap.action@ == "kill"@)
    &&& 0 <= c.snap.nice_level <= 19
    &&& c.snap.max_violations > 0
    &&& c.firefox.cpu_threshold_freeze_centi <= 10000
    &&& c.firefox.cpu_threshold_kill_centi <= 10000
    &&& c.firefox.cpu_threshold_kill_centi > c.firefox.cpu_threshold_freeze_centi
    &&& c.firefox.max_violations_freeze > 0
    &&& c.firefox.max_violations_kill > 0
    &&& c.brave.cpu_threshold_freeze_centi <= 10000
    &&& c.brave.cpu_threshold_kill_centi <= 10000
    &&& c.brave.cpu_threshold_kill_centi > c.brave.cpu_threshold_freeze_centi
    &&& c.brave.max_violations_freeze > 0
    &&& c.brave.max_violations_kill > 0
    &&& c.telegram.cpu_threshold_freeze_centi <= 10000
    &&& c.telegram.cpu_threshold_kill_centi <= 10000
    &&& c.telegram.cpu_threshold_kill_centi > c.telegram.cpu_threshold_freeze_centi
    &&& c.telegram.max_violations_freeze > 0
    &&& c.telegram.max_violations_kill > 0
    &&& pressure_action_known(c.memory_pressure.action_warning@)
    &&& pressure_action_known(c.memory_pressure.action_critical@)
    &&& c.memory_pressure.check_interval_secs > 0
    &&& c.monitoring.check_interval_secs > 0
    &&& c.monitoring.min_restart_interval_secs > 0
    &&& c.logging.max_file_size_mb > 0
    &&& c.logging.rotate_count > 0
}

impl Config {
    /// Accept exactly the valid configurations; the message names the
    /// first failing check.
    pub fn validate(&self) -> (r: Result<(), String>)
        ensures
            r is Ok <==> config_valid(*self),
    {
        if self.kesl.cpu_threshold_centi > 10000 {
            return Err("KESL CPU threshold must be 0-100".to_owned());
        }
        if self.kesl.memory_threshold_mb == 0 {
            return Err("KESL memory threshold must be > 0".to_owned());
        }
        if self.kesl.max_violations == 0 {
            return Err("KESL max violations must be > 0".to_owned());
        }
        if self.node.cpu_threshold_centi > 10000 {
            return Err("Node CPU threshold must be 0-100".to_owned());
        }
        if self.snap.cpu_threshold_centi > 100000 {
            return Err("Snap CPU threshold must be 0-1000".to_owned());
        }
        if !(str_eq(self.snap.action.as_str(), "freeze") || str_eq(
            self.snap.action.as_str(),
            "nice",
        ) || str_eq(self.snap.action.as_str(), "kill")) {
            return Err("Snap action must be 'freeze', 'nice', or 'kill'".to_owned());
        }
        if self.snap.nice_level < 0 || self.snap.nice_level > 19 {
            return Err("Snap nice level must be 0-19".to_owned());
        }
        if self.snap.max_violations == 0 {
            return Err("Snap max violations must be > 0".to_owned());
        }
        if self.firefox.cpu_threshold_freeze_centi > 10000 {
            return Err("Firefox freeze CPU threshold must be 0-100".to_owned());
        }
        if self.firefox.cpu_threshold_kill_centi > 10000 {
            return Err("Firefox kill CPU threshold must be 0-100".to_owned());
        }
        if self.firefox.cpu_threshold_kill_centi <= self.firefox.cpu_threshold_freeze_centi {
            return Err("Firefox kill threshold must be > freeze threshold".to_owned());
        }
        if self.firefox.max_violations_freeze == 0 {
            return Err("Firefox max violations (freeze) must be > 0".to_owned());
        }
        if self.firefox.max_violations_kill == 0 {
            return Err("Firefox max violations (kill) must be > 0".to_owned());
        }
        if self.brave.cpu_threshold_freeze_centi > 10000 {
            return Err("Brave freeze CPU threshold must be 0-100".to_owned());
        }
        if self.brave.cpu_threshold_kill_centi > 10000 {
            return Err("Brave kill CPU threshold must be 0-100".to_owned());
        }
        if self.brave.cpu_threshold_kill_centi <= self.brave.cpu_threshold_freeze_centi {
            return Err("Brave kill threshold must be > freeze threshold".to_owned());
        }
        if self.brave.max_violations_freeze == 0 {
            return Err("Brave max violations (freeze) must be > 0".to_owned());
        }
        if self.brave.max_violations_kill == 0 {
            return Err("Brave max violations (kill) must be > 0".to_owned());
        }
        if self.telegram.cpu_threshold_freeze_centi > 10000 {
            return Err("Telegram freeze CPU threshold must be 0-100".to_owned());
        }
        if self.telegram.cpu_threshold_kill_centi > 10000 {
            return Err("Telegram kill CPU threshold must be 0-100".to_owned());
        }
        if self.telegram.cpu_threshold_kill_centi <= self.telegram.cpu_threshold_freeze_centi {
            return Err("Telegram kill threshold must be > freeze threshold".to_owned());
        }
        if self.telegram.max_violations_freeze == 0 {
            return Err("Telegram max violations (freeze) must be > 0".to_owned());
        }
        if self.telegram.max_violations_kill == 0 {
            return Err("Telegram max violations (kill) must be > 0".to_owned());
        }
        if !pressure_action_ok(self.memory_pressure.action_warning.as_str()) {
            return Err(
                "Memory pressure action must be 'log', 'nice', 'freeze', or 'kill'".to_owned(),
            );
        }
        if !pressure_action_ok(self.memory_pressure.action_critical.as_str()) {
            return Err(
                "Memory pressure action must be 'log', 'nice', 'freeze', or 'kill'".to_owned(),
            );
        }
        if self.memory_pressure.check_interval_secs == 0 {
            return Err("Memory pressure check interval must be > 0".to_owned());
        }
        if self.monitoring.check_interval_secs == 0 {
            return Err("Check interval must be > 0".to_owned());
        }
        if self.monitoring.min_restart_interval_secs == 0 {
            return Err("Min restart interval must be > 0".to_owned());
        }
        if self.logging.max_file_size_mb == 0 {
            return Err("Max log file size must be > 0".to_owned());
        }
        if self.logging.rotate_count == 0 {
            return Err("Log rotate count must be > 0".to_owned());
        }
        Ok(())
    }

    /// The supervised-service log file path.
    pub fn kesl_log_path(&self) -> (r: String)
        ensures
            r@ == self.logging.log_dir@ + "/"@ + self.logging.kesl_log@,
    {
        join_path(self.logging.log_dir.as_str(), self.logging.kesl_log.as_str())
    }

    /// The Node.js log file path.
    pub fn node_log_path(&self) -> (r: String)
        ensures
            r@ == self.logging.log_dir@ + "/"@ + self.logging.node_log@,
    {
        join_path(self.logging.log_dir.as_str(), self.logging.node_log.as_str())
    }

    /// The actions log file path.
    pub fn actions_log_path(&self) -> (r: String)
        ensures
            r@ == self.logging.log_dir@ + "/"@ + self.logging.actions_log@,
    {
        join_path(self.logging.log_dir.as_str(), self.logging.actions_log.as_str())
    }
}

/// Is the action word one of the four known remediations?
pub fn pressure_action_ok(a: &str) -> (r: bool)
    ensures
        r == pressure_action_known(a@),
{
    str_eq(a, "log") || str_eq(a, "nice") || str_eq(a, "freeze") || str_eq(a, "kill")
}

/// A directory and a file name joined with one separator.
fn join_path(dir: &str, file: &str) -> (r: String)
    ensures
        r@ == dir@ + "/"@ + file@,
{
    let mut p = String::new();
    p.append(dir);
    p.append("/");
    p.append(file);
    p
}

} // verus!
