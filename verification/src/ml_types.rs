//! Analytics-oriented process data: detailed snapshots, states,
//! categories and events. Times are epoch seconds; rates are hundredths
//! of a percent; free-form detail rides as text.

use vstd::prelude::*;

use crate::text::{contains_seq, contains_str, is_prefix, lower_seq, starts_with_str, to_ascii_lower};

verus! {

/// A detailed process reading for offline analysis.
#[derive(Debug, Clone)]
pub struct ProcessSnapshot {
    pub pid: u32,
    pub name: String,
    pub cmdline: String,
    pub user: String,
    /// Epoch seconds of the reading.
    pub timestamp: u64,
    /// Epoch seconds the process started.
    pub start_time: u64,
    pub uptime_seconds: u64,
    /// CPU load in hundredths of a percent.
    pub cpu_centi_percent: u64,
    pub memory_rss_mb: u64,
    pub memory_vms_mb: u64,
    /// Memory share in hundredths of a percent.
    pub memory_centi_percent: u64,
    pub io_stats: Option<IOStats>,
    pub user_time_ticks: u64,
    pub system_time_ticks: u64,
    pub num_threads: u32,
    pub voluntary_ctxt_switches: u64,
    pub nonvoluntary_ctxt_switches: u64,
    pub nice_value: i32,
    pub priority: i32,
    pub state: ProcessState,
    pub category: ProcessCategory,
}

/// Input/output counters of one process.
#[derive(Debug, Clone, Copy, PartialEq, Eq, Structural)]
pub struct IOStats {
    pub read_bytes: u64,
    pub write_bytes: u64,
    pub read_ops: u64,
    pub write_ops: u64,
    pub cancelled_write_bytes: u64,
}

/// The scheduler state letter of a process.
#[derive(Debug, Clone, Copy, PartialEq, Eq, Structural)]
pub enum ProcessState {
    Running,
    Sleeping,
    DiskSleep,
    Zombie,
    Stopped,
    TracingStop,
    Dead,
    Unknown,
}

/// The state a `/proc` state letter denotes.
pub open spec fn state_of_char(c: char) -> ProcessState {
    if c == 'R' {
        ProcessState::Running
    } else if c == 'S' {
        ProcessState::Sleeping
    } else if c == 'D' {
        ProcessState::DiskSleep
    } else if c == 'Z' {
        ProcessState::Zombie
    } else if c == 'T' {
        ProcessState::Stopped
    } else if c == 't' {
        ProcessState::TracingStop
    } else if c == 'X' || c == 'x' {
        ProcessState::Dead
    } else {
        ProcessState::Unknown
    }
}

impl From<char> for ProcessState {
    /// Decode a `/proc` state letter.
    fn from(c: char) -> (r: Self)
        ensures
            r == state_of_char(c),
    {
        match c {
            'R' => ProcessState::Running,
            'S' => ProcessState::Sleeping,
            'D' => ProcessState::DiskSleep,
            'Z' => ProcessState::Zombie,
            'T' => ProcessState::Stopped,
            't' => ProcessState::TracingStop,
            'X' | 'x' => ProcessState::Dead,
            _ => ProcessState::Unknown,
        }
    }
}

impl vstd::std_specs::convert::FromSpecImpl<char> for ProcessState {
    open spec fn obeys_from_spec() -> bool {
        true
    }

    open spec fn from_spec(c: char) -> Self {
        state_of_char(c)
    }
}

/// A coarse classification of what a process is for.
#[derive(Debug, Clone, Copy, PartialEq, Eq, Structural)]
pub enum ProcessCategory {
    Browser,
    IDE,
    BuildTool,
    SystemService,
    Antivirus,
    Database,
    WebServer,
    Background,
    Gaming,
    Media,
    Unknown,
}

/// The classification rules, applied to the lowered name and command
/// line: the first matching family wins.
pub open spec fn category_of(name: Seq<char>, cmdline: Seq<char>) -> ProcessCategory {
    let n = lower_seq(name);
    let c = lower_seq(cmdline);
    if contains_seq(n, "firefox"@) || contains_seq(n, "chrome"@) || contains_seq(n, "brave"@)
        || contains_seq(c, "browser"@) {
        ProcessCategory::Browser
    } else if contains_seq(n, "code"@) || contains_seq(n, "idea"@) || contains_seq(n, "pycharm"@)
        || contains_seq(n, "cursor"@) || contains_seq(c, "vscode"@) {
        ProcessCategory::IDE
    } else if contains_seq(n, "cargo"@) || contains_seq(n, "rustc"@) || contains_seq(n, "gcc"@)
        || contains_seq(n, "make"@) || contains_seq(n, "npm"@) || contains_seq(n, "yarn"@)
        || contains_seq(c, "build"@) {
        ProcessCategory::BuildTool
    } else if contains_seq(n, "kesl"@) || contains_seq(n, "kaspersky"@) || contains_seq(
        n,
        "clamav"@,
    ) || contains_seq(c, "antivirus"@) {
        ProcessCategory::Antivirus
    } else if contains_seq(n, "postgres"@) || contains_seq(n, "mysql"@) || contains_seq(
        n,
        "mongo"@,
    ) || contains_seq(n, "redis"@) {
        ProcessCategory::Database
    } else if contains_seq(n, "nginx"@) || contains_seq(n, "apache"@) || contains_seq(
        n,
        "node"@,
    ) {
        ProcessCategory::WebServer
    } else if contains_seq(n, "steam"@) || contains_seq(n, "game"@) || contains_seq(c, ".exe"@) {
        ProcessCategory::Gaming
    } else if contains_seq(n, "vlc"@) || contains_seq(n, "mpv"@) || contains_seq(n, "ffmpeg"@) {
        ProcessCategory::Media
    } else if is_prefix("systemd"@, n) || contains_seq(n, "dbus"@) || contains_seq(
        c,
        "/lib/systemd"@,
    ) {
        ProcessCategory::SystemService
    } else {
        ProcessCategory::Unknown
    }
}

impl ProcessCategory {
    /// Classify a process by its name and command line.
    pub fn classify(name: &str, cmdline: &str) -> (r: Self)
        ensures
            r == category_of(name@, cmdline@),
    {
        let name_lower = to_ascii_lower(name);
        let cmdline_lower = to_ascii_lower(cmdline);
        let n = name_lower.as_str();
        let c = cmdline_lower.as_str();
        if contains_str(n, "firefox") || contains_str(n, "chrome") || contains_str(n, "brave")
            || contains_str(c, "browser") {
            ProcessCategory::Browser
        } else if contains_str(n, "code") || contains_str(n, "idea") || contains_str(n, "pycharm")
            || contains_str(n, "cursor") || contains_str(c, "vscode") {
            ProcessCategory::IDE
        } else if contains_str(n, "cargo") || contains_str(n, "rustc") || contains_str(n, "gcc")
            || contains_str(n, "make") || contains_str(n, "npm") || contains_str(n, "yarn")
            || contains_str(c, "build") {
            ProcessCategory::BuildTool
        } else if contains_str(n, "kesl") || contains_str(n, "kaspersky") || contains_str(
            n,
            "clamav",
        ) || contains_str(c, "antivirus") {
            ProcessCategory::Antivirus
        } else if contains_str(n, "postgres") || contains_str(n, "mysql") || contains_str(
            n,
            "mongo",
        ) || contains_str(n, "redis") {
            ProcessCategory::Database
        } else if contains_str(n, "nginx") || contains_str(n, "apache") || contains_str(
            n,
            "node",
        ) {
            ProcessCategory::WebServer
        } else if contains_str(n, "steam") || contains_str(n, "game") || contains_str(c, ".exe") {
            ProcessCategory::Gaming
        } else if contains_str(n, "vlc") || contains_str(n, "mpv") || contains_str(n, "ffmpeg") {
            ProcessCategory::Media
        } else if starts_with_str(n, "systemd") || contains_str(n, "dbus") || contains_str(
            c,
            "/lib/systemd",
        ) {
            ProcessCategory::SystemService
        } else {
            ProcessCategory::Unknown
        }
    }
}

/// Something that happened to a process.
#[derive(Debug, Clone)]
pub struct ProcessEvent {
    /// Epoch seconds of the event.
    pub timestamp: u64,
    pub pid: u32,
    pub process_name: String,
    pub event_type: EventType,
    pub details: EventDetails,
}

/// The kinds of tracked events.
#[derive(Debug, Clone)]
pub enum EventType {
    ProcessStarted,
    ProcessExited { exit_code: i32 },
    ProcessKilled { signal: i32 },
    ProcessFrozen { duration_sec: u64 },
    ProcessUnfrozen,
    ServiceRestarted { service_name: String },
    NiceAdjusted { old_nice: i32, new_nice: i32 },
    CpuViolation { cpu_centi_percent: u64, threshold_centi: u64 },
    MemoryViolation { memory_mb: u64, threshold_mb: u64 },
    UnusualBehavior { reason: String },
}

/// Free-form event detail, carried as rendered text.
#[derive(Debug, Clone)]
pub struct EventDetails {
    pub data: String,
}

/// One day of aggregated figures for a process.
#[derive(Debug, Clone)]
pub struct ProcessDailySummary {
    /// The day, as its epoch-second midnight.
    pub day_start: u64,
    pub process_name: String,
    pub total_runtime_seconds: u64,
    pub num_starts: u32,
    pub num_kills: u32,
    pub num_crashes: u32,
    /// Averages and peaks in hundredths of a percent.
    pub avg_cpu_centi_percent: u64,
    pub max_cpu_centi_percent: u64,
    pub avg_memory_mb: u64,
    pub max_memory_mb: u64,
    pub total_read_mb: u64,
    pub total_write_mb: u64,
    pub cpu_violations: u32,
    pub memory_violations: u32,
    /// Hours of the day the process typically runs.
    pub typical_runtime_hours: Vec<u8>,
    pub avg_uptime_minutes: u64,
}

} // verus!
