use freezr::monitor::{ResourceMonitor, TickSnapshots};
use freezr::types::ProcessInfo;
use freezr::violations::{
    classify_pressure, select_victims, PressureLevel, PressureThresholds, TierAction,
    TwoTierConfig, TwoTierCounters,
};

fn proc_at(pid: u32, cpu_centi: u64, memory_kb: u64) -> ProcessInfo {
    ProcessInfo::new(pid, "p".to_string(), "cmd".to_string(), cpu_centi, memory_kb)
}

fn empty_snaps(now: u64) -> TickSnapshots {
    TickSnapshots {
        kesl: None,
        node: Vec::new(),
        snap: Vec::new(),
        firefox: Vec::new(),
        brave: Vec::new(),
        telegram: Vec::new(),
        nvim: Vec::new(),
        pressure: None,
        now,
    }
}

#[test]
fn test_monitor_creation() {
    let monitor = ResourceMonitor::new("kesl", 3000, 600, 3, 100);

    assert_eq!(monitor.cpu_threshold_centi, 3000);
    assert_eq!(monitor.memory_threshold_mb, 600);
    assert_eq!(monitor.max_violations, 3);
    assert_eq!(monitor.min_restart_interval_secs, 100);
    assert_eq!(monitor.cpu_violations, 0);
    assert_eq!(monitor.memory_violations, 0);
    assert!(!monitor.node_enabled);
}

#[test]
fn test_enable_node_monitoring() {
    let mut monitor = ResourceMonitor::new("kesl", 3000, 600, 3, 100);

    assert!(!monitor.node_enabled);

    monitor.enable_node_monitoring(8000, true);

    assert!(monitor.node_enabled);
    assert_eq!(monitor.node_cpu_threshold_centi, 8000);
    assert!(monitor.node_auto_kill);
}

#[test]
fn test_initial_stats() {
    let monitor = ResourceMonitor::new("kesl", 3000, 600, 3, 100);
    let stats = monitor.stats();

    assert_eq!(stats.total_checks, 0);
    assert_eq!(stats.total_violations, 0);
    assert_eq!(stats.total_kills, 0);
    assert_eq!(stats.total_restarts, 0);
}

#[test]
fn test_violations_getter() {
    let monitor = ResourceMonitor::new("kesl", 3000, 600, 3, 100);
    let (cpu, mem) = monitor.violations();

    assert_eq!(cpu, 0);
    assert_eq!(mem, 0);
}

#[test]
fn monitor_test_reset_violations() {
    let mut monitor = ResourceMonitor::new("kesl", 3000, 600, 3, 100);

    monitor.cpu_violations = 2;
    monitor.memory_violations = 1;

    let (cpu, mem) = monitor.violations();
    assert_eq!(cpu, 2);
    assert_eq!(mem, 1);

    monitor.reset_violations();

    let (cpu, mem) = monitor.violations();
    assert_eq!(cpu, 0);
    assert_eq!(mem, 0);
}

#[test]
fn test_monitor_with_default_values() {
    let monitor = ResourceMonitor::new("test-service", 5000, 1024, 5, 300);

    assert_eq!(monitor.cpu_threshold_centi, 5000);
    assert_eq!(monitor.memory_threshold_mb, 1024);
    assert_eq!(monitor.max_violations, 5);
    assert_eq!(monitor.min_restart_interval_secs, 300);
}

#[test]
fn test_node_monitoring_disabled_by_default() {
    let monitor = ResourceMonitor::new("kesl", 3000, 600, 3, 100);

    assert!(!monitor.node_enabled);
    assert_eq!(monitor.node_cpu_threshold_centi, 8000);
    assert!(!monitor.node_auto_kill);
}

#[test]
fn test_check_increments_stats() {
    let mut monitor = ResourceMonitor::new("kesl", 3000, 600, 3, 100);

    assert_eq!(monitor.stats().total_checks, 0);

    let _ = monitor.check(&empty_snaps(0));

    assert_eq!(monitor.stats().total_checks, 1);
}

#[test]
fn test_kesl_cpu_storm_tally() {
    let mut monitor = ResourceMonitor::new("kesl", 3000, 600, 3, 100);

    // Three readings of 45 % CPU and 500 MiB: two tallies, then the
    // third makes the restart due. Without a reachable service manager
    // the restart fails, so the counters are kept for the next tick.
    let reading = Some(proc_at(999999, 4500, 500 * 1024));

    let _ = monitor.check_kesl(&reading);
    assert_eq!(monitor.violations(), (1, 0));
    let _ = monitor.check_kesl(&reading);
    assert_eq!(monitor.violations(), (2, 0));
    let r = monitor.check_kesl(&reading);
    assert!(r.is_err());
    assert_eq!(monitor.violations(), (3, 0));
    assert_eq!(monitor.stats().total_restarts, 0);

    // A calm reading clears both counters.
    let calm = Some(proc_at(999999, 1000, 100 * 1024));
    let _ = monitor.check_kesl(&calm);
    assert_eq!(monitor.violations(), (0, 0));
}

#[test]
fn test_firefox_freeze_then_kill_escalation() {
    let mut monitor = ResourceMonitor::new("kesl", 3000, 600, 3, 100);
    monitor.enable_firefox_monitoring(8000, 9500, 0, 2, 3);

    let ticks: [u64; 6] = [8500, 8500, 9200, 9700, 9700, 9700];
    let expected: [(u32, u32); 6] = [(1, 0), (0, 0), (1, 0), (0, 1), (0, 2), (0, 0)];

    for (cpu, want) in ticks.iter().zip(expected.iter()) {
        let snapshot = vec![proc_at(999999, *cpu, 1024)];
        let _ = monitor.check_firefox_processes(&snapshot);
        let counters = monitor.firefox_counters;
        assert_eq!((counters.freeze_hits, counters.kill_hits), *want);
        assert!(counters.freeze_hits == 0 || counters.kill_hits == 0);
    }
}

#[test]
fn test_two_tier_boundaries() {
    let mut monitor = ResourceMonitor::new("kesl", 3000, 600, 3, 100);
    monitor.enable_brave_monitoring(8000, 9500, 0, 2, 3);

    // Exactly the freeze threshold is no violation.
    let at_freeze = vec![proc_at(999999, 8000, 1024)];
    let _ = monitor.check_brave_processes(&at_freeze);
    assert_eq!(monitor.brave_counters, TwoTierCounters { freeze_hits: 0, kill_hits: 0 });

    // Exactly the kill threshold counts to the freeze tier.
    let at_kill = vec![proc_at(999999, 9500, 1024)];
    let _ = monitor.check_brave_processes(&at_kill);
    assert_eq!(monitor.brave_counters, TwoTierCounters { freeze_hits: 1, kill_hits: 0 });
}

#[test]
fn test_snap_nice_action() {
    let mut monitor = ResourceMonitor::new("kesl", 3000, 600, 3, 100);
    monitor.enable_snap_monitoring(30000, TierAction::Nice(15), 15, 5, 3);

    // Two live offenders at 450 % for three ticks: the third tick fires
    // the nice action on both and clears the counter.
    let offenders = vec![proc_at(1, 45000, 1024), proc_at(1, 45000, 1024)];

    let _ = monitor.check_snap_processes(&offenders);
    assert_eq!(monitor.snap_violations, 1);
    let _ = monitor.check_snap_processes(&offenders);
    assert_eq!(monitor.snap_violations, 2);
    let _ = monitor.check_snap_processes(&offenders);
    assert_eq!(monitor.snap_violations, 0);

    let requests = monitor.take_renice_requests();
    assert_eq!(requests.len(), 2);
    assert!(requests.iter().all(|q| q.nice_level == 15));

    // The next tick only tallies again.
    let _ = monitor.check_snap_processes(&offenders);
    assert_eq!(monitor.snap_violations, 1);
    assert_eq!(monitor.take_renice_requests().len(), 0);
}

#[test]
fn test_victim_ladder_order_and_sparing() {
    let brave = vec![
        proc_at(10, 0, 1024),
        proc_at(11, 0, 2048),
        proc_at(12, 0, 3072),
    ];
    let telegram = vec![proc_at(20, 0, 4096)];
    let nvim = vec![
        proc_at(30, 0, 2 * 1024 * 1024),
        proc_at(31, 0, 200 * 1024),
    ];
    let firefox = vec![proc_at(40, 0, 512), proc_at(41, 0, 512)];

    let victims = select_victims(&brave, &telegram, &nvim, &firefox);
    let pids: Vec<u32> = victims.iter().map(|v| v.pid).collect();
    assert_eq!(pids, vec![10, 11, 12, 20, 30, 40, 41]);
    assert_eq!(victims.len(), 7);
}

#[test]
fn test_pressure_critical_wins() {
    let thresholds = PressureThresholds {
        some_warning: 1000,
        some_critical: 3000,
        full_warning: 500,
        full_critical: 1500,
    };
    let reading = freezr::psi::MemoryPressure {
        some_avg10: 3500,
        some_avg60: 0,
        some_avg300: 0,
        some_total: 0,
        full_avg10: 0,
        full_avg60: 0,
        full_avg300: 0,
        full_total: 0,
    };
    assert_eq!(classify_pressure(&reading, &thresholds), PressureLevel::Critical);

    let warning_only = freezr::psi::MemoryPressure {
        some_avg10: 1500,
        ..reading
    };
    assert_eq!(classify_pressure(&warning_only, &thresholds), PressureLevel::Warning);
}

#[test]
fn test_pressure_counters_and_reset() {
    let mut monitor = ResourceMonitor::new("kesl", 3000, 600, 3, 100);
    monitor.enable_memory_pressure_monitoring(
        1000,
        3000,
        500,
        1500,
        TierAction::Unknown,
        TierAction::Kill,
        5,
    );

    let critical = freezr::psi::MemoryPressure {
        some_avg10: 3500,
        some_avg60: 0,
        some_avg300: 0,
        some_total: 0,
        full_avg10: 0,
        full_avg60: 0,
        full_avg300: 0,
        full_total: 0,
    };
    let none: Vec<ProcessInfo> = Vec::new();
    let _ = monitor.check_memory_pressure(&critical, &none, &none, &none, &none);
    assert_eq!(monitor.pressure_critical_count, 1);
    assert_eq!(monitor.pressure_warning_count, 0);

    let normal = freezr::psi::MemoryPressure {
        some_avg10: 0,
        ..critical
    };
    let _ = monitor.check_memory_pressure(&normal, &none, &none, &none, &none);
    assert_eq!(monitor.pressure_critical_count, 0);
    assert_eq!(monitor.pressure_warning_count, 0);
}

#[test]
fn test_two_tier_config_stored() {
    let mut monitor = ResourceMonitor::new("kesl", 3000, 600, 3, 100);
    monitor.enable_telegram_monitoring(8000, 9500, 5, 2, 3);
    assert_eq!(
        monitor.telegram_config,
        TwoTierConfig {
            freeze_centi: 8000,
            kill_centi: 9500,
            hold_secs: 5,
            max_freeze: 2,
            max_kill: 3,
        }
    );
    assert!(monitor.telegram_enabled);
}

#[test]
fn test_pressure_pass_respects_interval_gate() {
    let mut monitor = ResourceMonitor::new("kesl", 3000, 600, 3, 100);
    monitor.enable_memory_pressure_monitoring(
        1000,
        3000,
        500,
        1500,
        TierAction::Unknown,
        TierAction::Unknown,
        5,
    );

    let critical = freezr::psi::MemoryPressure {
        some_avg10: 3500,
        some_avg60: 0,
        some_avg300: 0,
        some_total: 0,
        full_avg10: 0,
        full_avg60: 0,
        full_avg300: 0,
        full_total: 0,
    };
    let mut snaps = empty_snaps(0);
    snaps.pressure = Some(critical);

    // The timer is armed at construction: before the interval has
    // passed the pass is gated out.
    let _ = monitor.check(&snaps);
    assert_eq!(monitor.pressure_critical_count, 0);
    snaps.now = 3;
    let _ = monitor.check(&snaps);
    assert_eq!(monitor.pressure_critical_count, 0);

    // Once the interval has passed the pass runs and counts.
    snaps.now = 5;
    let _ = monitor.check(&snaps);
    assert_eq!(monitor.pressure_critical_count, 1);

    // And it is gated again until another interval has passed.
    snaps.now = 8;
    let _ = monitor.check(&snaps);
    assert_eq!(monitor.pressure_critical_count, 1);
    snaps.now = 10;
    let _ = monitor.check(&snaps);
    assert_eq!(monitor.pressure_critical_count, 2);
}

#[test]
fn test_get_cpu_quota_round_trip_text() {
    let w = freezr::cgroups::controller::CpuController::set_quota(30);
    let read = freezr::cgroups::controller::CpuController::get_quota(w.contents.as_str()).unwrap();
    assert_eq!(read, Some(30));
    assert_eq!(freezr::cgroups::controller::CpuController::get_quota("max 100000").unwrap(), None);
    assert_eq!(freezr::cgroups::controller::CpuController::get_quota("odd").unwrap(), None);
    assert!(freezr::cgroups::controller::CpuController::get_quota("12x 100000").is_err());
}

#[test]
fn test_export_stats_carries_configuration() {
    let mut monitor = ResourceMonitor::new("kesl", 3000, 600, 3, 100);
    monitor.enable_firefox_monitoring(7000, 9000, 5, 4, 6);
    monitor.enable_node_monitoring(8500, true);
    monitor.enable_memory_pressure_monitoring(
        1100,
        3100,
        600,
        1600,
        TierAction::Unknown,
        TierAction::Kill,
        7,
    );

    let readings = freezr::stats::SystemReadings {
        loadavg: "0.52 0.58 0.59 1/1000 1".to_string(),
        meminfo: "MemTotal: 2048 kB\nMemAvailable: 1024 kB\n".to_string(),
        pressure: None,
    };
    let snapshot = monitor.export_stats(12, 34, &None, &readings);

    assert_eq!(snapshot.firefox.freeze_threshold_centi, 7000);
    assert_eq!(snapshot.firefox.kill_threshold_centi, 9000);
    assert_eq!(snapshot.firefox.max_violations_freeze, 4);
    assert_eq!(snapshot.firefox.max_violations_kill, 6);
    assert_eq!(snapshot.node.cpu_threshold_centi, 8500);
    assert!(snapshot.node.auto_kill);
    assert_eq!(snapshot.memory_pressure.some_threshold_warning, 1100);
    assert_eq!(snapshot.memory_pressure.some_threshold_critical, 3100);
    assert_eq!(snapshot.memory_pressure.full_threshold_warning, 600);
    assert_eq!(snapshot.memory_pressure.full_threshold_critical, 1600);
    assert_eq!(snapshot.memory_pressure.action_critical, TierAction::Kill);
    assert_eq!(snapshot.memory_pressure.status, "UNKNOWN");
    assert_eq!(snapshot.system_health.load_1min_centi, 52);
    assert_eq!(snapshot.system_health.memory_used_centi_percent, 5000);
}

#[test]
fn test_export_stats_disabled_pressure_label() {
    let monitor = ResourceMonitor::new("kesl", 3000, 600, 3, 100);
    let reading = freezr::psi::MemoryPressure {
        some_avg10: 1234,
        some_avg60: 0,
        some_avg300: 0,
        some_total: 0,
        full_avg10: 56,
        full_avg60: 0,
        full_avg300: 0,
        full_total: 0,
    };
    let readings = freezr::stats::SystemReadings {
        loadavg: String::new(),
        meminfo: String::new(),
        pressure: Some(reading),
    };
    let snapshot = monitor.export_stats(0, 0, &None, &readings);
    assert_eq!(snapshot.memory_pressure.status, "DISABLED");
    assert_eq!(snapshot.memory_pressure.some_avg10, 0);
    assert_eq!(snapshot.memory_pressure.full_avg10, 0);
}
