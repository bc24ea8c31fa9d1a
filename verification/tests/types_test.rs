use freezr::types::{MonitorStats, ProcessInfo};

#[test]
fn test_process_info_creation() {
    let proc_info = ProcessInfo::new(
        1234,
        "test".to_string(),
        "test command".to_string(),
        5050,
        2048,
    );

    assert_eq!(proc_info.pid, 1234);
    assert_eq!(proc_info.name, "test");
    assert_eq!(proc_info.command, "test command");
    assert_eq!(proc_info.cpu_centi_percent, 5050);
    assert_eq!(proc_info.memory_kb, 2048);
    assert_eq!(proc_info.memory_mb, 2);
}

#[test]
fn test_process_info_memory_conversion() {
    let proc_info = ProcessInfo::new(1, "test".to_string(), "cmd".to_string(), 0, 1024);
    assert_eq!(proc_info.memory_mb, 1);

    let proc2 = ProcessInfo::new(1, "test".to_string(), "cmd".to_string(), 0, 2560);
    assert_eq!(proc2.memory_mb, 2);
}

#[test]
fn test_is_kesl() {
    let kesl_proc = ProcessInfo::new(
        1,
        "kesl".to_string(),
        "/opt/kaspersky/kesl/libexec/kesl --config /etc/kesl.conf".to_string(),
        1000,
        1024,
    );
    assert!(kesl_proc.is_kesl());

    let other_proc = ProcessInfo::new(
        2,
        "chrome".to_string(),
        "/usr/bin/chrome".to_string(),
        2000,
        2048,
    );
    assert!(!other_proc.is_kesl());
}

#[test]
fn test_is_node() {
    let node1 = ProcessInfo::new(1, "node".to_string(), "node server.js".to_string(), 0, 1024);
    assert!(node1.is_node());

    let node2 = ProcessInfo::new(
        2,
        "/usr/bin/node".to_string(),
        "/usr/bin/node app.js".to_string(),
        0,
        1024,
    );
    assert!(node2.is_node());

    let node3 = ProcessInfo::new(
        3,
        "npm".to_string(),
        "npm start node script.js".to_string(),
        0,
        1024,
    );
    assert!(node3.is_node());

    let other = ProcessInfo::new(
        4,
        "python".to_string(),
        "python script.py".to_string(),
        0,
        1024,
    );
    assert!(!other.is_node());
}

#[test]
fn test_cpu_exceeds() {
    let proc_info = ProcessInfo::new(1, "test".to_string(), "cmd".to_string(), 8550, 1024);

    assert!(proc_info.cpu_exceeds(8000));
    assert!(proc_info.cpu_exceeds(8500));
    assert!(!proc_info.cpu_exceeds(9000));
    assert!(!proc_info.cpu_exceeds(8550));
}

#[test]
fn test_memory_exceeds() {
    let proc_info = ProcessInfo::new(1, "test".to_string(), "cmd".to_string(), 0, 1024 * 512);

    assert!(proc_info.memory_exceeds(500));
    assert!(!proc_info.memory_exceeds(512));
    assert!(!proc_info.memory_exceeds(600));
}

#[test]
fn test_monitor_stats_creation() {
    let stats = MonitorStats::new();

    assert_eq!(stats.total_checks, 0);
    assert_eq!(stats.total_violations, 0);
    assert_eq!(stats.total_kills, 0);
    assert_eq!(stats.total_restarts, 0);
    assert_eq!(stats.cpu_violations, 0);
    assert_eq!(stats.memory_violations, 0);
    assert_eq!(stats.last_check_timestamp, 0);
}

#[test]
fn test_increment_cpu_violation() {
    let mut stats = MonitorStats::new();

    stats.increment_cpu_violation();
    assert_eq!(stats.cpu_violations, 1);
    assert_eq!(stats.total_violations, 1);

    stats.increment_cpu_violation();
    assert_eq!(stats.cpu_violations, 2);
    assert_eq!(stats.total_violations, 2);
}

#[test]
fn test_increment_memory_violation() {
    let mut stats = MonitorStats::new();

    stats.increment_memory_violation();
    assert_eq!(stats.memory_violations, 1);
    assert_eq!(stats.total_violations, 1);

    stats.increment_memory_violation();
    assert_eq!(stats.memory_violations, 2);
    assert_eq!(stats.total_violations, 2);
}

#[test]
fn test_mixed_violations() {
    let mut stats = MonitorStats::new();

    stats.increment_cpu_violation();
    stats.increment_memory_violation();
    stats.increment_cpu_violation();

    assert_eq!(stats.cpu_violations, 2);
    assert_eq!(stats.memory_violations, 1);
    assert_eq!(stats.total_violations, 3);
}

#[test]
fn types_test_reset_violations() {
    let mut stats = MonitorStats::new();

    stats.increment_cpu_violation();
    stats.increment_memory_violation();
    stats.increment_cpu_violation();

    assert_eq!(stats.cpu_violations, 2);
    assert_eq!(stats.memory_violations, 1);

    stats.reset_violations();

    assert_eq!(stats.cpu_violations, 0);
    assert_eq!(stats.memory_violations, 0);
    assert_eq!(stats.total_violations, 3);
}

#[test]
fn test_record_kill() {
    let mut stats = MonitorStats::new();

    stats.record_kill();
    assert_eq!(stats.total_kills, 1);

    stats.record_kill();
    assert_eq!(stats.total_kills, 2);
}

#[test]
fn test_record_restart() {
    let mut stats = MonitorStats::new();

    stats.increment_cpu_violation();
    stats.increment_memory_violation();
    assert_eq!(stats.cpu_violations, 1);
    assert_eq!(stats.memory_violations, 1);

    stats.record_restart();

    assert_eq!(stats.total_restarts, 1);
    assert_eq!(stats.cpu_violations, 0);
    assert_eq!(stats.memory_violations, 0);
    assert_eq!(stats.total_violations, 2);

    stats.increment_cpu_violation();
    stats.record_restart();

    assert_eq!(stats.total_restarts, 2);
    assert_eq!(stats.cpu_violations, 0);
    assert_eq!(stats.total_violations, 3);
}

#[test]
fn test_update_check_time() {
    let mut stats = MonitorStats::new();

    stats.update_check_time(1000);
    assert_eq!(stats.last_check_timestamp, 1000);
    assert_eq!(stats.total_checks, 1);

    stats.update_check_time(2000);
    assert_eq!(stats.last_check_timestamp, 2000);
    assert_eq!(stats.total_checks, 2);
}

#[test]
fn test_monitor_stats_complete_workflow() {
    let mut stats = MonitorStats::new();

    stats.update_check_time(1000);
    stats.increment_cpu_violation();
    assert_eq!(stats.total_checks, 1);
    assert_eq!(stats.cpu_violations, 1);

    stats.update_check_time(2000);
    stats.increment_cpu_violation();
    assert_eq!(stats.total_checks, 2);
    assert_eq!(stats.cpu_violations, 2);

    stats.update_check_time(3000);
    stats.increment_cpu_violation();
    stats.record_restart();
    assert_eq!(stats.total_checks, 3);
    assert_eq!(stats.cpu_violations, 0);
    assert_eq!(stats.total_violations, 3);
    assert_eq!(stats.total_restarts, 1);

    stats.update_check_time(4000);
    stats.increment_memory_violation();
    assert_eq!(stats.total_checks, 4);
    assert_eq!(stats.memory_violations, 1);
    assert_eq!(stats.total_violations, 4);
}

#[test]
fn test_version() {
    assert!(!freezr::VERSION.is_empty());
}

#[test]
fn test_module_structure() {
    assert!(true);
}
