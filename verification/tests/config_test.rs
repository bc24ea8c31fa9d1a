use freezr::config::{Config, KeslConfig, LogConfig, MonitoringConfig, NodeConfig};

#[test]
fn test_config_default() {
    let config = Config::default();

    assert_eq!(config.kesl.cpu_threshold_centi, 3000);
    assert_eq!(config.kesl.memory_threshold_mb, 600);
    assert_eq!(config.kesl.max_violations, 3);
    assert_eq!(config.node.cpu_threshold_centi, 8000);
    assert_eq!(config.monitoring.check_interval_secs, 3);
}

#[test]
fn test_kesl_config_default() {
    let kesl = KeslConfig::default();

    assert_eq!(kesl.cpu_threshold_centi, 3000);
    assert_eq!(kesl.memory_threshold_mb, 600);
    assert_eq!(kesl.max_violations, 3);
    assert_eq!(kesl.service_name, "kesl");
    assert!(kesl.enabled);
}

#[test]
fn test_node_config_default() {
    let node = NodeConfig::default();

    assert_eq!(node.cpu_threshold_centi, 8000);
    assert!(node.enabled);
    assert!(node.auto_kill);
    assert!(!node.confirm_kill);
}

#[test]
fn test_logging_config_default() {
    let logging = LogConfig::default();

    assert_eq!(logging.log_dir, "./logs");
    assert_eq!(logging.kesl_log, "kesl-monitor.log");
    assert_eq!(logging.node_log, "node-monitor.log");
    assert_eq!(logging.actions_log, "actions.log");
    assert_eq!(logging.max_file_size_mb, 10);
    assert_eq!(logging.rotate_count, 5);
}

#[test]
fn test_monitoring_config_default() {
    let monitoring = MonitoringConfig::default();

    assert_eq!(monitoring.check_interval_secs, 3);
    assert_eq!(monitoring.min_restart_interval_secs, 100);
}

#[test]
fn test_config_validation_valid() {
    let config = Config::default();
    assert!(config.validate().is_ok());
}

#[test]
fn test_config_validation_invalid_cpu() {
    let mut config = Config::default();
    config.kesl.cpu_threshold_centi = 15000;

    let result = config.validate();
    assert!(result.is_err());
    assert!(result.unwrap_err().contains("CPU threshold"));
}

#[test]
fn test_config_validation_zero_memory() {
    let mut config = Config::default();
    config.kesl.memory_threshold_mb = 0;

    let result = config.validate();
    assert!(result.is_err());
    assert!(result.unwrap_err().contains("memory threshold"));
}

#[test]
fn test_config_validation_zero_interval() {
    let mut config = Config::default();
    config.monitoring.check_interval_secs = 0;

    let result = config.validate();
    assert!(result.is_err());
    assert!(result.unwrap_err().contains("Check interval"));
}

#[test]
fn test_config_validation_two_tier_order() {
    let mut config = Config::default();
    config.firefox.cpu_threshold_kill_centi = config.firefox.cpu_threshold_freeze_centi;
    assert!(config.validate().is_err());
}

#[test]
fn test_config_validation_snap_action() {
    let mut config = Config::default();
    config.snap.action = "reboot".to_string();
    assert!(config.validate().is_err());
    config.snap.action = "kill".to_string();
    assert!(config.validate().is_ok());
}

#[test]
fn test_log_paths() {
    let config = Config::default();

    assert_eq!(config.kesl_log_path(), "./logs/kesl-monitor.log");
    assert_eq!(config.node_log_path(), "./logs/node-monitor.log");
    assert_eq!(config.actions_log_path(), "./logs/actions.log");
}

#[test]
fn test_config_validation_telegram_two_tier() {
    let mut config = Config::default();
    config.telegram.cpu_threshold_kill_centi = config.telegram.cpu_threshold_freeze_centi;
    assert!(config.validate().is_err());

    let mut config = Config::default();
    config.telegram.cpu_threshold_kill_centi = 15000;
    assert!(config.validate().is_err());

    let mut config = Config::default();
    config.telegram.max_violations_kill = 0;
    assert!(config.validate().is_err());
}

#[test]
fn test_memory_pressure_config_default() {
    let mp = freezr::config::MemoryPressureConfig::default();

    assert!(!mp.enabled);
    assert_eq!(mp.some_threshold_warning_centi, 1000);
    assert_eq!(mp.some_threshold_critical_centi, 3000);
    assert_eq!(mp.full_threshold_warning_centi, 500);
    assert_eq!(mp.full_threshold_critical_centi, 1500);
    assert_eq!(mp.action_warning, "log");
    assert_eq!(mp.action_critical, "freeze");
    assert_eq!(mp.check_interval_secs, 5);
}

#[test]
fn test_config_validation_pressure_section() {
    let mut config = Config::default();
    config.memory_pressure.action_critical = "reboot".to_string();
    assert!(config.validate().is_err());

    let mut config = Config::default();
    config.memory_pressure.check_interval_secs = 0;
    assert!(config.validate().is_err());

    let mut config = Config::default();
    config.memory_pressure.action_warning = "kill".to_string();
    assert!(config.validate().is_ok());
}

#[test]
fn test_config_carries_cgroup_section() {
    let config = Config::default();
    assert!(!config.cgroup.enabled);
    assert_eq!(config.cgroup.root_path, "/sys/fs/cgroup/freezr.slice");
}
