use freezr::cgroups::controller::{CpuController, MemoryController, MemoryStats};
use freezr::cgroups::manager::{CgroupManager, FsOp};
use freezr::cgroups::types::{
    Cgroup, CgroupConfig, CgroupStrategy, CgroupType, DynamicCgroupSettings, HealthStatus,
    ResourceLimits, StaticCgroupConfig,
};
use freezr::cgroups::utils::{
    convert_percent_to_quota, convert_quota_to_percent, parse_cpu_stat, parse_memory_stat,
    process_exists, validate_path_under_root, CpuStatValues,
};

#[test]
fn test_resource_limits_builder() {
    let limits = ResourceLimits::new()
        .with_cpu_limit(50)
        .with_memory_max(1024 * 1024 * 1024);

    assert_eq!(limits.cpu_limit_percent, Some(50));
    assert_eq!(limits.memory_max, Some(1024 * 1024 * 1024));
    assert_eq!(limits.memory_high, None);
}

#[test]
fn test_resource_limits_validation() {
    let limits = ResourceLimits::new().with_cpu_limit(50);
    assert!(limits.validate().is_ok());

    let limits = ResourceLimits::new().with_cpu_limit(2000);
    assert!(limits.validate().is_err());

    let limits = ResourceLimits::new()
        .with_memory_high(2 * 1024 * 1024 * 1024)
        .with_memory_max(1024 * 1024 * 1024);
    assert!(limits.validate().is_err());

    let limits = ResourceLimits::new().with_memory_max(0);
    assert!(limits.validate().is_err());
}

#[test]
fn test_cgroup_type() {
    assert_eq!(CgroupType::Static, CgroupType::Static);
    assert_ne!(CgroupType::Static, CgroupType::Dynamic);
}

#[test]
fn test_cgroup_creation() {
    let cgroup = Cgroup::new(
        "test".to_string(),
        "/sys/fs/cgroup/test".to_string(),
        CgroupType::Static,
    );

    assert_eq!(cgroup.name, "test");
    assert_eq!(cgroup.cgroup_type, CgroupType::Static);
    assert!(cgroup.pids.is_empty());
}

#[test]
fn test_default_config() {
    let config = CgroupConfig::default();
    assert!(!config.enabled);
    assert_eq!(config.root_path, "/sys/fs/cgroup/freezr.slice");
    assert_eq!(config.strategy, CgroupStrategy::Hybrid);
    assert!(config.auto_cleanup_on_stop);
}

#[test]
fn test_health_status() {
    let healthy = HealthStatus::Healthy;
    assert_eq!(healthy, HealthStatus::Healthy);

    let degraded = HealthStatus::Degraded(vec!["Issue 1".to_string()]);
    assert_ne!(degraded, HealthStatus::Healthy);
}

#[test]
fn test_convert_percent_to_quota() {
    assert_eq!(convert_percent_to_quota(30), (30_000, 100_000));
    assert_eq!(convert_percent_to_quota(50), (50_000, 100_000));
    assert_eq!(convert_percent_to_quota(100), (100_000, 100_000));
    assert_eq!(convert_percent_to_quota(200), (200_000, 100_000));
    assert_eq!(convert_percent_to_quota(400), (400_000, 100_000));
}

#[test]
fn test_convert_quota_to_percent() {
    assert_eq!(convert_quota_to_percent(30_000, 100_000), 30);
    assert_eq!(convert_quota_to_percent(50_000, 100_000), 50);
    assert_eq!(convert_quota_to_percent(200_000, 100_000), 200);
    assert_eq!(convert_quota_to_percent(50_000, 0), 0);
}

#[test]
fn test_quota_round_trip_all_percentages() {
    for p in 0..=1000u64 {
        let (quota, period) = convert_percent_to_quota(p);
        assert_eq!(convert_quota_to_percent(quota, period), p);
    }
}

#[test]
fn test_parse_cpu_stat() {
    let content = "usage_usec 1234567890\n\
user_usec 1000000\n\
system_usec 234567890\n\
nr_periods 1000\n\
nr_throttled 100\n\
throttled_usec 50000000\n\
nr_bursts 0\n\
burst_usec 0";

    let values = parse_cpu_stat(content).unwrap();
    assert_eq!(values.usage_usec, 1234567890);
    assert_eq!(values.user_usec, 1000000);
    assert_eq!(values.system_usec, 234567890);
    assert_eq!(values.nr_periods, 1000);
    assert_eq!(values.nr_throttled, 100);
    assert_eq!(values.throttled_usec, 50000000);
}

#[test]
fn test_cpu_stat_throttle_percentage() {
    let values = CpuStatValues {
        nr_periods: 1000,
        nr_throttled: 100,
        ..Default::default()
    };
    assert_eq!(values.throttle_percentage(), 1000);

    let values = CpuStatValues {
        nr_periods: 0,
        nr_throttled: 0,
        ..Default::default()
    };
    assert_eq!(values.throttle_percentage(), 0);
}

#[test]
fn test_parse_memory_stat() {
    let content = "anon 1073741824\n\
file 536870912\n\
kernel_stack 65536\n\
slab 131072\n\
sock 8192\n\
shmem 4096\n\
file_mapped 268435456\n\
file_dirty 1024\n\
file_writeback 512";

    let values = parse_memory_stat(content).unwrap();
    assert_eq!(values.anon, 1073741824);
    assert_eq!(values.file, 536870912);
    assert_eq!(values.kernel_stack, 65536);
}

#[test]
fn test_process_exists() {
    assert!(process_exists(1));
    assert!(!process_exists(9999999));
}

#[test]
fn test_memory_stats_mb_conversion() {
    let stats = MemoryStats {
        current: 1024 * 1024 * 500,
        peak: 1024 * 1024 * 1024,
        ..Default::default()
    };

    assert_eq!(stats.current_mb(), 500);
    assert_eq!(stats.peak_mb(), 1024);
}

#[test]
fn test_validate_path_under_root() {
    assert!(validate_path_under_root("/sys/fs/cgroup/freezr.slice/kesl", "/sys/fs/cgroup/freezr.slice").is_ok());
    assert!(validate_path_under_root("/sys/fs/cgroup/freezr.slice", "/sys/fs/cgroup/freezr.slice").is_ok());
    assert!(validate_path_under_root("/etc/passwd", "/sys/fs/cgroup/freezr.slice").is_err());
    assert!(validate_path_under_root("/sys/fs/cgroup/freezr.slicex", "/sys/fs/cgroup/freezr.slice").is_err());
}

fn static_group(name: &str, cpu: u64, mem_max_mb: u64) -> StaticCgroupConfig {
    StaticCgroupConfig {
        name: name.to_string(),
        process_patterns: Vec::new(),
        limits: ResourceLimits::new(),
        cpu_limit_percent_compat: Some(cpu),
        memory_max_mb: Some(mem_max_mb),
        memory_high_mb: None,
    }
}

#[test]
fn test_cgroup_lifecycle_scenario() {
    let mut config = CgroupConfig::default();
    config.enabled = true;
    config.static_groups = vec![static_group("kesl", 30, 512)];
    config.dynamic_settings = DynamicCgroupSettings {
        max_dynamic_cgroups: 2,
        ..DynamicCgroupSettings::default()
    };

    let mut manager = CgroupManager::new(config).unwrap();
    manager.initialize().unwrap();

    let ops = manager.take_pending();
    assert!(ops.contains(&FsOp::CreateDir("/sys/fs/cgroup/freezr.slice".to_string())));
    assert!(ops.contains(&FsOp::WriteFile(
        "/sys/fs/cgroup/freezr.slice/cgroup.subtree_control".to_string(),
        "+cpu +memory".to_string()
    )));
    assert!(ops.contains(&FsOp::CreateDir("/sys/fs/cgroup/freezr.slice/kesl".to_string())));
    assert!(ops.contains(&FsOp::WriteFile(
        "/sys/fs/cgroup/freezr.slice/kesl/cpu.max".to_string(),
        "30000 100000".to_string()
    )));
    assert!(ops.contains(&FsOp::WriteFile(
        "/sys/fs/cgroup/freezr.slice/kesl/memory.max".to_string(),
        "536870912".to_string()
    )));

    let a = manager.create_cgroup("a");
    assert!(a.is_ok());
    let b = manager.create_cgroup("b");
    assert!(b.is_ok());
    let c = manager.create_cgroup("c");
    assert!(matches!(
        c,
        Err(freezr::errors::CgroupError::MaxCgroupsReached(2))
    ));

    manager.on_service_stop().unwrap();
    let ops = manager.take_pending();
    assert!(ops.contains(&FsOp::RemoveDir("/sys/fs/cgroup/freezr.slice/kesl".to_string())));
    assert!(ops.contains(&FsOp::RemoveDir("/sys/fs/cgroup/freezr.slice/a".to_string())));
    assert!(ops.contains(&FsOp::RemoveDir("/sys/fs/cgroup/freezr.slice/b".to_string())));
    assert!(ops.contains(&FsOp::RemoveDir("/sys/fs/cgroup/freezr.slice".to_string())));
    assert!(manager.get_cgroup("kesl").is_none());
}

#[test]
fn test_dynamic_cap_boundary() {
    let mut config = CgroupConfig::default();
    config.enabled = true;
    config.dynamic_settings = DynamicCgroupSettings {
        max_dynamic_cgroups: 2,
        ..DynamicCgroupSettings::default()
    };
    let mut manager = CgroupManager::new(config).unwrap();
    manager.initialize().unwrap();

    assert!(manager.create_cgroup("one").is_ok());
    assert_eq!(manager.count_dynamic_cgroups(), 1);
    assert!(manager.create_cgroup("two").is_ok());
    assert_eq!(manager.count_dynamic_cgroups(), 2);
    let refused = manager.create_cgroup("three");
    assert!(matches!(
        refused,
        Err(freezr::errors::CgroupError::MaxCgroupsReached(2))
    ));
    assert_eq!(manager.count_dynamic_cgroups(), 2);
}

#[test]
fn test_create_remove_round_trip() {
    let mut config = CgroupConfig::default();
    config.enabled = true;
    let mut manager = CgroupManager::new(config).unwrap();
    manager.initialize().unwrap();

    assert!(manager.get_cgroup("tmp").is_none());
    manager.create_cgroup("tmp").unwrap();
    assert!(manager.get_cgroup("tmp").is_some());
    manager.remove_cgroup("tmp").unwrap();
    assert!(manager.get_cgroup("tmp").is_none());
    assert!(matches!(
        manager.remove_cgroup("tmp"),
        Err(freezr::errors::CgroupError::NotFound(_))
    ));
}

#[test]
fn test_apply_limits_idempotent_writes() {
    let mut config = CgroupConfig::default();
    config.enabled = true;
    let mut manager = CgroupManager::new(config).unwrap();
    manager.initialize().unwrap();
    let group = manager.create_cgroup("quota").unwrap();
    let mut group = group;
    group.limits = ResourceLimits::new().with_cpu_limit(30).with_memory_max(536870912);
    let _ = manager.take_pending();

    manager.apply_limits(&group).unwrap();
    let first = manager.take_pending();
    manager.apply_limits(&group).unwrap();
    let second = manager.take_pending();
    assert_eq!(first, second);
    assert!(first.contains(&FsOp::WriteFile(
        "/sys/fs/cgroup/freezr.slice/quota/cpu.max".to_string(),
        "30000 100000".to_string()
    )));
}

#[test]
fn test_apply_limits_rejects_invalid() {
    let mut config = CgroupConfig::default();
    config.enabled = true;
    let mut manager = CgroupManager::new(config).unwrap();
    manager.initialize().unwrap();
    let mut group = manager.create_cgroup("bad").unwrap();
    group.limits = ResourceLimits::new().with_cpu_limit(2000);
    assert!(matches!(
        manager.apply_limits(&group),
        Err(freezr::errors::CgroupError::InvalidLimit(_))
    ));
}

#[test]
fn test_health_check_reports_missing() {
    let mut config = CgroupConfig::default();
    config.enabled = true;
    config.static_groups = vec![static_group("kesl", 30, 512)];
    let mut manager = CgroupManager::new(config).unwrap();
    match manager.health_check().unwrap() {
        HealthStatus::Degraded(issues) => assert!(!issues.is_empty()),
        other => panic!("expected degraded health, got {:?}", other),
    }
    manager.initialize().unwrap();
    assert_eq!(manager.health_check().unwrap(), HealthStatus::Healthy);
}

#[test]
fn test_cpu_controller_encodings() {
    let w = CpuController::set_quota(30);
    assert_eq!(w.file, "cpu.max");
    assert_eq!(w.contents, "30000 100000");

    let w = CpuController::remove_quota();
    assert_eq!(w.contents, "max 100000");

    assert!(CpuController::set_weight(0).is_err());
    assert!(CpuController::set_weight(10001).is_err());
    let w = CpuController::set_weight(100).unwrap();
    assert_eq!(w.file, "cpu.weight");
    assert_eq!(w.contents, "100");
}

#[test]
fn test_memory_controller_encodings() {
    let w = MemoryController::set_max(536870912);
    assert_eq!(w.file, "memory.max");
    assert_eq!(w.contents, "536870912");

    assert_eq!(MemoryController::get_max("max\n").unwrap(), None);
    assert_eq!(MemoryController::get_max("1048576\n").unwrap(), Some(1048576));
    assert!(MemoryController::get_max("junk").is_err());
    assert_eq!(MemoryController::get_current("4096\n").unwrap(), 4096);
}

#[test]
fn test_parse_memory_pressure() {
    let content = "some avg10=12.50 avg60=8.33 avg300=3.14 total=123456\n\
full avg10=5.00 avg60=2.50 avg300=1.00 total=654321";

    let pressure = freezr::cgroups::controller::parse_memory_pressure(content).unwrap();
    assert_eq!(pressure.some_avg10, 1250);
    assert_eq!(pressure.some_avg60, 833);
    assert_eq!(pressure.some_avg300, 314);
    assert_eq!(pressure.full_avg10, 500);
    assert_eq!(pressure.full_avg60, 250);
    assert_eq!(pressure.full_avg300, 100);
}

#[test]
fn test_memory_pressure_thresholds() {
    let pressure = freezr::cgroups::controller::MemoryPressure {
        some_avg10: 1500,
        full_avg10: 800,
        ..Default::default()
    };

    assert!(pressure.is_under_pressure(1000));
    assert!(!pressure.is_under_pressure(2000));

    assert!(pressure.is_critical(500));
    assert!(!pressure.is_critical(1000));
}

#[test]
fn test_extract_avg_value() {
    let line = "some avg10=12.50 avg60=8.33 avg300=3.14 total=123456";

    assert_eq!(
        freezr::cgroups::controller::extract_avg_value(line, "avg10").unwrap(),
        1250
    );
    assert_eq!(
        freezr::cgroups::controller::extract_avg_value(line, "avg60").unwrap(),
        833
    );
    assert_eq!(
        freezr::cgroups::controller::extract_avg_value(line, "avg300").unwrap(),
        314
    );
    assert!(freezr::cgroups::controller::extract_avg_value(line, "avg999").is_err());
}

#[test]
fn test_cpu_stats_throttle_percentage() {
    let stats = freezr::cgroups::controller::CpuStats {
        nr_periods: 1000,
        nr_throttled: 100,
        ..Default::default()
    };

    assert_eq!(stats.throttle_percentage(), 1000);
    assert!(stats.is_throttled());

    let stats = freezr::cgroups::controller::CpuStats::default();
    assert_eq!(stats.throttle_percentage(), 0);
    assert!(!stats.is_throttled());
}

#[test]
fn test_create_duplicate_name_refused() {
    let mut config = CgroupConfig::default();
    config.enabled = true;
    let mut manager = CgroupManager::new(config).unwrap();
    manager.initialize().unwrap();

    manager.create_cgroup("twice").unwrap();
    assert!(matches!(
        manager.create_cgroup("twice"),
        Err(freezr::errors::CgroupError::AlreadyExists(_))
    ));
}

#[test]
fn test_assign_process_requires_live_pid() {
    let mut config = CgroupConfig::default();
    config.enabled = true;
    let mut manager = CgroupManager::new(config).unwrap();
    manager.initialize().unwrap();
    let group = manager.create_cgroup("procs").unwrap();
    let _ = manager.take_pending();

    assert!(matches!(
        manager.assign_process(&group, 9999999),
        Err(freezr::errors::CgroupError::ProcessNotFound(9999999))
    ));

    manager.assign_process(&group, 1).unwrap();
    let ops = manager.take_pending();
    assert_eq!(
        ops,
        vec![FsOp::WriteFile(
            "/sys/fs/cgroup/freezr.slice/procs/cgroup.procs".to_string(),
            "1".to_string()
        )]
    );
}

#[test]
fn test_get_processes_parses_procs_file() {
    let group = Cgroup::new(
        "g".to_string(),
        "/sys/fs/cgroup/freezr.slice/g".to_string(),
        CgroupType::Dynamic,
    );
    let pids = group.get_processes("100\n200\n");
    assert_eq!(pids, vec![100, 200]);

    let mut group = group;
    group.reload_processes("300\n");
    assert_eq!(group.pids, vec![300]);
}

#[test]
fn test_static_config_effective_limits() {
    let sc = static_group("kesl", 30, 512);
    let limits = sc.get_limits();
    assert_eq!(limits.cpu_limit_percent, Some(30));
    assert_eq!(limits.memory_max, Some(512 * 1024 * 1024));
    assert_eq!(limits.memory_high, None);
}

#[test]
fn test_restore_is_no_op_with_all_pids_home() {
    let mut config = CgroupConfig::default();
    config.enabled = true;
    let mut manager = CgroupManager::new(config).unwrap();
    manager.initialize().unwrap();
    manager.create_cgroup("idle").unwrap();
    let _ = manager.take_pending();

    // No group lists any process: restoring queues nothing, twice over.
    manager.restore_all_processes().unwrap();
    assert_eq!(manager.take_pending(), Vec::<FsOp>::new());
    manager.restore_all_processes().unwrap();
    assert_eq!(manager.take_pending(), Vec::<FsOp>::new());
}

#[test]
fn test_restore_writes_each_known_pid() {
    let mut config = CgroupConfig::default();
    config.enabled = true;
    let mut manager = CgroupManager::new(config).unwrap();
    manager.initialize().unwrap();
    manager.create_cgroup("busy").unwrap();
    let _ = manager.take_pending();

    if let Some(g) = manager.cgroups.iter_mut().find(|g| g.name == "busy") {
        g.reload_processes("100\n200\n");
    }
    manager.restore_all_processes().unwrap();
    let ops = manager.take_pending();
    assert_eq!(
        ops,
        vec![
            FsOp::WriteFile("/sys/fs/cgroup/cgroup.procs".to_string(), "100".to_string()),
            FsOp::WriteFile("/sys/fs/cgroup/cgroup.procs".to_string(), "200".to_string()),
        ]
    );
}

#[test]
fn test_remove_cgroup_queues_pid_restores() {
    let mut config = CgroupConfig::default();
    config.enabled = true;
    let mut manager = CgroupManager::new(config).unwrap();
    manager.initialize().unwrap();
    manager.create_cgroup("gone").unwrap();
    let _ = manager.take_pending();

    if let Some(g) = manager.cgroups.iter_mut().find(|g| g.name == "gone") {
        g.reload_processes("42\n");
    }
    manager.remove_cgroup("gone").unwrap();
    let ops = manager.take_pending();
    assert_eq!(
        ops,
        vec![
            FsOp::WriteFile("/sys/fs/cgroup/cgroup.procs".to_string(), "42".to_string()),
            FsOp::RemoveDir("/sys/fs/cgroup/freezr.slice/gone".to_string()),
        ]
    );
}
