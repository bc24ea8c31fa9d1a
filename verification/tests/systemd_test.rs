use freezr::systemd::SystemdService;

#[test]
fn systemd_test_systemd_service_creation() {
    let service = SystemdService::new("test-service");
    assert_eq!(service.service_name, "test-service");
    assert_eq!(service.last_restart_time, 0);
    assert_eq!(service.min_restart_interval, 100);
}

#[test]
fn systemd_integration_test_systemd_service_creation() {
    let _service = SystemdService::new("kesl");
    assert!(true);
}

#[test]
fn test_can_restart_first_time() {
    let service = SystemdService::new("test");
    assert!(service.can_restart());
}

#[test]
fn test_time_since_last_restart_never_restarted() {
    let service = SystemdService::new("test");
    assert_eq!(service.time_since_last_restart(), u64::MAX);
}

#[test]
fn test_time_since_last_restart_with_value() {
    let mut service = SystemdService::new("test");

    service.set_last_restart_time(1000);

    let time_since = service.time_since_last_restart();
    assert!(time_since > 0);
    assert!(time_since < u64::MAX);
}

#[test]
fn test_time_since_last_restart() {
    let mut service = SystemdService::new("test");

    assert_eq!(service.time_since_last_restart(), u64::MAX);

    let current = SystemdService::current_timestamp_public();
    service.set_last_restart_time(current - 10);

    let time_since = service.time_since_last_restart();
    assert!(time_since >= 9 && time_since <= 11);
}

#[test]
fn test_restart_guard_refuses_too_soon() {
    let mut service = SystemdService::new("test-service");

    let current = SystemdService::current_timestamp_public();
    service.set_last_restart_time(current - 50);
    service.set_min_restart_interval(100);

    match service.restart_with_reload() {
        Ok(_) => panic!("restart should have been refused by the guard"),
        Err(e) => {
            assert!(e.message().contains("Too soon to restart"));
        }
    }
    assert_eq!(service.last_restart_time, current - 50);
}

#[test]
fn test_restart_guard_windows() {
    let mut service = SystemdService::new("unit");
    service.set_min_restart_interval(100);

    assert!(service.can_restart_at(0));

    service.set_last_restart_time(1);
    assert!(!service.can_restart_at(50));
    assert!(!service.can_restart_at(100));
    assert!(service.can_restart_at(101));
}

#[test]
fn test_unit_name_normalisation() {
    let plain = SystemdService::new("kesl");
    assert_eq!(plain.unit_name(), "kesl.service");

    let suffixed = SystemdService::new("kesl.service");
    assert_eq!(suffixed.unit_name(), "kesl.service");
}
