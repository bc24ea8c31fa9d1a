use freezr::errors::{CgroupError, Error};

#[test]
fn test_systemd_error_display() {
    let err = Error::Systemd("daemon-reload failed".to_string());
    let msg = err.message();
    assert!(msg.contains("Systemd error"));
    assert!(msg.contains("daemon-reload failed"));
}

#[test]
fn test_scanner_error_display() {
    let err = Error::Scanner("process not found".to_string());
    let msg = err.message();
    assert!(msg.contains("Scanner error"));
    assert!(msg.contains("process not found"));
}

#[test]
fn test_executor_error_display() {
    let err = Error::Executor("failed to kill process".to_string());
    let msg = err.message();
    assert!(msg.contains("Executor error"));
    assert!(msg.contains("failed to kill process"));
}

#[test]
fn test_other_error_display() {
    let err = Error::Other("unknown error".to_string());
    let msg = err.message();
    assert!(msg.contains("Other error"));
    assert!(msg.contains("unknown error"));
}

#[test]
fn test_io_error_conversion() {
    let io_err = std::io::Error::new(std::io::ErrorKind::NotFound, "file not found");
    let err: Error = io_err.into();
    let msg = err.message();
    assert!(msg.contains("IO error"));
    assert!(msg.contains("file not found"));
}

#[test]
fn test_error_debug() {
    let err = Error::Systemd("test".to_string());
    let debug_str = format!("{:?}", err);
    assert!(debug_str.contains("Systemd"));
}

#[test]
fn test_result_type_ok() {
    let result: Result<i32, Error> = Ok(42);
    assert!(result.is_ok());
    assert_eq!(result.unwrap(), 42);
}

#[test]
fn test_result_type_err() {
    let result: Result<i32, Error> = Err(Error::Other("test error".to_string()));
    assert!(result.is_err());

    if let Err(e) = result {
        assert!(e.message().contains("test error"));
    }
}

#[test]
fn test_error_display() {
    let err = CgroupError::NotFound("test-group".to_string());
    assert_eq!(err.message(), "Cgroup not found: test-group");

    let err = CgroupError::MaxCgroupsReached(50);
    assert_eq!(err.message(), "Max dynamic cgroups reached (limit: 50)");
}

#[test]
fn test_error_from_io() {
    let io_err = std::io::Error::new(std::io::ErrorKind::NotFound, "file not found");
    let cgroup_err: CgroupError = io_err.into();
    assert!(matches!(cgroup_err, CgroupError::Io(_)));
}
