use freezr::executor::{NiceRequest, ProcessExecutor};

#[test]
fn test_executor_creation() {
    let _executor = ProcessExecutor::new();
    assert!(true);
}

#[test]
fn test_process_exists_invalid_pid() {
    let exists = ProcessExecutor::process_exists(999999).unwrap_or(true);
    assert!(!exists);
}

#[test]
fn test_process_exists_init_process() {
    let exists = ProcessExecutor::process_exists(1).unwrap_or(false);
    assert!(exists);
}

#[test]
fn test_kill_nonexistent_process() {
    let result = ProcessExecutor::kill_process(999999);
    assert!(result.is_err());

    if let Err(e) = result {
        let error_msg = e.message();
        assert!(error_msg.contains("does not exist"));
    }
}

#[test]
fn test_renice_boundaries() {
    let too_low = ProcessExecutor::renice_process(1, -21);
    assert!(too_low.is_err());

    let too_high = ProcessExecutor::renice_process(1, 20);
    assert!(too_high.is_err());

    let ok = ProcessExecutor::renice_process(1, 19).unwrap();
    assert_eq!(ok, NiceRequest { pid: 1, nice_level: 19 });

    let lowest = ProcessExecutor::renice_process(1, -20).unwrap();
    assert_eq!(lowest.nice_level, -20);
}

#[test]
fn test_renice_missing_process() {
    let gone = ProcessExecutor::renice_process(999999, 10);
    assert!(gone.is_err());
}
