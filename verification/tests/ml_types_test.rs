use freezr::ml_types::{IOStats, ProcessCategory, ProcessState};

#[test]
fn test_process_state_from_char() {
    assert_eq!(ProcessState::from('R'), ProcessState::Running);
    assert_eq!(ProcessState::from('S'), ProcessState::Sleeping);
    assert_eq!(ProcessState::from('D'), ProcessState::DiskSleep);
    assert_eq!(ProcessState::from('Z'), ProcessState::Zombie);
    assert_eq!(ProcessState::from('T'), ProcessState::Stopped);
    assert_eq!(ProcessState::from('?'), ProcessState::Unknown);
}

#[test]
fn test_process_category_browser() {
    assert_eq!(
        ProcessCategory::classify("firefox", "/usr/bin/firefox"),
        ProcessCategory::Browser
    );
    assert_eq!(
        ProcessCategory::classify("chrome", "/opt/google/chrome/chrome"),
        ProcessCategory::Browser
    );
    assert_eq!(
        ProcessCategory::classify("brave-browser", "brave --flag"),
        ProcessCategory::Browser
    );
}

#[test]
fn test_process_category_ide() {
    assert_eq!(
        ProcessCategory::classify("code", "/usr/share/code/code"),
        ProcessCategory::IDE
    );
    assert_eq!(
        ProcessCategory::classify("cursor", "cursor --extensions-dir"),
        ProcessCategory::IDE
    );
}

#[test]
fn test_process_category_build() {
    assert_eq!(
        ProcessCategory::classify("cargo", "cargo build --release"),
        ProcessCategory::BuildTool
    );
    assert_eq!(
        ProcessCategory::classify("rustc", "rustc main.rs"),
        ProcessCategory::BuildTool
    );
}

#[test]
fn test_process_category_antivirus() {
    assert_eq!(
        ProcessCategory::classify("kesl", "/opt/kaspersky/kesl/libexec/kesl"),
        ProcessCategory::Antivirus
    );
}

#[test]
fn test_process_category_database() {
    assert_eq!(
        ProcessCategory::classify("postgres", "postgres -D /var/lib/postgresql"),
        ProcessCategory::Database
    );
    assert_eq!(
        ProcessCategory::classify("mysqld", "/usr/sbin/mysqld"),
        ProcessCategory::Database
    );
}

#[test]
fn test_process_category_system() {
    assert_eq!(
        ProcessCategory::classify("systemd", "/lib/systemd/systemd"),
        ProcessCategory::SystemService
    );
}

#[test]
fn test_process_category_unknown() {
    assert_eq!(
        ProcessCategory::classify("unknown_process", "some command"),
        ProcessCategory::Unknown
    );
}

#[test]
fn test_io_stats_fields() {
    let io = IOStats {
        read_bytes: 1024,
        write_bytes: 2048,
        read_ops: 10,
        write_ops: 20,
        cancelled_write_bytes: 0,
    };

    assert_eq!(io.read_bytes, 1024);
    assert_eq!(io.write_bytes, 2048);
}
