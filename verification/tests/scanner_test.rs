use freezr::scanner::ProcessScanner;

#[test]
fn scanner_test_scanner_creation() {
    let _scanner = ProcessScanner::new();
    assert!(true);
}

#[test]
fn scanner_integration_test_scanner_creation() {
    let scanner = ProcessScanner::new();
    let _ = scanner.find_kesl_pid("");
    assert!(true);
}

#[test]
fn test_find_kesl_pid_parses_listing() {
    let listing = "root       512  1.0  0.1 100 200 ?  Ssl  10:00  0:01 /opt/kaspersky/kesl/libexec/kesl-starter\n\
root       613  2.0  0.2 100 200 ?  Ssl  10:00  0:02 /opt/kaspersky/kesl/libexec/kesl --daemon\n\
user       700  0.0  0.0 100 200 ?  S    10:00  0:00 grep /opt/kaspersky/kesl/libexec/kesl\n";
    let scanner = ProcessScanner::new();
    assert_eq!(scanner.find_kesl_pid(listing), Some(613));
}

#[test]
fn test_find_kesl_pid_absent() {
    let listing = "root 1 0.0 0.0 100 200 ? Ss 10:00 0:00 /sbin/init\n";
    let scanner = ProcessScanner::new();
    assert_eq!(scanner.find_kesl_pid(listing), None);
}

#[test]
fn test_find_node_pids_parses_listing() {
    let listing = "user  100  1.0  0.1 1 2 ?  Sl  10:00  0:01 node server.js\n\
user  101  1.0  0.1 1 2 ?  Sl  10:00  0:01 /usr/bin/node app.js\n\
user  102  1.0  0.1 1 2 ?  Sl  10:00  0:01 python script.py\n";
    let scanner = ProcessScanner::new();
    assert_eq!(scanner.find_node_pids(listing), vec![100, 101]);
}

#[test]
fn test_find_firefox_pids_skips_grep() {
    let listing = "user  200  1.0  0.1 1 2 ?  Sl  10:00  0:01 /usr/lib/firefox/firefox\n\
user  201  0.0  0.0 1 2 ?  S  10:00  0:00 grep firefox\n";
    let scanner = ProcessScanner::new();
    assert_eq!(scanner.find_firefox_pids(listing), vec![200]);
}

#[test]
fn test_find_snap_pids_parses_listing() {
    let listing = "root  300  1.0  0.1 1 2 ?  Sl  10:00  0:01 /usr/lib/snapd/snapd\n\
root  301  1.0  0.1 1 2 ?  Sl  10:00  0:01 /snap/firefox/123/firefox\n\
root  302  1.0  0.1 1 2 ?  Sl  10:00  0:01 /sbin/init\n";
    let scanner = ProcessScanner::new();
    assert_eq!(scanner.find_snap_pids(listing), vec![300, 301]);
}

#[test]
fn test_measure_cpu_top_parses_last_line() {
    let output = "top - 10:00:00 up 1 day\n\
  PID USER      PR  NI    VIRT    RES    SHR S  %CPU  %MEM     TIME+ COMMAND\n\
  613 root      20   0  100000  20000  10000 S  45,5   0.2   0:01.00 kesl\n";
    let scanner = ProcessScanner::new();
    assert_eq!(scanner.measure_cpu_top(output), 4550);
}

#[test]
fn test_measure_cpu_top_no_figure() {
    let scanner = ProcessScanner::new();
    assert_eq!(scanner.measure_cpu_top(""), 0);
    assert_eq!(scanner.measure_cpu_top("short line"), 0);
}

#[test]
fn test_measure_cpu_average_bounds() {
    let scanner = ProcessScanner::new();
    assert_eq!(scanner.measure_cpu_average(&vec![0, 0, 0]), 0);
    assert_eq!(scanner.measure_cpu_average(&vec![1000, 0, 2000]), 1500);
    assert_eq!(scanner.measure_cpu_average(&vec![300]), 300);
}

#[test]
fn test_get_memory_kb_parses() {
    let scanner = ProcessScanner::new();
    assert_eq!(scanner.get_memory_kb(" 2048\n"), 2048);
    assert_eq!(scanner.get_memory_kb("junk"), 0);
}

#[test]
fn test_get_process_info_splits() {
    let scanner = ProcessScanner::new();
    let (name, command) = scanner.get_process_info("kesl /opt/kaspersky/kesl/libexec/kesl --daemon\n");
    assert_eq!(name, "kesl");
    assert_eq!(command, "/opt/kaspersky/kesl/libexec/kesl --daemon");

    let (name, command) = scanner.get_process_info("init\n");
    assert_eq!(name, "init");
    assert_eq!(command, "init");
}
