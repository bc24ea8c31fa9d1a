use freezr::cgroups::utils::get_process_cgroup;
use freezr::num::{centi_to_string, i32_to_string, parse_centi, parse_u64, u64_to_string};
use freezr::text::{contains_str, ends_with_str, split_lines, split_ws, starts_with_str, trim_str};
use freezr::types::ProcessInfo;
use freezr::cgroups::types::parse_procs;

#[test]
fn test_u64_decimal_round_trip() {
    for n in [0u64, 7, 10, 99, 100, 12345, u64::MAX] {
        let text = u64_to_string(n);
        assert_eq!(parse_u64(text.as_str()), Some(n));
    }
    assert_eq!(u64_to_string(536870912), "536870912");
}

#[test]
fn test_i32_formatting() {
    assert_eq!(i32_to_string(0), "0");
    assert_eq!(i32_to_string(15), "15");
    assert_eq!(i32_to_string(-20), "-20");
    assert_eq!(i32_to_string(i32::MIN), "-2147483648");
}

#[test]
fn test_parse_u64_rejects() {
    assert_eq!(parse_u64(""), None);
    assert_eq!(parse_u64("12a"), None);
    assert_eq!(parse_u64("18446744073709551616"), None);
    assert_eq!(parse_u64("18446744073709551615"), Some(u64::MAX));
}

#[test]
fn test_parse_centi_forms() {
    assert_eq!(parse_centi("12.50"), Some(1250));
    assert_eq!(parse_centi("12.5"), Some(1250));
    assert_eq!(parse_centi("12"), Some(1200));
    assert_eq!(parse_centi("0.05"), Some(5));
    assert_eq!(parse_centi(""), None);
    assert_eq!(parse_centi("1.234"), None);
    assert_eq!(parse_centi(".5"), None);
}

#[test]
fn test_centi_round_trip() {
    for v in [0u64, 5, 99, 100, 1250, 123456] {
        let text = centi_to_string(v);
        assert_eq!(parse_centi(text.as_str()), Some(v));
    }
    assert_eq!(centi_to_string(1250), "12.50");
    assert_eq!(centi_to_string(5), "0.05");
}

#[test]
fn test_split_and_search_helpers() {
    let toks = split_ws("  a\tbb  ccc ");
    let toks: Vec<&str> = toks.iter().map(|s| s.as_str()).collect();
    assert_eq!(toks, vec!["a", "bb", "ccc"]);

    let lines = split_lines("one\ntwo\r\n\nlast");
    let lines: Vec<&str> = lines.iter().map(|s| s.as_str()).collect();
    assert_eq!(lines, vec!["one", "two", "", "last"]);

    assert!(contains_str("hello world", "lo wo"));
    assert!(!contains_str("hello", "world"));
    assert!(starts_with_str("kesl.service", "kesl"));
    assert!(ends_with_str("kesl.service", ".service"));
    assert_eq!(trim_str("  spaced \n"), "spaced");
}

#[test]
fn test_get_process_cgroup_parses() {
    let content = "12:cpuset:/\n0::/freezr.slice/kesl\n";
    assert_eq!(get_process_cgroup(content).unwrap(), "/freezr.slice/kesl");
    assert!(get_process_cgroup("12:cpuset:/\n").is_err());
}

#[test]
fn test_parse_procs_lines() {
    let content = "100\n200\njunk\n4294967296\n300\n";
    assert_eq!(parse_procs(content), vec![100, 200, 300]);
}

#[test]
fn test_process_info_used_by_parsers() {
    let p = ProcessInfo::new(613, "kesl".to_string(), "/opt/kaspersky/kesl/libexec/kesl".to_string(), 4500, 512000);
    assert!(p.is_kesl());
    assert_eq!(p.memory_mb, 500);
}
