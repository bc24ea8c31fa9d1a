use freezr::psi::MemoryPressure;

#[test]
fn test_parse_psi_format() {
    let content = "some avg10=0.00 avg60=0.00 avg300=0.00 total=634678\n\
                   full avg10=0.00 avg60=0.00 avg300=0.00 total=583219\n";

    let pressure = MemoryPressure::parse(content).unwrap();
    assert_eq!(pressure.some_avg10, 0);
    assert_eq!(pressure.some_total, 634678);
    assert_eq!(pressure.full_avg10, 0);
    assert_eq!(pressure.full_total, 583219);
}

#[test]
fn test_parse_with_pressure() {
    let content = "some avg10=12.50 avg60=8.32 avg300=5.12 total=1234567\n\
                   full avg10=3.21 avg60=2.11 avg300=1.05 total=654321\n";

    let pressure = MemoryPressure::parse(content).unwrap();
    assert_eq!(pressure.some_avg10, 1250);
    assert_eq!(pressure.some_avg60, 832);
    assert_eq!(pressure.full_avg10, 321);
    assert_eq!(pressure.full_avg300, 105);
}

#[test]
fn test_is_warning() {
    let pressure = MemoryPressure {
        some_avg10: 1500,
        some_avg60: 1000,
        some_avg300: 500,
        some_total: 1000,
        full_avg10: 200,
        full_avg60: 100,
        full_avg300: 50,
        full_total: 500,
    };

    assert!(pressure.is_warning(1000, 500));
    assert!(!pressure.is_warning(2000, 500));
}

#[test]
fn test_status() {
    let no_pressure = MemoryPressure {
        some_avg10: 0,
        some_avg60: 0,
        some_avg300: 0,
        some_total: 0,
        full_avg10: 0,
        full_avg60: 0,
        full_avg300: 0,
        full_total: 0,
    };
    assert_eq!(no_pressure.status(), "NONE");

    let critical_pressure = MemoryPressure {
        some_avg10: 5000,
        some_avg60: 4000,
        some_avg300: 3000,
        some_total: 10000,
        full_avg10: 1000,
        full_avg60: 800,
        full_avg300: 500,
        full_total: 5000,
    };
    assert_eq!(critical_pressure.status(), "CRITICAL");
}

#[test]
fn test_psi_emit_parse_round_trip() {
    let pressure = MemoryPressure {
        some_avg10: 1250,
        some_avg60: 832,
        some_avg300: 512,
        some_total: 1234567,
        full_avg10: 321,
        full_avg60: 211,
        full_avg300: 105,
        full_total: 654321,
    };

    let text = pressure.emit();
    let parsed = MemoryPressure::parse(text.as_str()).unwrap();
    assert_eq!(parsed, pressure);
}

#[test]
fn test_psi_rejects_single_line() {
    let content = "some avg10=0.00 avg60=0.00 avg300=0.00 total=634678";
    assert!(MemoryPressure::parse(content).is_err());
}

#[test]
fn test_psi_rejects_wrong_prefix() {
    let content = "any avg10=0.00 avg60=0.00 avg300=0.00 total=1\n\
                   full avg10=0.00 avg60=0.00 avg300=0.00 total=1\n";
    assert!(MemoryPressure::parse(content).is_err());
}

#[test]
fn test_psi_tolerates_trailing_whitespace() {
    let content = "some avg10=1.00 avg60=0.00 avg300=0.00 total=1  \n\
                   full avg10=0.50 avg60=0.00 avg300=0.00 total=2  \n";
    let pressure = MemoryPressure::parse(content).unwrap();
    assert_eq!(pressure.some_avg10, 100);
    assert_eq!(pressure.full_avg10, 50);
}
