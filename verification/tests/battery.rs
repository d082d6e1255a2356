use cosmic_caffeineland::BatteryStatus;

fn status(percentage: f64, charging: bool) -> BatteryStatus {
    BatteryStatus { percentage_bits: percentage.to_bits(), is_charging: charging }
}

#[test]
fn critical_below_ten_percent_on_battery() {
    assert!(status(9.5, false).is_critical());
    assert!(status(0.0, false).is_critical());
    assert!(status(9.999999, false).is_critical());
}

#[test]
fn not_critical_at_or_above_ten_percent() {
    assert!(!status(10.0, false).is_critical());
    assert!(!status(10.000001, false).is_critical());
    assert!(!status(100.0, false).is_critical());
}

#[test]
fn not_critical_while_charging() {
    assert!(!status(3.0, true).is_critical());
}

#[test]
fn odd_readings_compare_as_floats_do() {
    for p in [-0.0, -1.0, f64::NEG_INFINITY, f64::INFINITY, f64::NAN, -f64::NAN, f64::MIN_POSITIVE, 1e-300] {
        assert_eq!(status(p, false).is_critical(), p < 10.0, "percentage {p}");
    }
}

#[test]
fn upower_states_on_power() {
    for state in 0u32..10 {
        let b = BatteryStatus::from_upower(42.0f64.to_bits(), state);
        assert_eq!(b.is_charging, matches!(state, 1 | 4 | 5), "state {state}");
        assert_eq!(b.percentage_bits, 42.0f64.to_bits());
    }
}
