use cosmic_caffeineland::LidState;

fn strings(v: &[&str]) -> Vec<String> {
    v.iter().map(|s| s.to_string()).collect()
}

#[test]
fn acpi_state_file() {
    assert_eq!(LidState::from_acpi_state("state:      closed\n"), Some(LidState::Closed));
    assert_eq!(LidState::from_acpi_state("state:      open\n"), Some(LidState::Open));
    assert_eq!(LidState::from_acpi_state("state: unknown\n"), None);
    assert_eq!(LidState::from_acpi_state(""), None);
}

#[test]
fn acpi_closed_wins_over_open() {
    assert_eq!(LidState::from_acpi_state("open closed"), Some(LidState::Closed));
}

#[test]
fn power_supply_file_must_match_exactly() {
    assert_eq!(LidState::from_power_supply_state("closed\n"), Some(LidState::Closed));
    assert_eq!(LidState::from_power_supply_state("  open \t\n"), Some(LidState::Open));
    assert_eq!(LidState::from_power_supply_state("\u{a0}open\u{3000}"), Some(LidState::Open));
    assert_eq!(LidState::from_power_supply_state("state: closed"), None);
    assert_eq!(LidState::from_power_supply_state("Closed"), None);
    assert_eq!(LidState::from_power_supply_state(""), None);
}

#[test]
fn acpi_files_come_first() {
    let r = LidState::check(&strings(&["state: open"]), &strings(&["closed"]));
    assert_eq!(r, LidState::Open);
}

#[test]
fn first_telling_file_decides() {
    let r = LidState::check(&strings(&["garbage", "state: closed", "state: open"]), &strings(&[]));
    assert_eq!(r, LidState::Closed);
}

#[test]
fn power_supply_files_when_acpi_tells_nothing() {
    let r = LidState::check(&strings(&["nothing here"]), &strings(&["weird", "open\n"]));
    assert_eq!(r, LidState::Open);
}

#[test]
fn unknown_when_nothing_tells() {
    assert_eq!(LidState::check(&strings(&[]), &strings(&[])), LidState::Unknown);
    assert_eq!(LidState::check(&strings(&["x"]), &strings(&["y"])), LidState::Unknown);
}

#[test]
fn lid_support() {
    assert!(LidState::is_supported(true, &vec![]));
    assert!(LidState::is_supported(false, &vec![false, true]));
    assert!(!LidState::is_supported(false, &vec![false, false]));
    assert!(!LidState::is_supported(false, &vec![]));
}
