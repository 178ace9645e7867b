use batty::{
    find_batteries, is_battery_name, status_from_folded, status_from_text, Battery,
    BatteryAttribute, BatteryReadings, BatteryStatus, IoFailure, IoKind,
};

fn text(s: &str) -> Result<String, IoFailure> {
    Ok(s.to_string())
}

fn missing() -> Result<String, IoFailure> {
    Err(IoFailure::new(IoKind::NotFound, "No such file or directory".to_string()))
}

fn readings(
    now: Result<String, IoFailure>,
    full: Result<String, IoFailure>,
    status: Result<String, IoFailure>,
    cycles: Result<String, IoFailure>,
) -> BatteryReadings {
    BatteryReadings { energy_now: now, energy_full: full, status, cycle_count: cycles }
}

fn battery(now: u32, full: u32) -> Battery {
    Battery::new(
        "/b/BAT0".to_string(),
        "BAT0".to_string(),
        readings(text(&now.to_string()), text(&full.to_string()), text("Full"), missing()),
    )
    .unwrap()
    .0
}

#[test]
fn percentage_of_half_and_of_empty() {
    let half = battery(50, 100);
    assert_eq!(half.percentage_hundredths(), Some(5000));
    assert_eq!(half.percentage_hundredths().unwrap() as f64 / 100.0, 50.0);
    let empty = battery(0, 100);
    assert_eq!(empty.percentage_hundredths(), Some(0));
    assert_eq!(empty.percentage_hundredths().unwrap() as f64 / 100.0, 0.0);
}

#[test]
fn percentage_rounds_and_handles_zero_total() {
    assert_eq!(battery(1, 3).percentage_hundredths(), Some(3333));
    assert_eq!(battery(2, 3).percentage_hundredths(), Some(6667));
    assert_eq!(battery(5, 0).percentage_hundredths(), None);
    assert_eq!(battery(u32::MAX, 1).percentage_hundredths(), Some(u32::MAX as u64 * 10000));
}

#[test]
fn discovery_keeps_only_battery_entries() {
    let names = vec!["BAT0".to_string(), "BAT1".to_string(), "AC0".to_string()];
    assert_eq!(find_batteries(&names), vec!["BAT0".to_string(), "BAT1".to_string()]);
}

#[test]
fn discovery_keeps_listing_order() {
    let names = vec![
        "BAT1".to_string(),
        "ucsi".to_string(),
        "BAT0".to_string(),
        "BA".to_string(),
        "bat2".to_string(),
    ];
    assert_eq!(find_batteries(&names), vec!["BAT1".to_string(), "BAT0".to_string()]);
    assert!(find_batteries(&Vec::new()).is_empty());
}

#[test]
fn battery_names() {
    assert!(is_battery_name("BAT"));
    assert!(is_battery_name("BATT"));
    assert!(!is_battery_name("BA"));
    assert!(!is_battery_name("AC0"));
    assert!(!is_battery_name(""));
}

#[test]
fn snapshot_of_a_charging_battery() {
    let (b, warnings) = Battery::new(
        "/b/BAT0".to_string(),
        "BAT0".to_string(),
        readings(text("40"), text("80"), text("Charging\n"), missing()),
    )
    .unwrap();
    assert_eq!(b.percentage_hundredths(), Some(5000));
    assert_eq!(b.status, BatteryStatus::Charging);
    assert_eq!(b.cycles, None);
    assert!(warnings.is_empty());
    assert_eq!(b.path, "/b/BAT0");
    assert_eq!(b.name, "BAT0");
    assert_eq!(b.curr_power, 40);
    assert_eq!(b.total_power, 80);
}

#[test]
fn unreadable_status_gives_unknown_and_one_warning() {
    let (b, warnings) = Battery::new(
        "/b/BAT0".to_string(),
        "BAT0".to_string(),
        readings(
            text("40"),
            text("80"),
            Err(IoFailure::new(IoKind::Other, "Permission denied".to_string())),
            text("12\n"),
        ),
    )
    .unwrap();
    assert_eq!(b.status, BatteryStatus::Unknown);
    assert_eq!(warnings.len(), 1);
    assert!(warnings[0].contains("status"));
    assert_eq!(
        warnings[0],
        "Failed to read status for BAT0: Permission denied. Using 'unknown'."
    );
    assert_eq!(b.cycles, Some(12));
}

#[test]
fn other_status_texts() {
    assert_eq!(status_from_text("  CHARGING "), BatteryStatus::Charging);
    assert_eq!(status_from_text("Discharging\n"), BatteryStatus::NotCharging);
    assert_eq!(status_from_text("Not charging"), BatteryStatus::NotCharging);
    assert_eq!(status_from_folded("charging"), BatteryStatus::Charging);
    assert_eq!(status_from_folded("Charging"), BatteryStatus::NotCharging);
}

#[test]
fn cycle_count_that_does_not_fit_is_absent() {
    let (b, warnings) = Battery::new(
        "/b/BAT0".to_string(),
        "BAT0".to_string(),
        readings(text("1"), text("2"), text("Full"), text("300")),
    )
    .unwrap();
    assert_eq!(b.cycles, None);
    assert!(warnings.is_empty());
}

#[test]
fn missing_current_power_is_fatal() {
    let e = Battery::new(
        "/b/BAT0".to_string(),
        "BAT0".to_string(),
        readings(missing(), missing(), text("Full"), text("1")),
    )
    .unwrap_err();
    assert_eq!(e.kind, IoKind::NotFound);
    assert_eq!(
        e.message,
        "Failed to read current power for BAT0: No such file or directory"
    );
}

#[test]
fn invalid_total_power_is_fatal() {
    let e = Battery::new(
        "/b/BAT1".to_string(),
        "BAT1".to_string(),
        readings(text("10"), text("lots\n"), text("Full"), text("1")),
    )
    .unwrap_err();
    assert_eq!(e.kind, IoKind::InvalidData);
    assert_eq!(
        e.message,
        "Failed to read total power for BAT1: invalid battery attribute value: lots"
    );
}

#[test]
fn refresh_replaces_the_snapshot() {
    let mut b = battery(10, 100);
    let warnings = b
        .refresh(readings(text("20"), text("100"), missing(), text("7")))
        .unwrap();
    assert_eq!(warnings.len(), 1);
    assert_eq!(b.curr_power, 20);
    assert_eq!(b.status, BatteryStatus::Unknown);
    assert_eq!(b.cycles, Some(7));
    assert_eq!(b.path, "/b/BAT0");
}

#[test]
fn failed_refresh_keeps_the_snapshot() {
    let mut b = battery(10, 100);
    let e = b
        .refresh(readings(text("x"), text("100"), text("Charging"), text("7")))
        .unwrap_err();
    assert_eq!(e.kind, IoKind::InvalidData);
    assert_eq!(b.curr_power, 10);
    assert_eq!(b.status, BatteryStatus::NotCharging);
}

#[test]
fn status_words_and_attribute_files() {
    assert_eq!(BatteryStatus::Charging.as_str(), "charging");
    assert_eq!(BatteryStatus::NotCharging.as_str(), "not charging");
    assert_eq!(BatteryStatus::Unknown.as_str(), "unknown");
    assert_eq!(BatteryAttribute::CurrPower.file_name(), "energy_now");
    assert_eq!(BatteryAttribute::TotalPower.file_name(), "energy_full");
    assert_eq!(BatteryAttribute::Status.file_name(), "status");
    assert_eq!(BatteryAttribute::Cycles.file_name(), "cycle_count");
    assert_eq!(BatteryAttribute::Cycles.label(), "cycle count");
}
