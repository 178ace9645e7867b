use batty::{get_path_for_kind, IoFailure, IoKind, ThresholdKind, ThresholdReadings, Thresholds};

fn text(s: &str) -> Result<String, IoFailure> {
    Ok(s.to_string())
}

fn missing() -> Result<String, IoFailure> {
    Err(IoFailure::new(IoKind::NotFound, "No such file or directory".to_string()))
}

fn denied() -> Result<String, IoFailure> {
    Err(IoFailure::new(IoKind::Other, "Permission denied".to_string()))
}

fn readings(start: Result<String, IoFailure>, end: Result<String, IoFailure>) -> ThresholdReadings {
    ThresholdReadings { start, end }
}

#[test]
fn save_then_load_gives_the_same_pair() {
    for start in 0u8..100 {
        for end in (start + 1)..=100 {
            let t = Thresholds { start, end };
            let writes = t.save(true);
            assert_eq!(writes.len(), 2);
            assert_eq!(writes[0].kind, ThresholdKind::Start);
            assert_eq!(writes[1].kind, ThresholdKind::End);
            let back = Thresholds::load(
                readings(text(&writes[0].text), text(&writes[1].text)),
                false,
            )
            .unwrap();
            assert_eq!(back, t);
        }
    }
}

#[test]
fn save_writes_decimal_text() {
    let writes = Thresholds { start: 5, end: 100 }.save(true);
    assert_eq!(writes[0].text, "5");
    assert_eq!(writes[1].text, "100");
}

#[test]
fn load_without_start_file_under_lenient_policy() {
    let t = Thresholds::load(readings(missing(), text("80")), true).unwrap();
    assert_eq!(t, Thresholds { start: 0, end: 80 });
    let writes = t.save(false);
    assert_eq!(writes.len(), 1);
    assert_eq!(writes[0].kind, ThresholdKind::End);
    assert_eq!(writes[0].text, "80");
}

#[test]
fn load_without_start_file_under_strict_policy_fails() {
    let e = Thresholds::load(readings(missing(), text("80")), false).unwrap_err();
    assert_eq!(e.kind, IoKind::NotFound);
}

#[test]
fn load_trims_whitespace() {
    let t = Thresholds::load(readings(text(" 40\n"), text("80\n")), true).unwrap();
    assert_eq!(t, Thresholds { start: 40, end: 80 });
}

#[test]
fn load_does_not_check_the_order() {
    let t = Thresholds::load(readings(text("90"), text("10")), true).unwrap();
    assert_eq!(t, Thresholds { start: 90, end: 10 });
}

#[test]
fn load_with_unreadable_end_fails() {
    let e = Thresholds::load(readings(text("40"), denied()), true).unwrap_err();
    assert_eq!(e.kind, IoKind::Other);
    assert_eq!(e.message, "Permission denied");
}

#[test]
fn load_with_unreadable_start_fails_even_when_lenient() {
    let e = Thresholds::load(readings(denied(), text("80")), true).unwrap_err();
    assert_eq!(e.kind, IoKind::Other);
}

#[test]
fn load_with_invalid_text_is_invalid_data() {
    let e = Thresholds::load(readings(text("40"), text(" eighty \n")), true).unwrap_err();
    assert_eq!(e.kind, IoKind::InvalidData);
    assert_eq!(e.message, "invalid threshold value: eighty");
    let e = Thresholds::load(readings(text("256"), text("80")), true).unwrap_err();
    assert_eq!(e.kind, IoKind::InvalidData);
    assert_eq!(e.message, "invalid threshold value: 256");
}

#[test]
fn load_accepts_a_plus_sign() {
    let t = Thresholds::load(readings(text("+20"), text("080")), true).unwrap();
    assert_eq!(t, Thresholds { start: 20, end: 80 });
}

#[test]
fn default_pair() {
    assert_eq!(Thresholds::default(), Thresholds { start: 40, end: 80 });
}

#[test]
fn get_each_kind() {
    let t = Thresholds { start: 30, end: 70 };
    assert_eq!(t.get(ThresholdKind::Start), 30);
    assert_eq!(t.get(ThresholdKind::End), 70);
}

#[test]
fn set_start_fails_exactly_at_or_above_end_or_over_100() {
    for v in 0u8..=255 {
        let mut t = Thresholds { start: 40, end: 80 };
        let r = t.set(ThresholdKind::Start, v);
        if v > 100 {
            assert_eq!(r, Err("threshold must be between 0 and 100".to_string()));
            assert_eq!(t, Thresholds { start: 40, end: 80 });
        } else if v >= 80 {
            assert_eq!(r, Err("start threshold must be less than end threshold".to_string()));
            assert_eq!(t, Thresholds { start: 40, end: 80 });
        } else {
            assert_eq!(r, Ok(()));
            assert_eq!(t, Thresholds { start: v, end: 80 });
        }
    }
}

#[test]
fn set_end_fails_exactly_at_or_below_start_or_over_100() {
    for v in 0u8..=255 {
        let mut t = Thresholds { start: 40, end: 80 };
        let r = t.set(ThresholdKind::End, v);
        if v > 100 {
            assert_eq!(r, Err("threshold must be between 0 and 100".to_string()));
            assert_eq!(t, Thresholds { start: 40, end: 80 });
        } else if v <= 40 {
            assert_eq!(r, Err("end threshold must be greater than start threshold".to_string()));
            assert_eq!(t, Thresholds { start: 40, end: 80 });
        } else {
            assert_eq!(r, Ok(()));
            assert_eq!(t, Thresholds { start: 40, end: v });
        }
    }
}

#[test]
fn paths_for_each_kind() {
    assert_eq!(
        get_path_for_kind("/sys/class/power_supply/BAT0", &ThresholdKind::Start),
        "/sys/class/power_supply/BAT0/charge_control_start_threshold"
    );
    assert_eq!(
        get_path_for_kind("/sys/class/power_supply/BAT0/", &ThresholdKind::End),
        "/sys/class/power_supply/BAT0/charge_control_end_threshold"
    );
}

#[test]
fn kind_labels() {
    assert_eq!(ThresholdKind::Start.label(), "start");
    assert_eq!(ThresholdKind::End.label(), "end");
    assert_eq!(ThresholdKind::Start.other(), ThresholdKind::End);
}
