use batty::{kind_from_folded, Action, Cli, ThresholdKind};

fn cli(value: Option<u8>, kind: &str, tui: bool) -> Cli {
    Cli { path: None, value, kind: kind.to_string(), tui }
}

#[test]
fn interactive_view() {
    assert_eq!(cli(None, "end", true).action(), Ok(Action::Interactive));
}

#[test]
fn value_with_interactive_view_is_refused() {
    assert_eq!(
        cli(Some(60), "end", true).action(),
        Err("--value cannot be used with --tui".to_string())
    );
}

#[test]
fn set_a_threshold() {
    assert_eq!(
        cli(Some(60), "END", false).action(),
        Ok(Action::SetThreshold(ThresholdKind::End, 60))
    );
    assert_eq!(
        cli(Some(20), "Start", false).action(),
        Ok(Action::SetThreshold(ThresholdKind::Start, 20))
    );
}

#[test]
fn unknown_kind_is_refused() {
    assert_eq!(
        cli(Some(60), "middle", false).action(),
        Err("kind must be either 'start' or 'end'".to_string())
    );
}

#[test]
fn show_without_a_value() {
    assert_eq!(cli(None, "middle", false).action(), Ok(Action::Show));
}

#[test]
fn kind_words() {
    assert_eq!(kind_from_folded("start"), Some(ThresholdKind::Start));
    assert_eq!(kind_from_folded("end"), Some(ThresholdKind::End));
    assert_eq!(kind_from_folded("End"), None);
}
