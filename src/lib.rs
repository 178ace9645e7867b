//! Battery charge-threshold control: the state model, the attribute-file
//! formats and the interactive controller, with their contracts.
mod attr;
mod battery;
mod cli;
mod controller;
mod text;
mod thresholds;

pub use attr::{IoKind, IoFailure, FailureView, Reading, reading_view, joined_path};
pub use text::{
    is_digit, all_digits, digit_char, digit_value, digits_value, decimal_text, unsigned_value,
    u8_value, u32_value, trim_of, trimmed, lower_of, lemma_decimal_text, lemma_unsigned_value_of_decimal_text,
};
pub use thresholds::{
    ThresholdKind, Thresholds, ThresholdReadings, ThresholdWrite, get_path_for_kind, kind_label,
    kind_file_name, write_view, valid_pair, threshold_value, load_spec, save_spec, value_of,
    set_refused, set_error, with_value, lemma_save_then_load, lemma_save_then_load_without_start,
};
pub use battery::{
    BatteryStatus, BatteryAttribute, Battery, BatteryReadings, status_text, attribute_file,
    attribute_label, status_of_folded, status_of_text, status_of_reading, attribute_value,
    cycles_of_reading, framed_failure, status_warnings, snapshot_of, snapshot_failure,
    strings_view, status_from_folded, status_from_text, is_battery_entry, battery_entries,
    is_battery_name, find_batteries,
};
pub use controller::{
    Key, Command, App, key_command, command_for_key, opt_view, loaded_or_default, saved_message,
    step_up, step_down, format_selected,
};
pub use cli::{Cli, Action, kind_of_folded, action_of, kind_from_folded};
