use vstd::prelude::*;

use crate::attr::{IoFailure, reading_view};
use crate::battery::{Battery, BatteryReadings, snapshot_of, snapshot_failure, strings_view};
use crate::text::{concat, u8_text, decimal_text};
use crate::thresholds::{
    ThresholdKind, Thresholds, ThresholdReadings, load_spec, value_of, set_refused, set_error,
    with_value,
};

verus! {

/// A key press, as far as the interactive view tells keys apart.
#[derive(Clone, Copy, Debug, PartialEq, Eq, Structural)]
pub enum Key {
    Char(char),
    Up,
    Down,
    Left,
    Right,
    Enter,
    Esc,
    Other,
}

/// What the user asks of the interactive view.
#[derive(Clone, Copy, Debug, PartialEq, Eq, Structural)]
pub enum Command {
    Quit,
    Increment,
    Decrement,
    Save,
    ToggleKind,
    PrevTab,
    NextTab,
}

/// The key bindings of the interactive view.
pub open spec fn key_command(key: Key) -> Option<Command> {
    match key {
        Key::Char('q') | Key::Esc => Some(Command::Quit),
        Key::Up | Key::Char('+') => Some(Command::Increment),
        Key::Down | Key::Char('-') => Some(Command::Decrement),
        Key::Enter => Some(Command::Save),
        Key::Char('j') | Key::Char('k') => Some(Command::ToggleKind),
        Key::Left | Key::Char('[') => Some(Command::PrevTab),
        Key::Right | Key::Char(']') => Some(Command::NextTab),
        _ => None,
    }
}

/// The command that a key stands for; `None` for a key without a binding.
pub fn command_for_key(key: Key) -> (r: Option<Command>)
    ensures
        r == key_command(key),
{
    match key {
        Key::Char('q') | Key::Esc => Some(Command::Quit),
        Key::Up | Key::Char('+') => Some(Command::Increment),
        Key::Down | Key::Char('-') => Some(Command::Decrement),
        Key::Enter => Some(Command::Save),
        Key::Char('j') | Key::Char('k') => Some(Command::ToggleKind),
        Key::Left | Key::Char('[') => Some(Command::PrevTab),
        Key::Right | Key::Char(']') => Some(Command::NextTab),
        _ => None,
    }
}

pub open spec fn opt_view(o: Option<String>) -> Option<Seq<char>> {
    match o {
        Some(s) => Some(s@),
        None => None,
    }
}

/// The pair that loading gives under the lenient policy, or the default pair
/// where loading fails.
pub open spec fn loaded_or_default(readings: ThresholdReadings) -> Thresholds {
    match load_spec(reading_view(readings.start), reading_view(readings.end), true) {
        Ok((s, e)) => Thresholds { start: s, end: e },
        Err(_) => Thresholds { start: 40, end: 80 },
    }
}

/// The message shown once a pair has been saved.
pub open spec fn saved_message(t: Thresholds) -> Seq<char> {
    "Battery thresholds set to "@ + decimal_text(t.start as nat) + "%-"@ + decimal_text(
        t.end as nat,
    ) + "%"@
}

/// The value one step up from `v`, saturating at 100.
pub open spec fn step_up(v: u8) -> u8 {
    if v < 100 {
        (v + 1) as u8
    } else {
        v
    }
}

/// The value one step down from `v`, saturating at 0.
pub open spec fn step_down(v: u8) -> u8 {
    if v > 0 {
        (v - 1) as u8
    } else {
        v
    }
}

/// The state of the interactive view: the discovered batteries, the one
/// selected, its snapshot and thresholds, the threshold being edited, and
/// the messages for the user.
pub struct App {
    pub battery: Battery,
    pub bat_paths: Vec<String>,
    pub selected_tab: usize,
    pub curr_threshold_kind: ThresholdKind,
    pub thresholds: Thresholds,
    pub status: Option<String>,
    pub error: Option<String>,
    pub warnings: Vec<String>,
}

impl App {
    /// The selected tab is one of the discovered batteries.
    pub open spec fn wf(&self) -> bool {
        self.selected_tab < self.bat_paths@.len()
    }

    /// The value of the threshold being edited.
    pub open spec fn selected_value(&self) -> u8 {
        value_of(self.thresholds, self.curr_threshold_kind)
    }

    /// `new` is `old` after an attempt to set the edited threshold to `value`:
    /// on success the messages are cleared; on refusal the pair is kept and
    /// the refusal is the error.
    pub open spec fn adjusted(old: App, new: App, value: u8) -> bool {
        &&& new.battery == old.battery
        &&& new.bat_paths == old.bat_paths
        &&& new.selected_tab == old.selected_tab
        &&& new.curr_threshold_kind == old.curr_threshold_kind
        &&& new.warnings == old.warnings
        &&& if set_refused(old.thresholds, old.curr_threshold_kind, value) {
            &&& new.thresholds == old.thresholds
            &&& new.status == old.status
            &&& opt_view(new.error) == Some(set_error(old.curr_threshold_kind, value))
        } else {
            &&& new.thresholds == with_value(old.thresholds, old.curr_threshold_kind, value)
            &&& new.status is None
            &&& new.error is None
        }
    }

    /// The view on the first of the discovered batteries, named `name`,
    /// from the readings of its directory. Fails where its snapshot cannot be
    /// made; thresholds that cannot be loaded give the default pair.
    pub fn new(
        bat_paths: Vec<String>,
        name: String,
        thresholds: ThresholdReadings,
        readings: BatteryReadings,
    ) -> (r: Result<App, IoFailure>)
        requires
            bat_paths@.len() > 0,
        ensures
            match r {
                Ok(app) => {
                    &&& snapshot_failure(name@, readings) is None
                    &&& app.wf()
                    &&& app.bat_paths@ == bat_paths@
                    &&& app.selected_tab == 0
                    &&& app.curr_threshold_kind == ThresholdKind::Start
                    &&& app.thresholds == loaded_or_default(thresholds)
                    &&& snapshot_of(app.battery, strings_view(app.warnings@), bat_paths@[0]@, name@, readings)
                    &&& app.status is None
                    &&& app.error is None
                },
                Err(e) => snapshot_failure(name@, readings) == Some(e@),
            },
    {
        let initial_path = bat_paths[0].clone();
        let thresholds = match Thresholds::load(thresholds, true) {
            Ok(t) => t,
            Err(_) => Thresholds::default(),
        };
        let (battery, warnings) = match Battery::new(initial_path, name, readings) {
            Ok(loaded) => loaded,
            Err(e) => return Err(e),
        };
        Ok(
            App {
                battery,
                bat_paths,
                selected_tab: 0,
                curr_threshold_kind: ThresholdKind::Start,
                thresholds,
                status: None,
                error: None,
                warnings,
            },
        )
    }

    /// The directory of the selected battery.
    pub fn base_path(&self) -> (r: &String)
        requires
            self.wf(),
        ensures
            *r == self.bat_paths@[self.selected_tab as int],
    {
        &self.bat_paths[self.selected_tab]
    }

    fn apply(&mut self, value: u8)
        ensures
            App::adjusted(*old(self), *final(self), value),
    {
        match self.thresholds.set(self.curr_threshold_kind, value) {
            Ok(_) => {
                self.status = None;
                self.error = None;
            },
            Err(err) => {
                self.error = Some(err);
            },
        }
    }

    /// Raises the edited threshold by one, saturating at 100. A step that
    /// breaks the order of the pair is refused and becomes the error.
    pub fn increment(&mut self)
        ensures
            App::adjusted(*old(self), *final(self), step_up(old(self).selected_value())),
            old(self).selected_value() == 100 ==> final(self).thresholds == old(self).thresholds,
    {
        let current = self.thresholds.get(self.curr_threshold_kind);
        let new_val = if current < 100 {
            current + 1
        } else {
            current
        };
        self.apply(new_val);
    }

    /// Lowers the edited threshold by one, saturating at 0. A step that
    /// breaks the order of the pair is refused and becomes the error.
    pub fn decrement(&mut self)
        ensures
            App::adjusted(*old(self), *final(self), step_down(old(self).selected_value())),
            old(self).selected_value() == 0 ==> final(self).thresholds == old(self).thresholds,
    {
        let current = self.thresholds.get(self.curr_threshold_kind);
        let new_val = current.saturating_sub(1);
        self.apply(new_val);
    }

    /// Takes in how saving the pair went: on success the status tells the
    /// saved values and the error is cleared; on failure the error tells why
    /// and the status is cleared.
    pub fn save(&mut self, outcome: Result<(), IoFailure>)
        ensures
            final(self).battery == old(self).battery,
            final(self).bat_paths == old(self).bat_paths,
            final(self).selected_tab == old(self).selected_tab,
            final(self).curr_threshold_kind == old(self).curr_threshold_kind,
            final(self).thresholds == old(self).thresholds,
            final(self).warnings == old(self).warnings,
            match outcome {
                Ok(_) => opt_view(final(self).status) == Some(saved_message(old(self).thresholds))
                    && final(self).error is None,
                Err(e) => opt_view(final(self).error) == Some(
                    "Failed to save thresholds: "@ + e.message@,
                ) && final(self).status is None,
            },
    {
        match outcome {
            Ok(_) => {
                let mut message = concat("Battery thresholds set to ", u8_text(self.thresholds.start).as_str());
                message.append("%-");
                message.append(u8_text(self.thresholds.end).as_str());
                message.append("%");
                proof {
                    assert(message@ =~= saved_message(self.thresholds));
                }
                self.status = Some(message);
                self.error = None;
            },
            Err(err) => {
                self.error = Some(concat("Failed to save thresholds: ", err.message.as_str()));
                self.status = None;
            },
        }
    }

    /// Switches the edited threshold between start and end.
    pub fn select_next_threshold_kind(&mut self)
        ensures
            final(self).curr_threshold_kind != old(self).curr_threshold_kind,
            final(self).battery == old(self).battery,
            final(self).bat_paths == old(self).bat_paths,
            final(self).selected_tab == old(self).selected_tab,
            final(self).thresholds == old(self).thresholds,
            final(self).status == old(self).status,
            final(self).error == old(self).error,
            final(self).warnings == old(self).warnings,
    {
        self.curr_threshold_kind = self.curr_threshold_kind.other();
    }

    /// The tab right of the selected one; `None` on the last tab, where the
    /// view stays as it is.
    pub fn next_tab(&self) -> (r: Option<usize>)
        requires
            self.wf(),
        ensures
            r == (if self.selected_tab + 1 < self.bat_paths@.len() {
                Some((self.selected_tab + 1) as usize)
            } else {
                None
            }),
    {
        if self.selected_tab < self.bat_paths.len() - 1 {
            Some(self.selected_tab + 1)
        } else {
            None
        }
    }

    /// The tab left of the selected one; `None` on the first tab, where the
    /// view stays as it is.
    pub fn prev_tab(&self) -> (r: Option<usize>)
        ensures
            r == (if self.selected_tab > 0 {
                Some((self.selected_tab - 1) as usize)
            } else {
                None
            }),
    {
        if self.selected_tab > 0 {
            Some(self.selected_tab - 1)
        } else {
            None
        }
    }

    /// Selects the battery at `index`, named `name`, from fresh readings of
    /// its directory. Thresholds that cannot be loaded give the default pair.
    /// Where its snapshot cannot be made, the previous snapshot stays, the
    /// error tells why and the warnings are cleared.
    pub fn switch_tab(
        &mut self,
        index: usize,
        name: String,
        thresholds: ThresholdReadings,
        readings: BatteryReadings,
    )
        requires
            old(self).wf(),
            index < old(self).bat_paths@.len(),
        ensures
            final(self).wf(),
            final(self).selected_tab == index,
            final(self).bat_paths == old(self).bat_paths,
            final(self).curr_threshold_kind == old(self).curr_threshold_kind,
            final(self).thresholds == loaded_or_default(thresholds),
            final(self).status is None,
            match snapshot_failure(name@, readings) {
                None => snapshot_of(
                    final(self).battery,
                    strings_view(final(self).warnings@),
                    old(self).bat_paths@[index as int]@,
                    name@,
                    readings,
                ) && final(self).error is None,
                Some(f) => final(self).battery == old(self).battery && opt_view(final(self).error)
                    == Some("Failed to load battery: "@ + f.message) && final(self).warnings@.len()
                    == 0,
            },
    {
        self.selected_tab = index;
        let path = self.bat_paths[index].clone();
        self.thresholds = match Thresholds::load(thresholds, true) {
            Ok(t) => t,
            Err(_) => Thresholds::default(),
        };
        match Battery::new(path, name, readings) {
            Ok((battery, warnings)) => {
                self.battery = battery;
                self.warnings = warnings;
                self.status = None;
                self.error = None;
            },
            Err(e) => {
                self.error = Some(concat("Failed to load battery: ", e.message.as_str()));
                self.status = None;
                self.warnings.clear();
            },
        }
    }

    /// The refresh at the start of each tick: the snapshot is read anew from
    /// fresh readings of its directory. On success its warnings replace the
    /// old ones; on failure the snapshot stays, the error tells why and the
    /// warnings are cleared.
    pub fn refresh_battery(&mut self, readings: BatteryReadings)
        ensures
            final(self).bat_paths == old(self).bat_paths,
            final(self).selected_tab == old(self).selected_tab,
            final(self).curr_threshold_kind == old(self).curr_threshold_kind,
            final(self).thresholds == old(self).thresholds,
            final(self).status == old(self).status,
            match snapshot_failure(old(self).battery.name@, readings) {
                None => snapshot_of(
                    final(self).battery,
                    strings_view(final(self).warnings@),
                    old(self).battery.path@,
                    old(self).battery.name@,
                    readings,
                ) && final(self).error == old(self).error,
                Some(f) => final(self).battery == old(self).battery && opt_view(final(self).error)
                    == Some("Failed to refresh battery data: "@ + f.message)
                    && final(self).warnings@.len() == 0,
            },
    {
        match self.battery.refresh(readings) {
            Ok(warnings) => {
                self.warnings = warnings;
            },
            Err(e) => {
                self.error = Some(concat("Failed to refresh battery data: ", e.message.as_str()));
                self.warnings.clear();
            },
        }
    }

    /// Whether the view shows a row of battery tabs: only for more than one.
    pub fn shows_tabs(&self) -> (r: bool)
        ensures
            r == (self.bat_paths@.len() > 1),
    {
        self.bat_paths.len() > 1
    }

    /// The height of the message footer: one line each for the error, the
    /// status and every warning, at most three, plus two for its borders; 0
    /// where there is no message.
    pub fn footer_height(&self) -> (r: u16)
        ensures
            ({
                let lines = (if self.error is Some { 1int } else { 0 }) + (if self.status is Some {
                    1int
                } else {
                    0
                }) + self.warnings@.len();
                r == (if lines == 0 {
                    0
                } else if lines < 3 {
                    lines + 2
                } else {
                    5
                })
            }),
    {
        let mut lines: usize = 0;
        if self.error.is_some() {
            lines += 1;
        }
        if self.status.is_some() {
            lines += 1;
        }
        if self.warnings.len() >= 3 {
            return 5;
        }
        lines += self.warnings.len();
        if lines == 0 {
            0
        } else if lines < 3 {
            lines as u16 + 2
        } else {
            5
        }
    }
}

/// A line of the threshold list, marked where it is the one being edited.
pub fn format_selected(selected: bool, text: &str) -> (r: String)
    ensures
        r@ == (if selected {
            "‣ "@
        } else {
            "  "@
        }) + text@,
{
    if selected {
        concat("‣ ", text)
    } else {
        concat("  ", text)
    }
}

} // verus!
