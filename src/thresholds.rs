use vstd::prelude::*;

use crate::attr::{IoFailure, IoKind, FailureView, Reading, reading_view, join_path, joined_path};
use crate::text::{
    trim_text, trimmed, parse_u8, u8_value, u8_text, decimal_text, concat,
    lemma_decimal_text, lemma_unsigned_value_of_decimal_text,
};

verus! {

/// Which of the two charge thresholds is meant.
#[derive(Clone, Copy, Debug, PartialEq, Eq, Structural)]
pub enum ThresholdKind {
    Start,
    End,
}

impl ThresholdKind {
    /// The word for this kind, as shown to the user.
    pub fn label(&self) -> (r: &'static str)
        ensures
            r@ == kind_label(*self),
    {
        match self {
            ThresholdKind::Start => "start",
            ThresholdKind::End => "end",
        }
    }

    /// The other kind.
    pub fn other(&self) -> (r: ThresholdKind)
        ensures
            r != *self,
    {
        match self {
            ThresholdKind::Start => ThresholdKind::End,
            ThresholdKind::End => ThresholdKind::Start,
        }
    }
}

pub open spec fn kind_label(k: ThresholdKind) -> Seq<char> {
    match k {
        ThresholdKind::Start => "start"@,
        ThresholdKind::End => "end"@,
    }
}

/// The name of the attribute file that holds a threshold.
pub open spec fn kind_file_name(k: ThresholdKind) -> Seq<char> {
    match k {
        ThresholdKind::Start => "charge_control_start_threshold"@,
        ThresholdKind::End => "charge_control_end_threshold"@,
    }
}

/// The path of the file that holds the threshold `kind` in a battery directory.
pub fn get_path_for_kind(base_path: &str, kind: &ThresholdKind) -> (r: String)
    ensures
        r@ == joined_path(base_path@, kind_file_name(*kind)),
{
    match kind {
        ThresholdKind::Start => join_path(base_path, "charge_control_start_threshold"),
        ThresholdKind::End => join_path(base_path, "charge_control_end_threshold"),
    }
}

/// One battery's charge thresholds, in percent.
#[derive(Clone, Copy, Debug, PartialEq, Eq, Structural)]
pub struct Thresholds {
    pub start: u8,
    pub end: u8,
}

/// The two threshold files as they were read from a battery directory.
pub struct ThresholdReadings {
    pub start: Reading,
    pub end: Reading,
}

/// One file write that saving asks for: `text` into the file of `kind`.
pub struct ThresholdWrite {
    pub kind: ThresholdKind,
    pub text: String,
}

pub open spec fn write_view(w: ThresholdWrite) -> (ThresholdKind, Seq<char>) {
    (w.kind, w.text@)
}

/// A pair that obeys the ordering rule, within percent range.
pub open spec fn valid_pair(start: u8, end: u8) -> bool {
    start < end && end <= 100
}

/// The value a threshold file gives, or the failure that reading it came to.
pub open spec fn threshold_value(r: Result<Seq<char>, FailureView>) -> Result<u8, FailureView> {
    match r {
        Ok(t) => match u8_value(trimmed(t)) {
            Some(v) => Ok(v),
            None => Err(
                FailureView {
                    kind: IoKind::InvalidData,
                    message: "invalid threshold value: "@ + trimmed(t),
                },
            ),
        },
        Err(e) => Err(e),
    }
}

/// What loading gives for the two readings: the end threshold first, whose
/// failure is fatal; then the start threshold, where a missing file reads as
/// 0 under the lenient policy and every other failure is fatal.
pub open spec fn load_spec(
    start: Result<Seq<char>, FailureView>,
    end: Result<Seq<char>, FailureView>,
    lenient_start: bool,
) -> Result<(u8, u8), FailureView> {
    match threshold_value(end) {
        Err(e) => Err(e),
        Ok(e) => if lenient_start && start is Err && start->Err_0.kind == IoKind::NotFound {
            Ok((0u8, e))
        } else {
            match threshold_value(start) {
                Ok(s) => Ok((s, e)),
                Err(f) => Err(f),
            }
        },
    }
}

/// The writes that saving asks for, in order: the start threshold where the
/// battery has a file for it, then the end threshold.
pub open spec fn save_spec(start: u8, end: u8, start_supported: bool) -> Seq<(ThresholdKind, Seq<char>)> {
    let end_write = seq![(ThresholdKind::End, decimal_text(end as nat))];
    if start_supported {
        seq![(ThresholdKind::Start, decimal_text(start as nat))] + end_write
    } else {
        end_write
    }
}

pub open spec fn value_of(t: Thresholds, kind: ThresholdKind) -> u8 {
    match kind {
        ThresholdKind::Start => t.start,
        ThresholdKind::End => t.end,
    }
}

/// `set` refuses `value` for `kind` against the pair `t`.
pub open spec fn set_refused(t: Thresholds, kind: ThresholdKind, value: u8) -> bool {
    value > 100 || match kind {
        ThresholdKind::Start => value >= t.end,
        ThresholdKind::End => value <= t.start,
    }
}

/// The message with which `set` refuses `value` for `kind`.
pub open spec fn set_error(kind: ThresholdKind, value: u8) -> Seq<char> {
    if value > 100 {
        "threshold must be between 0 and 100"@
    } else {
        match kind {
            ThresholdKind::Start => "start threshold must be less than end threshold"@,
            ThresholdKind::End => "end threshold must be greater than start threshold"@,
        }
    }
}

/// The pair `t` with `kind` set to `value`.
pub open spec fn with_value(t: Thresholds, kind: ThresholdKind, value: u8) -> Thresholds {
    match kind {
        ThresholdKind::Start => Thresholds { start: value, ..t },
        ThresholdKind::End => Thresholds { end: value, ..t },
    }
}

fn read_threshold(r: Reading) -> (res: Result<u8, IoFailure>)
    ensures
        match res {
            Ok(v) => threshold_value(reading_view(r)) == Ok::<u8, FailureView>(v),
            Err(e) => threshold_value(reading_view(r)) == Err::<u8, FailureView>(e@),
        },
{
    match r {
        Ok(text) => {
            let trimmed = trim_text(text.as_str());
            match parse_u8(trimmed) {
                Some(v) => Ok(v),
                None => Err(
                    IoFailure {
                        kind: IoKind::InvalidData,
                        message: concat("invalid threshold value: ", trimmed),
                    },
                ),
            }
        },
        Err(e) => Err(e),
    }
}

impl Default for Thresholds {
    /// The pair used where none could be loaded.
    fn default() -> (r: Thresholds)
        ensures
            r.start == 40 && r.end == 80,
    {
        Thresholds { start: 40, end: 80 }
    }
}

/// Saving a valid pair and loading back the texts that were written gives
/// the same pair, whatever the policy on a missing start file.
pub proof fn lemma_save_then_load(start: u8, end: u8, lenient_start: bool)
    requires
        valid_pair(start, end),
    ensures
        save_spec(start, end, true)[0].0 == ThresholdKind::Start,
        save_spec(start, end, true)[1].0 == ThresholdKind::End,
        load_spec(
            Ok(save_spec(start, end, true)[0].1),
            Ok(save_spec(start, end, true)[1].1),
            lenient_start,
        ) == Ok::<(u8, u8), FailureView>((start, end)),
{
    lemma_decimal_text(start as nat);
    lemma_decimal_text(end as nat);
    lemma_unsigned_value_of_decimal_text(start as nat);
    lemma_unsigned_value_of_decimal_text(end as nat);
}

/// Where the battery has no start file, saving writes the end file alone,
/// and loading back under the lenient policy gives a start of 0.
pub proof fn lemma_save_then_load_without_start(start: u8, end: u8)
    requires
        end <= 100,
    ensures
        save_spec(start, end, false).len() == 1,
        save_spec(start, end, false)[0].0 == ThresholdKind::End,
        forall|f: FailureView|
            f.kind == IoKind::NotFound ==> load_spec(
                Err(f),
                Ok(save_spec(start, end, false)[0].1),
                true,
            ) == Ok::<(u8, u8), FailureView>((0u8, end)),
{
    lemma_decimal_text(end as nat);
    lemma_unsigned_value_of_decimal_text(end as nat);
}

impl Thresholds {

    /// The pair that the two threshold files hold. The values are not checked
    /// against each other: what the driver holds is taken as it is.
    pub fn load(readings: ThresholdReadings, lenient_start: bool) -> (r: Result<Thresholds, IoFailure>)
        ensures
            match r {
                Ok(t) => load_spec(reading_view(readings.start), reading_view(readings.end), lenient_start)
                    == Ok::<(u8, u8), FailureView>((t.start, t.end)),
                Err(e) => load_spec(reading_view(readings.start), reading_view(readings.end), lenient_start)
                    == Err::<(u8, u8), FailureView>(e@),
            },
    {
        let ThresholdReadings { start, end } = readings;
        let end = match read_threshold(end) {
            Ok(v) => v,
            Err(e) => return Err(e),
        };
        let start_missing = match &start {
            Err(f) => f.kind == IoKind::NotFound,
            Ok(_) => false,
        };
        if lenient_start && start_missing {
            return Ok(Thresholds { start: 0, end });
        }
        match read_threshold(start) {
            Ok(s) => Ok(Thresholds { start: s, end }),
            Err(f) => Err(f),
        }
    }

    /// The file writes that store this pair, in order. The start threshold is
    /// written only where the battery has a file for it.
    pub fn save(&self, start_supported: bool) -> (r: Vec<ThresholdWrite>)
        ensures
            r@.map_values(|w: ThresholdWrite| write_view(w)) == save_spec(self.start, self.end, start_supported),
    {
        let mut writes: Vec<ThresholdWrite> = Vec::new();
        if start_supported {
            writes.push(ThresholdWrite { kind: ThresholdKind::Start, text: u8_text(self.start) });
        }
        writes.push(ThresholdWrite { kind: ThresholdKind::End, text: u8_text(self.end) });
        assert(writes@.map_values(|w: ThresholdWrite| write_view(w)) =~= save_spec(self.start, self.end, start_supported));
        writes
    }

    /// The threshold of `kind`.
    pub fn get(&self, kind: ThresholdKind) -> (r: u8)
        ensures
            r == value_of(*self, kind),
    {
        match kind {
            ThresholdKind::Start => self.start,
            ThresholdKind::End => self.end,
        }
    }

    /// Sets the threshold of `kind` to `value`, in memory only. Refused, with
    /// the pair unchanged, where `value` is over 100 or would break the order
    /// of start below end.
    pub fn set(&mut self, kind: ThresholdKind, value: u8) -> (r: Result<(), String>)
        ensures
            r is Err <==> set_refused(*old(self), kind, value),
            r is Err ==> *final(self) == *old(self) && r->Err_0@ == set_error(kind, value),
            r is Ok ==> *final(self) == with_value(*old(self), kind, value),
    {
        if value > 100 {
            return Err(String::from_str("threshold must be between 0 and 100"));
        }
        match kind {
            ThresholdKind::Start => {
                if value >= self.end {
                    return Err(String::from_str("start threshold must be less than end threshold"));
                }
                self.start = value;
            },
            ThresholdKind::End => {
                if value <= self.start {
                    return Err(String::from_str("end threshold must be greater than start threshold"));
                }
                self.end = value;
            },
        }
        Ok(())
    }
}

} // verus!
