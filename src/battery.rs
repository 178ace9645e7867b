use vstd::prelude::*;

use crate::attr::{IoFailure, IoKind, FailureView, Reading, reading_view};
use crate::text::{trim_text, trimmed, lowercase, lower_of, parse_u8, parse_u32, u8_value, u32_value, concat};

verus! {

/// Whether a battery is taking charge, as its `status` file says.
#[derive(Clone, Copy, Debug, PartialEq, Eq, Structural)]
pub enum BatteryStatus {
    Charging,
    NotCharging,
    Unknown,
}

impl BatteryStatus {
    /// The word for this status, as shown to the user.
    pub fn as_str(&self) -> (r: &'static str)
        ensures
            r@ == status_text(*self),
    {
        match self {
            BatteryStatus::Charging => "charging",
            BatteryStatus::NotCharging => "not charging",
            BatteryStatus::Unknown => "unknown",
        }
    }
}

pub open spec fn status_text(s: BatteryStatus) -> Seq<char> {
    match s {
        BatteryStatus::Charging => "charging"@,
        BatteryStatus::NotCharging => "not charging"@,
        BatteryStatus::Unknown => "unknown"@,
    }
}

/// The attribute files of a battery directory that a snapshot reads.
#[derive(Clone, Copy, Debug, PartialEq, Eq, Structural)]
pub enum BatteryAttribute {
    CurrPower,
    TotalPower,
    Status,
    Cycles,
}

pub open spec fn attribute_file(a: BatteryAttribute) -> Seq<char> {
    match a {
        BatteryAttribute::CurrPower => "energy_now"@,
        BatteryAttribute::TotalPower => "energy_full"@,
        BatteryAttribute::Status => "status"@,
        BatteryAttribute::Cycles => "cycle_count"@,
    }
}

pub open spec fn attribute_label(a: BatteryAttribute) -> Seq<char> {
    match a {
        BatteryAttribute::CurrPower => "current power"@,
        BatteryAttribute::TotalPower => "total power"@,
        BatteryAttribute::Status => "status"@,
        BatteryAttribute::Cycles => "cycle count"@,
    }
}

impl BatteryAttribute {
    /// The name of the file that holds this attribute.
    pub fn file_name(&self) -> (r: &'static str)
        ensures
            r@ == attribute_file(*self),
    {
        match self {
            BatteryAttribute::CurrPower => "energy_now",
            BatteryAttribute::TotalPower => "energy_full",
            BatteryAttribute::Status => "status",
            BatteryAttribute::Cycles => "cycle_count",
        }
    }

    /// The words for this attribute in a message.
    pub fn label(&self) -> (r: &'static str)
        ensures
            r@ == attribute_label(*self),
    {
        match self {
            BatteryAttribute::CurrPower => "current power",
            BatteryAttribute::TotalPower => "total power",
            BatteryAttribute::Status => "status",
            BatteryAttribute::Cycles => "cycle count",
        }
    }
}

/// The status that a status text stands for, once trimmed and folded to
/// lowercase.
pub open spec fn status_of_folded(folded: Seq<char>) -> BatteryStatus {
    if folded == "charging"@ {
        BatteryStatus::Charging
    } else {
        BatteryStatus::NotCharging
    }
}

/// The status that a readable status text stands for.
pub open spec fn status_of_text(t: Seq<char>) -> BatteryStatus {
    status_of_folded(lower_of(trimmed(t)))
}

/// The status that a status reading gives: `Unknown` where it failed.
pub open spec fn status_of_reading(r: Result<Seq<char>, FailureView>) -> BatteryStatus {
    match r {
        Ok(t) => status_of_text(t),
        Err(_) => BatteryStatus::Unknown,
    }
}

/// The value of a numeric attribute reading, or why there is none.
pub open spec fn attribute_value(r: Result<Seq<char>, FailureView>) -> Result<u32, FailureView> {
    match r {
        Ok(t) => match u32_value(trimmed(t)) {
            Some(v) => Ok(v),
            None => Err(
                FailureView {
                    kind: IoKind::InvalidData,
                    message: "invalid battery attribute value: "@ + trimmed(t),
                },
            ),
        },
        Err(e) => Err(e),
    }
}

/// The cycle count that a reading gives: absent where it failed or does not
/// parse.
pub open spec fn cycles_of_reading(r: Result<Seq<char>, FailureView>) -> Option<u8> {
    match r {
        Ok(t) => u8_value(trimmed(t)),
        Err(_) => None,
    }
}

/// A failure to read a mandatory attribute, framed with the attribute and
/// the battery.
pub open spec fn framed_failure(a: BatteryAttribute, name: Seq<char>, f: FailureView) -> FailureView {
    FailureView {
        kind: f.kind,
        message: "Failed to read "@ + attribute_label(a) + " for "@ + name + ": "@ + f.message,
    }
}

/// The warnings that a status reading leaves: one where it failed.
pub open spec fn status_warnings(name: Seq<char>, r: Result<Seq<char>, FailureView>) -> Seq<Seq<char>> {
    match r {
        Ok(_) => Seq::empty(),
        Err(e) => seq![
            "Failed to read status for "@ + name + ": "@ + e.message + ". Using 'unknown'."@,
        ],
    }
}

/// The attribute files of one battery directory, as they were read.
pub struct BatteryReadings {
    pub energy_now: Reading,
    pub energy_full: Reading,
    pub status: Reading,
    pub cycle_count: Reading,
}

/// A snapshot of one battery's telemetry.
#[derive(Debug)]
pub struct Battery {
    /// The battery's directory; it does not change once the snapshot is made.
    pub path: String,
    /// The battery's name (the last component of its directory).
    pub name: String,
    pub total_power: u32,
    pub curr_power: u32,
    pub status: BatteryStatus,
    pub cycles: Option<u8>,
}

/// The snapshot `b`, with warnings `w`, is what the readings give for the
/// battery at `path` named `name`.
pub open spec fn snapshot_of(
    b: Battery,
    w: Seq<Seq<char>>,
    path: Seq<char>,
    name: Seq<char>,
    readings: BatteryReadings,
) -> bool {
    &&& b.path@ == path
    &&& b.name@ == name
    &&& attribute_value(reading_view(readings.energy_now)) == Ok::<u32, FailureView>(b.curr_power)
    &&& attribute_value(reading_view(readings.energy_full)) == Ok::<u32, FailureView>(b.total_power)
    &&& b.status == status_of_reading(reading_view(readings.status))
    &&& b.cycles == cycles_of_reading(reading_view(readings.cycle_count))
    &&& w == status_warnings(name, reading_view(readings.status))
}

/// The failure that keeps the readings from giving a snapshot, if any: the
/// current power first, then the total power.
pub open spec fn snapshot_failure(name: Seq<char>, readings: BatteryReadings) -> Option<FailureView> {
    match attribute_value(reading_view(readings.energy_now)) {
        Err(f) => Some(framed_failure(BatteryAttribute::CurrPower, name, f)),
        Ok(_) => match attribute_value(reading_view(readings.energy_full)) {
            Err(f) => Some(framed_failure(BatteryAttribute::TotalPower, name, f)),
            Ok(_) => None,
        },
    }
}

pub open spec fn strings_view(v: Seq<String>) -> Seq<Seq<char>> {
    v.map_values(|s: String| s@)
}

/// The status for a status text already trimmed and folded to lowercase.
pub fn status_from_folded(folded: &str) -> (r: BatteryStatus)
    ensures
        r == status_of_folded(folded@),
{
    let charging = String::from_str("charging");
    if String::from_str(folded) == charging {
        BatteryStatus::Charging
    } else {
        BatteryStatus::NotCharging
    }
}

/// The status that a readable status text stands for.
pub fn status_from_text(text: &str) -> (r: BatteryStatus)
    ensures
        r == status_of_text(text@),
{
    let folded = lowercase(trim_text(text));
    status_from_folded(folded.as_str())
}

fn read_num_battery_attribute(r: Reading) -> (res: Result<u32, IoFailure>)
    ensures
        match res {
            Ok(v) => attribute_value(reading_view(r)) == Ok::<u32, FailureView>(v),
            Err(e) => attribute_value(reading_view(r)) == Err::<u32, FailureView>(e@),
        },
{
    match r {
        Ok(text) => {
            let trimmed = trim_text(text.as_str());
            match parse_u32(trimmed) {
                Some(v) => Ok(v),
                None => Err(
                    IoFailure {
                        kind: IoKind::InvalidData,
                        message: concat("invalid battery attribute value: ", trimmed),
                    },
                ),
            }
        },
        Err(e) => Err(e),
    }
}

fn read_cycles(r: Reading) -> (res: Option<u8>)
    ensures
        res == cycles_of_reading(reading_view(r)),
{
    match r {
        Ok(text) => parse_u8(trim_text(text.as_str())),
        Err(_) => None,
    }
}

fn frame_failure(attr: BatteryAttribute, name: &str, f: IoFailure) -> (r: IoFailure)
    ensures
        r@ == framed_failure(attr, name@, f@),
{
    let mut message = concat("Failed to read ", attr.label());
    message.append(" for ");
    message.append(name);
    message.append(": ");
    message.append(f.message.as_str());
    proof {
        assert(message@ =~= framed_failure(attr, name@, f@).message);
    }
    IoFailure { kind: f.kind, message }
}

impl Battery {
    /// The snapshot that the readings of the battery at `path` give, with the
    /// warnings it leaves. The current and total power must be read; a failed
    /// status reading leaves a warning and `Unknown`; a failed cycle count
    /// leaves the count absent, without a warning.
    pub fn new(path: String, name: String, readings: BatteryReadings) -> (r: Result<
        (Battery, Vec<String>),
        IoFailure,
    >)
        ensures
            match r {
                Ok((b, w)) => snapshot_failure(name@, readings) is None && snapshot_of(
                    b,
                    strings_view(w@),
                    path@,
                    name@,
                    readings,
                ),
                Err(e) => snapshot_failure(name@, readings) == Some(e@),
            },
    {
        let ghost old_readings = readings;
        let BatteryReadings { energy_now, energy_full, status, cycle_count } = readings;
        let curr_power = match read_num_battery_attribute(energy_now) {
            Ok(v) => v,
            Err(f) => return Err(frame_failure(BatteryAttribute::CurrPower, name.as_str(), f)),
        };
        let total_power = match read_num_battery_attribute(energy_full) {
            Ok(v) => v,
            Err(f) => return Err(frame_failure(BatteryAttribute::TotalPower, name.as_str(), f)),
        };
        let mut warnings: Vec<String> = Vec::new();
        let status = match status {
            Ok(text) => status_from_text(text.as_str()),
            Err(e) => {
                let mut w = concat("Failed to read status for ", name.as_str());
                w.append(": ");
                w.append(e.message.as_str());
                w.append(". Using 'unknown'.");
                warnings.push(w);
                BatteryStatus::Unknown
            },
        };
        let cycles = read_cycles(cycle_count);
        let battery = Battery { path, name, total_power, curr_power, status, cycles };
        proof {
            assert(strings_view(warnings@) =~= status_warnings(battery.name@, reading_view(old_readings.status)));
        }
        Ok((battery, warnings))
    }

    /// Reads the snapshot anew from fresh readings of the same battery and
    /// returns the warnings that this left. Where it fails the snapshot stays
    /// as it was.
    pub fn refresh(&mut self, readings: BatteryReadings) -> (r: Result<Vec<String>, IoFailure>)
        ensures
            match r {
                Ok(w) => snapshot_failure(old(self).name@, readings) is None && snapshot_of(
                    *final(self),
                    strings_view(w@),
                    old(self).path@,
                    old(self).name@,
                    readings,
                ),
                Err(e) => snapshot_failure(old(self).name@, readings) == Some(e@) && *final(self)
                    == *old(self),
            },
    {
        match Battery::new(self.path.clone(), self.name.clone(), readings) {
            Ok((battery, warnings)) => {
                *self = battery;
                Ok(warnings)
            },
            Err(e) => Err(e),
        }
    }

    /// The charge in hundredths of a percent, rounded to the nearest (half
    /// up); `None` where the full energy is 0 and the charge has no value.
    pub fn percentage_hundredths(&self) -> (r: Option<u64>)
        ensures
            self.total_power == 0 ==> r is None,
            self.total_power > 0 ==> r == Some(
                ((self.curr_power as nat * 10000 + self.total_power as nat / 2) / self.total_power as nat) as u64,
            ),
    {
        if self.total_power == 0 {
            None
        } else {
            let num: u64 = self.curr_power as u64 * 10000 + self.total_power as u64 / 2;
            Some(num / self.total_power as u64)
        }
    }
}

/// A directory entry name of the battery-naming convention: it starts with
/// `BAT`.
pub open spec fn is_battery_entry(name: Seq<char>) -> bool {
    name.len() >= 3 && name.subrange(0, 3) == "BAT"@
}

/// The battery entries among `names`, in their order.
pub open spec fn battery_entries(names: Seq<Seq<char>>) -> Seq<Seq<char>>
    decreases names.len(),
{
    if names.len() == 0 {
        Seq::empty()
    } else {
        let rest = battery_entries(names.drop_last());
        if is_battery_entry(names.last()) {
            rest.push(names.last())
        } else {
            rest
        }
    }
}

/// Whether a directory entry name follows the battery-naming convention.
pub fn is_battery_name(name: &str) -> (r: bool)
    ensures
        r == is_battery_entry(name@),
{
    proof {
        reveal_strlit("BAT");
    }
    if name.unicode_len() < 3 {
        return false;
    }
    let r = name.get_char(0) == 'B' && name.get_char(1) == 'A' && name.get_char(2) == 'T';
    proof {
        if r {
            assert(name@.subrange(0, 3) =~= "BAT"@);
        } else {
            assert(name@.subrange(0, 3) != "BAT"@ ) by {
                if name@.subrange(0, 3) == "BAT"@ {
                    assert(name@[0] == name@.subrange(0, 3)[0]);
                    assert(name@[1] == name@.subrange(0, 3)[1]);
                    assert(name@[2] == name@.subrange(0, 3)[2]);
                }
            }
        }
    }
    r
}

/// The names of the battery entries among the entries of a directory, in the
/// order in which they were listed.
pub fn find_batteries(names: &Vec<String>) -> (r: Vec<String>)
    ensures
        strings_view(r@) == battery_entries(strings_view(names@)),
{
    let mut found: Vec<String> = Vec::new();
    let mut i: usize = 0;
    while i < names.len()
        invariant
            i <= names@.len(),
            strings_view(found@) == battery_entries(strings_view(names@).take(i as int)),
        decreases names@.len() - i,
    {
        let ghost before = found@;
        let name = &names[i];
        let keep = is_battery_name(name.as_str());
        if keep {
            found.push(name.clone());
        }
        proof {
            let all = strings_view(names@);
            assert(all.take(i + 1).drop_last() =~= all.take(i as int));
            assert(all.take(i + 1).last() == name@);
            if keep {
                assert(strings_view(found@) =~= strings_view(before).push(name@));
            } else {
                assert(strings_view(found@) =~= strings_view(before));
            }
        }
        i += 1;
    }
    proof {
        assert(strings_view(names@).take(names@.len() as int) =~= strings_view(names@));
    }
    found
}

} // verus!
