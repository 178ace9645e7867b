use vstd::prelude::*;

use crate::text::{lowercase, lower_of};
use crate::thresholds::ThresholdKind;

verus! {

/// The one-shot command's arguments.
pub struct Cli {
    /// The directory that holds the battery entries, where not the default.
    pub path: Option<String>,
    /// A threshold value to set.
    pub value: Option<u8>,
    /// Which threshold to set: `start` or `end`, in any case.
    pub kind: String,
    /// Whether to open the interactive view.
    pub tui: bool,
}

/// What the command is asked to do.
#[derive(Clone, Copy, Debug, PartialEq, Eq, Structural)]
pub enum Action {
    /// Open the interactive view.
    Interactive,
    /// Set one threshold of the first battery and save the pair.
    SetThreshold(ThresholdKind, u8),
    /// Show the thresholds of the first battery.
    Show,
}

/// The threshold kind that a word, already folded to lowercase, names.
pub open spec fn kind_of_folded(folded: Seq<char>) -> Option<ThresholdKind> {
    if folded == "start"@ {
        Some(ThresholdKind::Start)
    } else if folded == "end"@ {
        Some(ThresholdKind::End)
    } else {
        None
    }
}

/// The action that the arguments ask for, or the message that refuses them.
pub open spec fn action_of(tui: bool, value: Option<u8>, kind: Seq<char>) -> Result<Action, Seq<char>> {
    if tui {
        if value is Some {
            Err("--value cannot be used with --tui"@)
        } else {
            Ok(Action::Interactive)
        }
    } else {
        match value {
            Some(v) => match kind_of_folded(lower_of(kind)) {
                Some(k) => Ok(Action::SetThreshold(k, v)),
                None => Err("kind must be either 'start' or 'end'"@),
            },
            None => Ok(Action::Show),
        }
    }
}

/// The threshold kind that a word, already folded to lowercase, names.
pub fn kind_from_folded(folded: &str) -> (r: Option<ThresholdKind>)
    ensures
        r == kind_of_folded(folded@),
{
    let word = String::from_str(folded);
    if word == String::from_str("start") {
        Some(ThresholdKind::Start)
    } else if word == String::from_str("end") {
        Some(ThresholdKind::End)
    } else {
        None
    }
}

impl Cli {
    /// The action that the arguments ask for. A value beside the interactive
    /// view is refused, and so is an unknown threshold kind where a value is
    /// to be set.
    pub fn action(&self) -> (r: Result<Action, String>)
        ensures
            match r {
                Ok(a) => action_of(self.tui, self.value, self.kind@) == Ok::<Action, Seq<char>>(a),
                Err(m) => action_of(self.tui, self.value, self.kind@) == Err::<Action, Seq<char>>(
                    m@,
                ),
            },
    {
        if self.tui {
            if self.value.is_some() {
                return Err(String::from_str("--value cannot be used with --tui"));
            }
            return Ok(Action::Interactive);
        }
        match self.value {
            Some(v) => {
                let folded = lowercase(self.kind.as_str());
                match kind_from_folded(folded.as_str()) {
                    Some(k) => Ok(Action::SetThreshold(k, v)),
                    None => Err(String::from_str("kind must be either 'start' or 'end'")),
                }
            },
            None => Ok(Action::Show),
        }
    }
}

} // verus!
