//! The segments of a pomodoro cadence.

use vstd::prelude::*;

verus! {

/// One segment of the cadence. A job of the regular rotation carries none.
#[derive(Clone, Copy, Debug, PartialEq, Eq, Structural)]
pub enum PomoState {
    Work,
    ShortBreak,
    LongBreak,
}

impl PomoState {
    /// The words by which the segment is named to the user.
    pub open spec fn name_spec(self) -> Seq<char> {
        match self {
            PomoState::Work => "work"@,
            PomoState::ShortBreak => "short break"@,
            PomoState::LongBreak => "long break"@,
        }
    }

    /// The segment's name, as it appears in notifications.
    pub fn name(&self) -> (text: &'static str)
        ensures
            text@ == self.name_spec(),
    {
        match self {
            PomoState::Work => "work",
            PomoState::ShortBreak => "short break",
            PomoState::LongBreak => "long break",
        }
    }
}

} // verus!
