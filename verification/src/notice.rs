//! What the user is told.

use crate::phase::PomoState;
use crate::time::{duration_text, format_duration, Nanos};
use vstd::prelude::*;
use vstd::string::StringExecFns;

verus! {

/// One notification. The driver shows its body; showing may fail, and a
/// failure changes nothing for the scheduler.
#[derive(Clone, Copy, Debug, PartialEq, Eq)]
pub enum Notice {
    /// The current job was frozen.
    Pausing,
    /// A frozen job runs on.
    Resuming,
    /// The cadence was left for the regular rotation.
    ExitingPomo,
    /// A job of the cadence begins.
    Entering(PomoState),
    /// The answer to a question for the time: what is left of the current
    /// job, and the segment it belongs to, if any.
    Remaining { remaining: Nanos, pomo_state: Option<PomoState> },
}

impl Notice {
    /// The notice of the segment that a job enters; a job of the regular
    /// rotation enters none.
    pub open spec fn entering_spec(pomo_state: Option<PomoState>) -> Option<Notice> {
        match pomo_state {
            Some(pomo) => Some(Notice::Entering(pomo)),
            None => None,
        }
    }

    /// The text of the notification.
    pub open spec fn body_spec(self) -> Seq<char> {
        match self {
            Notice::Pausing => "pausing"@,
            Notice::Resuming => "resuming"@,
            Notice::ExitingPomo => "exiting pomo"@,
            Notice::Entering(pomo) => "entering "@ + pomo.name_spec(),
            Notice::Remaining { remaining, pomo_state: Some(pomo) } => duration_text(remaining)
                + " remaining in "@ + pomo.name_spec(),
            Notice::Remaining { remaining, pomo_state: None } => duration_text(remaining)
                + " remaining on current wallpaper"@,
        }
    }

    /// The notice of the segment that a job enters, if it enters one.
    pub fn entering(pomo_state: Option<PomoState>) -> (notice: Option<Notice>)
        ensures
            notice == Notice::entering_spec(pomo_state),
    {
        match pomo_state {
            Some(pomo) => Some(Notice::Entering(pomo)),
            None => None,
        }
    }

    /// Renders the text of the notification.
    pub fn body(&self) -> (text: String)
        ensures
            text@ == self.body_spec(),
    {
        match self {
            Notice::Pausing => "pausing".to_owned(),
            Notice::Resuming => "resuming".to_owned(),
            Notice::ExitingPomo => "exiting pomo".to_owned(),
            Notice::Entering(pomo) => "entering ".to_owned().concat(pomo.name()),
            Notice::Remaining { remaining, pomo_state: Some(pomo) } => {
                format_duration(*remaining).concat(" remaining in ").concat(pomo.name())
            },
            Notice::Remaining { remaining, pomo_state: None } => {
                format_duration(*remaining).concat(" remaining on current wallpaper")
            },
        }
    }
}

} // verus!
