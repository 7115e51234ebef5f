//! Timing patterns: the finite list of holds that a job sequence walks
//! through again and again.

use crate::config::Config;
use crate::phase::PomoState;
use crate::time::{dur_from_mins, mins_to_nanos, Nanos};
use vstd::arithmetic::div_mod::lemma_small_mod;
use vstd::prelude::*;

verus! {

/// One entry of a timing pattern: how long a wallpaper is held, and the
/// cadence segment it is held under, if any.
#[derive(Clone, Copy, Debug, PartialEq, Eq)]
pub struct Slot {
    pub sleep_dur: Nanos,
    pub pomo_state: Option<PomoState>,
}

impl Config {
    /// The only entry of the regular rotation.
    pub open spec fn regular_slot(&self) -> Slot {
        Slot { sleep_dur: mins_to_nanos(self.regular_interval_mins), pomo_state: None }
    }

    /// A work segment.
    pub open spec fn work_slot(&self) -> Slot {
        Slot { sleep_dur: mins_to_nanos(self.work_mins), pomo_state: Some(PomoState::Work) }
    }

    /// A short break.
    pub open spec fn short_break_slot(&self) -> Slot {
        Slot {
            sleep_dur: mins_to_nanos(self.short_break_mins),
            pomo_state: Some(PomoState::ShortBreak),
        }
    }

    /// The long break.
    pub open spec fn long_break_slot(&self) -> Slot {
        Slot {
            sleep_dur: mins_to_nanos(self.long_break_mins),
            pomo_state: Some(PomoState::LongBreak),
        }
    }

    /// The entry of a segment: the segment, held for its minutes.
    pub open spec fn segment_slot(&self, pomo: PomoState) -> Slot {
        match pomo {
            PomoState::Work => self.work_slot(),
            PomoState::ShortBreak => self.short_break_slot(),
            PomoState::LongBreak => self.long_break_slot(),
        }
    }
}

/// The segment at place `k` of a cadence with `cycles` work segments to the
/// lap, counting from zero and on through all laps: every other place,
/// from the first on, is work; the last place of each lap is the long
/// break; the other places between are short breaks.
pub open spec fn cadence_segment(cycles: nat, k: nat) -> PomoState {
    if k % 2 == 0 {
        PomoState::Work
    } else if k % (2 * cycles) == 2 * cycles - 1 {
        PomoState::LongBreak
    } else {
        PomoState::ShortBreak
    }
}

/// The pattern of the regular rotation: one hold, under no segment.
pub open spec fn regular_pattern(config: Config) -> Seq<Slot> {
    seq![config.regular_slot()]
}

/// `rounds` times work followed by a short break.
pub open spec fn work_break_rounds(config: Config, rounds: nat) -> Seq<Slot>
    decreases rounds,
{
    if rounds == 0 {
        Seq::empty()
    } else {
        work_break_rounds(config, (rounds - 1) as nat) + seq![
            config.work_slot(),
            config.short_break_slot(),
        ]
    }
}

/// One lap of the cadence: work and short break for all cycles but the
/// last, then work and the long break.
pub open spec fn cadence_pattern(config: Config) -> Seq<Slot> {
    work_break_rounds(config, (config.cycles_before_break - 1) as nat) + seq![
        config.work_slot(),
        config.long_break_slot(),
    ]
}

/// The pattern of a mode.
pub open spec fn pattern_of(pomo: bool, config: Config) -> Seq<Slot> {
    if pomo {
        cadence_pattern(config)
    } else {
        regular_pattern(config)
    }
}

/// Work and short break alternate, two entries a round.
pub proof fn lemma_work_break_rounds(config: Config, rounds: nat)
    ensures
        work_break_rounds(config, rounds).len() == 2 * rounds,
        forall|j: int|
            0 <= j < 2 * rounds && j % 2 == 0 ==> #[trigger] work_break_rounds(config, rounds)[j]
                == config.work_slot(),
        forall|j: int|
            0 <= j < 2 * rounds && j % 2 == 1 ==> #[trigger] work_break_rounds(config, rounds)[j]
                == config.short_break_slot(),
    decreases rounds,
{
    if rounds > 0 {
        lemma_work_break_rounds(config, (rounds - 1) as nat);
    }
}

/// A lap of the cadence entry by entry: with `n` cycles it has `2 * n`
/// entries, and each holds the segment of its place for that segment's
/// minutes.
pub proof fn lemma_cadence_pattern_entries(config: Config)
    requires
        config.cadence_ready(),
    ensures
        cadence_pattern(config).len() == 2 * config.cycles_before_break,
        forall|j: int|
            0 <= j < 2 * config.cycles_before_break ==> #[trigger] cadence_pattern(config)[j]
                == config.segment_slot(
                cadence_segment(config.cycles_before_break as nat, j as nat),
            ),
{
    let cycles = config.cycles_before_break as nat;
    lemma_work_break_rounds(config, (cycles - 1) as nat);
    assert forall|j: int| 0 <= j < 2 * cycles implies #[trigger] cadence_pattern(config)[j]
        == config.segment_slot(cadence_segment(cycles, j as nat)) by {
        lemma_small_mod(j as nat, 2 * cycles);
    }
}

/// Builds the timing pattern of a mode: a lap of the cadence if `pomo`,
/// else the single hold of the regular rotation.
pub fn build_pattern(pomo: bool, config: &Config) -> (pattern: Vec<Slot>)
    requires
        pomo ==> config.cadence_ready(),
    ensures
        pattern@ == pattern_of(pomo, *config),
{
    let mut pattern: Vec<Slot> = Vec::new();
    if pomo {
        let work = Slot {
            sleep_dur: dur_from_mins(config.work_mins),
            pomo_state: Some(PomoState::Work),
        };
        let short_break = Slot {
            sleep_dur: dur_from_mins(config.short_break_mins),
            pomo_state: Some(PomoState::ShortBreak),
        };
        let long_break = Slot {
            sleep_dur: dur_from_mins(config.long_break_mins),
            pomo_state: Some(PomoState::LongBreak),
        };
        let rounds: u8 = config.cycles_before_break - 1;
        let mut done: u8 = 0;
        while done < rounds
            invariant
                done <= rounds,
                work == config.work_slot(),
                short_break == config.short_break_slot(),
                pattern@ == work_break_rounds(*config, done as nat),
            decreases rounds - done,
        {
            pattern.push(work);
            pattern.push(short_break);
            done += 1;
        }
        pattern.push(work);
        pattern.push(long_break);
    } else {
        pattern.push(
            Slot { sleep_dur: dur_from_mins(config.regular_interval_mins), pomo_state: None },
        );
    }
    pattern
}

} // verus!
