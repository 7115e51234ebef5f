use caydence::notice::Notice;
use caydence::phase::PomoState;
use caydence::time::{dur_from_mins, NANOS_PER_SEC};

#[test]
fn segments_have_their_names() {
    assert_eq!(PomoState::Work.name(), "work");
    assert_eq!(PomoState::ShortBreak.name(), "short break");
    assert_eq!(PomoState::LongBreak.name(), "long break");
}

#[test]
fn plain_notices_have_fixed_words() {
    assert_eq!(Notice::Pausing.body(), "pausing");
    assert_eq!(Notice::Resuming.body(), "resuming");
    assert_eq!(Notice::ExitingPomo.body(), "exiting pomo");
}

#[test]
fn entering_names_the_segment() {
    assert_eq!(Notice::Entering(PomoState::Work).body(), "entering work");
    assert_eq!(Notice::Entering(PomoState::ShortBreak).body(), "entering short break");
    assert_eq!(Notice::Entering(PomoState::LongBreak).body(), "entering long break");
}

#[test]
fn only_cadence_jobs_are_announced() {
    assert_eq!(Notice::entering(None), None);
    assert_eq!(
        Notice::entering(Some(PomoState::LongBreak)),
        Some(Notice::Entering(PomoState::LongBreak))
    );
}

#[test]
fn the_time_left_in_a_segment() {
    let notice = Notice::Remaining {
        remaining: 200 * NANOS_PER_SEC,
        pomo_state: Some(PomoState::ShortBreak),
    };
    assert_eq!(notice.body(), "3m20s remaining in short break");
    let whole = Notice::Remaining {
        remaining: dur_from_mins(25),
        pomo_state: Some(PomoState::Work),
    };
    assert_eq!(whole.body(), "25m0s remaining in work");
}

#[test]
fn the_time_left_on_a_regular_wallpaper() {
    let notice = Notice::Remaining { remaining: 5 * NANOS_PER_SEC + 1, pomo_state: None };
    assert_eq!(notice.body(), "0m5s remaining on current wallpaper");
    let none = Notice::Remaining { remaining: 0, pomo_state: None };
    assert_eq!(none.body(), "0m0s remaining on current wallpaper");
}
