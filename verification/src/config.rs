//! What the daemon is started with.

use vstd::prelude::*;

verus! {

/// The settings of one daemon. They are fixed at start and only read
/// afterwards. The minutes may be zero; a cadence needs at least one work
/// cycle before its long break.
#[derive(Clone, Debug, PartialEq, Eq)]
pub struct Config {
    /// The directory that holds the wallpapers.
    pub wallpaper_dir: String,
    /// The frame rate handed to the painter for the transition effect.
    pub transition_fps: u8,
    /// Minutes between two wallpapers of the regular rotation.
    pub regular_interval_mins: u8,
    /// Minutes of one work segment.
    pub work_mins: u8,
    /// Minutes of one short break.
    pub short_break_mins: u8,
    /// Minutes of one long break.
    pub long_break_mins: u8,
    /// Work segments in one lap of the cadence; the last is followed by the
    /// long break, the others by a short one.
    pub cycles_before_break: u8,
}

impl Config {
    /// Whether a cadence can be built from these settings.
    pub open spec fn cadence_ready(&self) -> bool {
        self.cycles_before_break >= 1
    }

    /// Whether a cadence can be built from these settings.
    pub fn is_cadence_ready(&self) -> (ready: bool)
        ensures
            ready == self.cadence_ready(),
    {
        self.cycles_before_break >= 1
    }
}

} // verus!
