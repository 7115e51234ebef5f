//! Time as whole nanoseconds, and how a length of time is shown to the user.

use crate::text::{decimal, push_decimal};
use vstd::prelude::*;
use vstd::string::StringExecFns;

verus! {

/// A length of time, or an instant of the monotonic clock counted from an
/// origin that the driver picks once; whole nanoseconds either way.
pub type Nanos = u64;

pub const NANOS_PER_SEC: u64 = 1_000_000_000;

pub const SECS_PER_MIN: u64 = 60;

/// The nanoseconds in `mins` minutes.
pub open spec fn mins_to_nanos(mins: u8) -> Nanos {
    (mins * 60 * 1_000_000_000) as u64
}

/// The length of `mins` minutes.
pub fn dur_from_mins(mins: u8) -> (d: Nanos)
    ensures
        d == mins * 60 * 1_000_000_000,
        d == mins_to_nanos(mins),
{
    (mins as u64) * SECS_PER_MIN * NANOS_PER_SEC
}

/// A length of time as whole minutes and seconds, `3m20s`. What is left
/// below a second is dropped.
pub open spec fn duration_text(duration: Nanos) -> Seq<char> {
    let secs = (duration / 1_000_000_000) as nat;
    decimal(secs / 60) + seq!['m'] + decimal(secs % 60) + seq!['s']
}

/// Renders a length of time as whole minutes and seconds.
pub fn format_duration(duration: Nanos) -> (text: String)
    ensures
        text@ == duration_text(duration),
{
    let secs: u64 = duration / NANOS_PER_SEC;
    let mut text = String::new();
    push_decimal(&mut text, secs / SECS_PER_MIN);
    text.append("m");
    push_decimal(&mut text, secs % SECS_PER_MIN);
    text.append("s");
    proof {
        reveal_strlit("m");
        reveal_strlit("s");
    }
    text
}

} // verus!
