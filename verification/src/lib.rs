//! A wallpaper scheduler with an optional pomodoro cadence.
//!
//! The crate holds the decisions of the daemon: which image comes next, how
//! long it is held, what a client command does to the running job, and what
//! the user is told. Reading directories, painting, notifying, sleeping and
//! the control socket are left to the program that drives it.
//!
//! - [`image`] picks the images out of a directory listing and draws their
//!   order.
//! - [`pattern`] builds the holds of a mode: one interval for the regular
//!   rotation, a lap of work and breaks for the cadence.
//! - [`jobs`] pairs images and holds into an endless sequence of jobs.
//! - [`worker`] is the scheduler itself: the current job, pause and resume,
//!   skip and toggle.
//! - [`command`] decodes what clients send, and [`notice`] words what the
//!   user is told.
//!
//! Time is counted in whole nanoseconds of a monotonic clock, see [`time`].

pub mod command;
pub mod config;
pub mod image;
pub mod jobs;
pub mod notice;
pub mod pattern;
pub mod phase;
pub mod text;
pub mod time;
pub mod worker;
