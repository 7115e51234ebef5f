//! Jobs and the endless sequence they come from.
//!
//! A job sequence pairs a timing pattern with a pool of images. Both are
//! walked through cyclically and independently of each other: the k-th job
//! takes the k-th image and the k-th hold, each counted modulo the length of
//! its own list. Where the two lengths differ, an image meets another hold
//! on its next lap.

use crate::config::Config;
use crate::image::{get_wallpapers, image_pool};
use crate::pattern::{
    build_pattern, cadence_pattern, cadence_segment, lemma_cadence_pattern_entries, pattern_of,
    regular_pattern, Slot,
};
use crate::phase::PomoState;
use crate::time::{mins_to_nanos, Nanos};
use vstd::arithmetic::div_mod::{
    lemma_add_mod_noop, lemma_mod_add_multiples_vanish, lemma_mod_bound, lemma_mod_mod,
    lemma_mod_self_0, lemma_mod_twice, lemma_small_mod,
};
use vstd::prelude::*;

verus! {

/// Why no job sequence could be made.
#[derive(Clone, Copy, Debug, PartialEq, Eq, Structural)]
pub enum ScheduleError {
    /// There is no image to show.
    EmptyPool,
    /// There is no hold to time an image with.
    EmptyPattern,
}

/// One unit of work for the scheduler: show `filepath` for `sleep_dur`.
#[derive(Clone, Debug, PartialEq, Eq)]
pub struct Job {
    pub filepath: String,
    pub sleep_dur: Nanos,
    pub pomo_state: Option<PomoState>,
}

/// What contracts say of a job: its fields, the path as its characters.
pub struct JobView {
    pub filepath: Seq<char>,
    pub sleep_dur: Nanos,
    pub pomo_state: Option<PomoState>,
}

impl View for Job {
    type V = JobView;

    open spec fn view(&self) -> JobView {
        JobView {
            filepath: self.filepath@,
            sleep_dur: self.sleep_dur,
            pomo_state: self.pomo_state,
        }
    }
}

/// What contracts say of a job sequence: the two lists, and the place in
/// each from which the next job is taken.
pub struct JobSequenceView {
    pub images: Seq<Seq<char>>,
    pub pattern: Seq<Slot>,
    pub cursor: nat,
    pub slot: nat,
}

impl JobSequenceView {
    /// A sequence that has not handed out a job yet.
    pub open spec fn fresh(images: Seq<Seq<char>>, pattern: Seq<Slot>) -> JobSequenceView {
        JobSequenceView { images, pattern, cursor: 0, slot: 0 }
    }

    /// Both lists are non-empty and both places lie inside their list.
    pub open spec fn wf(self) -> bool {
        &&& self.cursor < self.images.len()
        &&& self.slot < self.pattern.len()
    }

    /// The image of the job `k` places from here: the images are walked
    /// through in their order, and from the last on to the first again.
    pub open spec fn image_at(self, k: nat) -> Seq<char> {
        self.images[((self.cursor + k) % self.images.len()) as int]
    }

    /// The hold and segment of the job `k` places from here: the pattern
    /// is walked through in its order, and from its last entry on to its
    /// first again.
    pub open spec fn slot_at(self, k: nat) -> Slot {
        self.pattern[((self.slot + k) % self.pattern.len()) as int]
    }

    /// The job `k` places from here; `job_at(0)` is the one that `next`
    /// hands out.
    pub open spec fn job_at(self, k: nat) -> JobView {
        JobView {
            filepath: self.image_at(k),
            sleep_dur: self.slot_at(k).sleep_dur,
            pomo_state: self.slot_at(k).pomo_state,
        }
    }

    /// The sequence after `k` jobs have been taken from it.
    pub open spec fn advance(self, k: nat) -> JobSequenceView {
        JobSequenceView {
            cursor: (self.cursor + k) % self.images.len(),
            slot: (self.slot + k) % self.pattern.len(),
            ..self
        }
    }
}

/// An endless supply of jobs.
pub struct JobSequence {
    images: Vec<String>,
    pattern: Vec<Slot>,
    cursor: usize,
    slot: usize,
}

impl View for JobSequence {
    type V = JobSequenceView;

    closed spec fn view(&self) -> JobSequenceView {
        JobSequenceView {
            images: self.images.deep_view(),
            pattern: self.pattern@,
            cursor: self.cursor as nat,
            slot: self.slot as nat,
        }
    }
}

impl JobSequence {
    /// Every job sequence is well formed, at all times.
    #[verifier::type_invariant]
    pub open spec fn inv(&self) -> bool {
        self@.wf()
    }

    /// Pairs `images` with `pattern`, starting at the head of both. It
    /// fails if there is no image, or else if there is no hold.
    pub fn new(images: Vec<String>, pattern: Vec<Slot>) -> (made: Result<
        JobSequence,
        ScheduleError,
    >)
        ensures
            match made {
                Ok(jobs) => {
                    &&& images.len() > 0
                    &&& pattern.len() > 0
                    &&& jobs@ == JobSequenceView::fresh(images.deep_view(), pattern@)
                },
                Err(ScheduleError::EmptyPool) => images.len() == 0,
                Err(ScheduleError::EmptyPattern) => images.len() > 0 && pattern.len() == 0,
            },
    {
        if images.len() == 0 {
            Err(ScheduleError::EmptyPool)
        } else if pattern.len() == 0 {
            Err(ScheduleError::EmptyPattern)
        } else {
            Ok(JobSequence { images, pattern, cursor: 0, slot: 0 })
        }
    }

    /// The job that `next` would hand out, without taking it.
    pub fn peek(&self) -> (job: Job)
        ensures
            self@.wf(),
            job@ == self@.job_at(0),
    {
        proof {
            use_type_invariant(self);
            lemma_small_mod(self.cursor as nat, self.images.len() as nat);
            lemma_small_mod(self.slot as nat, self.pattern.len() as nat);
        }
        let slot: Slot = self.pattern[self.slot];
        Job {
            filepath: self.images[self.cursor].clone(),
            sleep_dur: slot.sleep_dur,
            pomo_state: slot.pomo_state,
        }
    }

    /// Moves on by one in both lists, each starting over at its end.
    pub fn advance(&mut self)
        ensures
            old(self)@.wf(),
            final(self)@.wf(),
            final(self)@ == old(self)@.advance(1),
        no_unwind
    {
        proof {
            use_type_invariant(&*self);
            lemma_step_mod(self.cursor as nat, self.images.len() as nat);
            lemma_step_mod(self.slot as nat, self.pattern.len() as nat);
        }
        self.cursor = if self.cursor + 1 == self.images.len() {
            0
        } else {
            self.cursor + 1
        };
        self.slot = if self.slot + 1 == self.pattern.len() {
            0
        } else {
            self.slot + 1
        };
    }

    /// Hands out the next job and moves on by one in both lists.
    pub fn next(&mut self) -> (job: Job)
        ensures
            old(self)@.wf(),
            final(self)@.wf(),
            job@ == old(self)@.job_at(0),
            final(self)@ == old(self)@.advance(1),
    {
        let job = self.peek();
        self.advance();
        job
    }
}

/// One step round a cycle of length `m`.
proof fn lemma_step_mod(x: nat, m: nat)
    requires
        x < m,
    ensures
        (x + 1) % m == if x + 1 == m {
            0
        } else {
            x + 1
        },
{
    if x + 1 == m {
        lemma_mod_self_0(m as int);
    } else {
        lemma_small_mod(x + 1, m);
    }
}

/// Moving on by `j` and then by `k` is moving on by `j + k`.
proof fn lemma_mod_add_twice(x: nat, j: nat, k: nat, m: nat)
    requires
        m > 0,
    ensures
        ((x + j) % m + k) % m == (x + j + k) % m,
{
    lemma_add_mod_noop((x + j) as int, k as int, m as int);
    lemma_mod_twice((x + j) as int, m as int);
    lemma_add_mod_noop(((x + j) % m) as int, k as int, m as int);
}

/// Taking jobs keeps a sequence well formed, and taking `j` and then `k` of
/// them is taking `j + k`.
pub proof fn lemma_advance(jobs: JobSequenceView, j: nat, k: nat)
    requires
        jobs.wf(),
    ensures
        jobs.advance(j).wf(),
        jobs.advance(0) == jobs,
        jobs.advance(j).advance(k) == jobs.advance(j + k),
{
    let n = jobs.images.len();
    let m = jobs.pattern.len();
    lemma_mod_bound((jobs.cursor + j) as int, n as int);
    lemma_mod_bound((jobs.slot + j) as int, m as int);
    lemma_small_mod(jobs.cursor, n);
    lemma_small_mod(jobs.slot, m);
    lemma_mod_add_twice(jobs.cursor, j, k, n);
    lemma_mod_add_twice(jobs.slot, j, k, m);
}

/// The job `k` places on from where `j` jobs were taken is the job `j + k`
/// places on from here: the `j`-th call of `next`, counting from zero,
/// hands out `job_at(j)`.
pub proof fn lemma_job_at_advance(jobs: JobSequenceView, j: nat, k: nat)
    requires
        jobs.wf(),
    ensures
        jobs.advance(j).job_at(k) == jobs.job_at(j + k),
{
    lemma_mod_add_twice(jobs.cursor, j, k, jobs.images.len());
    lemma_mod_add_twice(jobs.slot, j, k, jobs.pattern.len());
}

/// The images come round with the number of images as their period, and
/// the holds with the length of the pattern as theirs, each whatever the
/// other does: nothing is drawn anew, and neither list waits for the other.
pub proof fn lemma_periods(jobs: JobSequenceView, k: nat)
    requires
        jobs.wf(),
    ensures
        jobs.image_at(k + jobs.images.len()) == jobs.image_at(k),
        jobs.slot_at(k + jobs.pattern.len()) == jobs.slot_at(k),
{
    lemma_mod_add_multiples_vanish((jobs.cursor + k) as int, jobs.images.len() as int);
    lemma_mod_add_multiples_vanish((jobs.slot + k) as int, jobs.pattern.len() as int);
}

/// Every job of a sequence shows an image of the sequence, and is timed by
/// an entry of its pattern.
pub proof fn lemma_job_from_lists(jobs: JobSequenceView, k: nat)
    requires
        jobs.wf(),
    ensures
        jobs.images.contains(jobs.job_at(k).filepath),
        jobs.pattern.contains(jobs.slot_at(k)),
{
    lemma_mod_bound((jobs.cursor + k) as int, jobs.images.len() as int);
    lemma_mod_bound((jobs.slot + k) as int, jobs.pattern.len() as int);
}

/// Every job of a sequence whose images are a reordering of a pool shows an
/// image of that pool.
pub proof fn lemma_job_image_in_pool(jobs: JobSequenceView, pool: Seq<Seq<char>>, k: nat)
    requires
        jobs.wf(),
        jobs.images.to_multiset() == pool.to_multiset(),
    ensures
        pool.contains(jobs.job_at(k).filepath),
{
    let shown = jobs.job_at(k).filepath;
    lemma_job_from_lists(jobs, k);
    jobs.images.to_multiset_ensures();
    pool.to_multiset_ensures();
    assert(jobs.images.to_multiset().count(shown) > 0);
    assert(pool.to_multiset().count(shown) > 0);
}

/// In the regular rotation every job is held for the configured interval
/// and carries no segment, wherever the sequence stands.
pub proof fn lemma_regular_jobs(jobs: JobSequenceView, config: Config, k: nat)
    requires
        jobs.wf(),
        jobs.pattern == regular_pattern(config),
    ensures
        jobs.slot_at(k) == config.regular_slot(),
        jobs.job_at(k).sleep_dur == mins_to_nanos(config.regular_interval_mins),
        jobs.job_at(k).pomo_state.is_none(),
{
    lemma_mod_bound((jobs.slot + k) as int, 1);
}

/// In a cadence the job `k` places from the head of the sequence is timed
/// and labelled by entry `k` of the lap, counted modulo the length of the
/// lap: the jobs run through the lap again and again.
pub proof fn lemma_cadence_jobs(jobs: JobSequenceView, config: Config, k: nat)
    requires
        jobs.wf(),
        jobs.slot == 0,
        jobs.pattern == cadence_pattern(config),
    ensures
        jobs.slot_at(k) == cadence_pattern(config)[(k % cadence_pattern(config).len()) as int],
{
}

/// The cadence job by job, from the head of the sequence: job `k` carries
/// the segment of place `k` and is held for that segment's minutes.
pub proof fn lemma_cadence_job_by_place(jobs: JobSequenceView, config: Config, k: nat)
    requires
        jobs.wf(),
        jobs.slot == 0,
        jobs.pattern == cadence_pattern(config),
        config.cadence_ready(),
    ensures
        jobs.slot_at(k) == config.segment_slot(
            cadence_segment(config.cycles_before_break as nat, k),
        ),
        jobs.job_at(k).pomo_state == Some(cadence_segment(config.cycles_before_break as nat, k)),
{
    let cycles = config.cycles_before_break as nat;
    let place = k % (2 * cycles);
    lemma_cadence_pattern_entries(config);
    lemma_mod_bound(k as int, (2 * cycles) as int);
    assert(cadence_segment(cycles, place) == cadence_segment(cycles, k)) by {
        lemma_mod_mod(k as int, 2, cycles as int);
        lemma_mod_twice(k as int, (2 * cycles) as int);
    }
    assert(jobs.pattern[place as int] == config.segment_slot(cadence_segment(cycles, place)));
}

/// Makes the job sequence of a mode from a directory listing: the images
/// among its entries in a random order, timed by a lap of the cadence if
/// `pomo`, else by the regular interval. It fails if the listing holds no
/// image.
pub fn generate_jobs(pomo: bool, config: &Config, listing: &Vec<String>) -> (made: Result<
    JobSequence,
    ScheduleError,
>)
    requires
        pomo ==> config.cadence_ready(),
    ensures
        match made {
            Ok(jobs) => {
                &&& image_pool(listing.deep_view()).len() > 0
                &&& jobs@.wf()
                &&& jobs@.images.to_multiset() == image_pool(listing.deep_view()).to_multiset()
                &&& jobs@.pattern == pattern_of(pomo, *config)
                &&& jobs@.cursor == 0
                &&& jobs@.slot == 0
            },
            Err(error) => {
                &&& error == ScheduleError::EmptyPool
                &&& image_pool(listing.deep_view()).len() == 0
            },
        },
{
    let images = get_wallpapers(listing);
    let pattern = build_pattern(pomo, config);
    proof {
        images.deep_view().to_multiset_ensures();
        image_pool(listing.deep_view()).to_multiset_ensures();
    }
    JobSequence::new(images, pattern)
}

} // verus!
