//! The scheduler: the one job that is being shown, and what each event does
//! to it.
//!
//! A `Worker` is driven from outside. The driver takes a job with
//! `start_job`, paints it, and then asks `wait` what to wait for: a command,
//! or a command and the end of the hold, whichever comes first. It reports
//! what happened with `handle_message` or `timer_elapsed` and asks again,
//! until `wait` answers that the next job is due. Every instant is handed in
//! by the driver, read from a clock that does not run backwards.
//!
//! Painting and notifying may fail. A notice that could not be shown is
//! lost and nothing else happens; a job that could not be painted ends the
//! driver, since the scheduler would no longer know what is on the screen.

use crate::command::ClientCommand;
use crate::config::Config;
use crate::image::image_pool;
use crate::jobs::{
    generate_jobs, lemma_advance, Job, JobSequence, JobSequenceView, ScheduleError,
};
use crate::notice::Notice;
use crate::pattern::{lemma_cadence_pattern_entries, pattern_of, regular_pattern};
use crate::phase::PomoState;
use crate::time::Nanos;
use vstd::arithmetic::div_mod::{lemma_mod_bound, lemma_small_mod};
use vstd::prelude::*;

verus! {

/// What the driver waits for next.
#[derive(Clone, Copy, Debug, PartialEq, Eq)]
pub enum Wait {
    /// Nothing: the current job is over, start the next one.
    NextJob,
    /// The next command only; the job is paused and no timer runs.
    Command,
    /// The next command, or the end of this length of time, whichever comes
    /// first.
    CommandOrTimer(Nanos),
}

/// What contracts say of the scheduler: its state, field by field.
pub struct WorkerView {
    /// The segment of the current job.
    pub pomo_state: Option<PomoState>,
    /// When the current job began, or where a resumed job would have begun
    /// had it never been paused.
    pub start_time: Nanos,
    /// What was left of the current job when it was paused.
    pub paused: Option<Nanos>,
    /// How long the current job is held.
    pub sleep_dur: Nanos,
    /// Where the coming jobs are taken from.
    pub jobs: JobSequenceView,
    /// Whether the current job is still being held.
    pub remain_in_job: bool,
    pub config: Config,
}

impl WorkerView {
    /// What holds of every scheduler: it can always take a next job and
    /// build a cadence, and a paused job has no more left than its hold.
    pub open spec fn wf(self) -> bool {
        &&& self.jobs.wf()
        &&& self.config.cadence_ready()
        &&& self.paused matches Some(frozen) ==> frozen <= self.sleep_dur
    }

    /// What is left of the current job at `now`: the hold less the time
    /// since the job began, and never less than nothing; while paused, what
    /// was left at the pause, whatever `now` is.
    pub open spec fn remaining(self, now: Nanos) -> Nanos {
        match self.paused {
            Some(frozen) => frozen,
            None => self.sleep_dur.saturating_sub(now.saturating_sub(self.start_time)),
        }
    }

    /// A running job is frozen with what is left of it; a frozen job runs
    /// on with exactly that much left.
    pub open spec fn pause(self, now: Nanos) -> WorkerView {
        match self.paused {
            Some(frozen) => WorkerView {
                start_time: now.saturating_sub((self.sleep_dur - frozen) as Nanos),
                paused: None,
                ..self
            },
            None => WorkerView { paused: Some(self.remaining(now)), ..self },
        }
    }

    /// The current job ends now, paused or not.
    pub open spec fn skip(self) -> WorkerView {
        WorkerView { remain_in_job: false, paused: None, ..self }
    }

    /// The coming jobs are taken from `jobs`, and the current job ends now.
    pub open spec fn replace_jobs(self, jobs: JobSequenceView) -> WorkerView {
        WorkerView { jobs, ..self.skip() }
    }

    /// The next job of the sequence becomes the current job, running from
    /// `now`.
    pub open spec fn start_job(self, now: Nanos) -> WorkerView {
        WorkerView {
            pomo_state: self.jobs.job_at(0).pomo_state,
            start_time: now,
            paused: None,
            sleep_dur: self.jobs.job_at(0).sleep_dur,
            jobs: self.jobs.advance(1),
            remain_in_job: true,
            config: self.config,
        }
    }

    /// The hold of a running job is over. A paused job has no timer, so an
    /// expiry that reaches it is stale and changes nothing.
    pub open spec fn timer_elapsed(self) -> WorkerView {
        if self.paused.is_some() {
            self
        } else {
            WorkerView { remain_in_job: false, ..self }
        }
    }

    /// What the driver waits for at `now`.
    pub open spec fn wait(self, now: Nanos) -> Wait {
        if !self.remain_in_job {
            Wait::NextJob
        } else if self.paused.is_some() {
            Wait::Command
        } else {
            Wait::CommandOrTimer(self.remaining(now))
        }
    }

    /// What a toggle that finds the images `pool` makes of `self`. With no
    /// image nothing changes. Otherwise the current job ends and the coming
    /// jobs are those of the other mode, from its head: the cadence if the
    /// current job has no segment, else the regular rotation, over the
    /// images of the pool in some order.
    pub open spec fn toggled(self, pool: Seq<Seq<char>>, after: WorkerView) -> bool {
        if pool.len() == 0 {
            after == self
        } else {
            &&& after == self.replace_jobs(after.jobs)
            &&& after.jobs.images.to_multiset() == pool.to_multiset()
            &&& after.jobs.pattern == pattern_of(self.pomo_state.is_none(), self.config)
            &&& after.jobs.cursor == 0
            &&& after.jobs.slot == 0
        }
    }

    /// What the user is told when `command` is handled at `now`; `toggles`
    /// says whether a toggle found any image.
    pub open spec fn notice(self, command: ClientCommand, now: Nanos, toggles: bool) -> Option<
        Notice,
    > {
        match command {
            ClientCommand::Pause => if self.paused.is_some() {
                Some(Notice::Resuming)
            } else {
                Some(Notice::Pausing)
            },
            ClientCommand::Toggle => if toggles && self.pomo_state.is_some() {
                Some(Notice::ExitingPomo)
            } else {
                None
            },
            ClientCommand::Time => Some(
                Notice::Remaining {
                    remaining: self.remaining(now),
                    pomo_state: self.pomo_state,
                },
            ),
            ClientCommand::Skip => None,
        }
    }

    /// What handling `command` at `now` makes of `self`, where a toggle
    /// finds the images `pool`.
    pub open spec fn handled(
        self,
        command: ClientCommand,
        now: Nanos,
        pool: Seq<Seq<char>>,
        after: WorkerView,
    ) -> bool {
        match command {
            ClientCommand::Pause => after == self.pause(now),
            ClientCommand::Toggle => self.toggled(pool, after),
            ClientCommand::Time => after == self,
            ClientCommand::Skip => after == self.skip(),
        }
    }
}

/// The scheduler's only mutable state.
pub struct Worker {
    pomo_state: Option<PomoState>,
    start_time: Nanos,
    paused: Option<Nanos>,
    sleep_dur: Nanos,
    job_iterator: JobSequence,
    remain_in_job: bool,
    args: Config,
}

impl View for Worker {
    type V = WorkerView;

    closed spec fn view(&self) -> WorkerView {
        WorkerView {
            pomo_state: self.pomo_state,
            start_time: self.start_time,
            paused: self.paused,
            sleep_dur: self.sleep_dur,
            jobs: self.job_iterator@,
            remain_in_job: self.remain_in_job,
            config: self.args,
        }
    }
}

impl Worker {
    /// Every scheduler is well formed, at all times.
    #[verifier::type_invariant]
    pub open spec fn inv(&self) -> bool {
        self@.wf()
    }

    /// A scheduler that takes its jobs from `jobs` and has not started one
    /// yet.
    pub fn with_jobs(config: Config, jobs: JobSequence) -> (worker: Worker)
        requires
            config.cadence_ready(),
        ensures
            worker@.wf(),
            worker@ == (WorkerView {
                pomo_state: None,
                start_time: 0,
                paused: None,
                sleep_dur: 0,
                jobs: jobs@,
                remain_in_job: false,
                config,
            }),
    {
        proof {
            use_type_invariant(&jobs);
        }
        Worker {
            pomo_state: None,
            start_time: 0,
            paused: None,
            sleep_dur: 0,
            job_iterator: jobs,
            remain_in_job: false,
            args: config,
        }
    }

    /// The scheduler of a daemon at its start: regular rotation over the
    /// images among the entries of `listing`, no job yet. It fails if there
    /// is no image.
    pub fn new(config: Config, listing: &Vec<String>) -> (made: Result<Worker, ScheduleError>)
        requires
            config.cadence_ready(),
        ensures
            match made {
                Ok(worker) => {
                    &&& image_pool(listing.deep_view()).len() > 0
                    &&& worker@.wf()
                    &&& worker@.jobs.images.to_multiset() == image_pool(
                        listing.deep_view(),
                    ).to_multiset()
                    &&& worker@ == (WorkerView {
                        pomo_state: None,
                        start_time: 0,
                        paused: None,
                        sleep_dur: 0,
                        jobs: JobSequenceView::fresh(worker@.jobs.images, regular_pattern(config)),
                        remain_in_job: false,
                        config,
                    })
                },
                Err(error) => {
                    &&& error == ScheduleError::EmptyPool
                    &&& image_pool(listing.deep_view()).len() == 0
                },
            },
    {
        match generate_jobs(false, &config, listing) {
            Ok(jobs) => Ok(Worker::with_jobs(config, jobs)),
            Err(error) => Err(error),
        }
    }

    /// The settings that the scheduler was made with.
    pub fn config(&self) -> (config: &Config)
        ensures
            *config == self@.config,
    {
        &self.args
    }

    /// The segment of the current job.
    pub fn pomo_state(&self) -> (pomo_state: Option<PomoState>)
        ensures
            pomo_state == self@.pomo_state,
    {
        self.pomo_state
    }

    /// Whether the current job is paused.
    pub fn is_paused(&self) -> (paused: bool)
        ensures
            paused == self@.paused.is_some(),
    {
        self.paused.is_some()
    }

    /// Whether the current job is still being held.
    pub fn remain_in_job(&self) -> (remain: bool)
        ensures
            remain == self@.remain_in_job,
    {
        self.remain_in_job
    }

    /// What is left of the current job at `now`.
    pub fn remaining(&self, now: Nanos) -> (left: Nanos)
        ensures
            left == self@.remaining(now),
            left <= self@.sleep_dur,
    {
        proof {
            use_type_invariant(self);
        }
        match self.paused {
            Some(frozen) => frozen,
            None => self.sleep_dur.saturating_sub(now.saturating_sub(self.start_time)),
        }
    }

    /// Ends the current job now.
    pub fn skip(&mut self)
        ensures
            final(self)@.wf(),
            final(self)@ == old(self)@.skip(),
    {
        proof {
            use_type_invariant(&*self);
        }
        self.paused = None;
        self.remain_in_job = false;
    }

    /// Takes the coming jobs from `jobs` and ends the current job.
    pub fn replace_jobs(&mut self, jobs: JobSequence)
        ensures
            final(self)@.wf(),
            final(self)@ == old(self)@.replace_jobs(jobs@),
    {
        proof {
            use_type_invariant(&*self);
            use_type_invariant(&jobs);
        }
        self.job_iterator = jobs;
        self.skip();
    }

    /// Takes the next job from the sequence and makes it the current job,
    /// running from `now`. It returns the job to paint, and the notice of the
    /// segment that it enters, if it has one.
    pub fn start_job(&mut self, now: Nanos) -> (started: (Job, Option<Notice>))
        ensures
            old(self)@.wf(),
            final(self)@.wf(),
            started.0@ == old(self)@.jobs.job_at(0),
            started.1 == Notice::entering_spec(started.0.pomo_state),
            final(self)@ == old(self)@.start_job(now),
    {
        proof {
            use_type_invariant(&*self);
        }
        let job = self.job_iterator.peek();
        self.job_iterator.advance();
        self.paused = None;
        self.pomo_state = job.pomo_state;
        self.sleep_dur = job.sleep_dur;
        self.start_time = now;
        self.remain_in_job = true;
        let notice = Notice::entering(job.pomo_state);
        (job, notice)
    }

    /// Records that the timer of the current job ran out.
    pub fn timer_elapsed(&mut self)
        ensures
            final(self)@.wf(),
            final(self)@ == old(self)@.timer_elapsed(),
    {
        proof {
            use_type_invariant(&*self);
        }
        if self.paused.is_none() {
            self.remain_in_job = false;
        }
    }

    /// What the driver is to wait for at `now`.
    pub fn wait(&self, now: Nanos) -> (wait: Wait)
        ensures
            wait == self@.wait(now),
    {
        if !self.remain_in_job {
            Wait::NextJob
        } else if self.paused.is_some() {
            Wait::Command
        } else {
            Wait::CommandOrTimer(self.remaining(now))
        }
    }

    /// Handles one command at `now` and returns what the user is to be
    /// told. `listing` holds the entries of the wallpaper directory as they
    /// are now; only a toggle reads it.
    pub fn handle_message(
        &mut self,
        msg: ClientCommand,
        now: Nanos,
        listing: &Vec<String>,
    ) -> (notice: Option<Notice>)
        ensures
            old(self)@.wf(),
            final(self)@.wf(),
            old(self)@.handled(msg, now, image_pool(listing.deep_view()), final(self)@),
            notice == old(self)@.notice(
                msg,
                now,
                image_pool(listing.deep_view()).len() > 0,
            ),
    {
        proof {
            use_type_invariant(&*self);
        }
        match msg {
            ClientCommand::Pause => {
                match self.paused {
                    Some(frozen) => {
                        let held: Nanos = self.sleep_dur - frozen;
                        self.start_time = now.saturating_sub(held);
                        self.paused = None;
                        Some(Notice::Resuming)
                    },
                    None => {
                        self.paused = Some(self.remaining(now));
                        Some(Notice::Pausing)
                    },
                }
            },
            ClientCommand::Toggle => {
                match generate_jobs(self.pomo_state.is_none(), &self.args, listing) {
                    Ok(jobs) => {
                        self.replace_jobs(jobs);
                        if self.pomo_state.is_some() {
                            Some(Notice::ExitingPomo)
                        } else {
                            None
                        }
                    },
                    Err(_) => None,
                }
            },
            ClientCommand::Time => {
                Some(
                    Notice::Remaining {
                        remaining: self.remaining(now),
                        pomo_state: self.pomo_state,
                    },
                )
            },
            ClientCommand::Skip => {
                self.skip();
                None
            },
        }
    }
}

/// A job never has more left than its hold, running or paused, whatever the
/// clock says.
pub proof fn lemma_remaining_within_hold(worker: WorkerView, now: Nanos)
    requires
        worker.wf(),
    ensures
        worker.remaining(now) <= worker.sleep_dur,
{
}

/// A job that is paused and resumed at once has as much left as before.
pub proof fn lemma_pause_resume_at_once(worker: WorkerView, now: Nanos)
    requires
        worker.wf(),
        worker.paused.is_none(),
    ensures
        worker.pause(now).pause(now).paused.is_none(),
        worker.pause(now).pause(now).remaining(now) == worker.remaining(now),
{
}

/// Time spent paused does not count: a job that is paused at `now` and
/// resumed `wait` later has, at that moment, what it had left at `now`.
pub proof fn lemma_pause_excludes_wait(worker: WorkerView, now: Nanos, wait: Nanos)
    requires
        worker.wf(),
        worker.paused.is_none(),
        now + wait <= u64::MAX,
    ensures
        worker.pause(now).wf(),
        worker.pause(now).paused == Some(worker.remaining(now)),
        worker.pause(now).pause((now + wait) as Nanos).wf(),
        worker.pause(now).pause((now + wait) as Nanos).paused.is_none(),
        worker.pause(now).pause((now + wait) as Nanos).remaining((now + wait) as Nanos)
            == worker.remaining(now),
{
}

/// A job that began no later than it was paused runs on after the pause as
/// if the pause had not been: at every later moment it has left what it
/// would have had that much earlier without the pause.
pub proof fn lemma_resumed_job_runs_on(worker: WorkerView, now: Nanos, wait: Nanos, later: Nanos)
    requires
        worker.wf(),
        worker.paused.is_none(),
        worker.start_time <= now,
        now + wait <= later,
    ensures
        worker.pause(now).pause((now + wait) as Nanos).remaining(later) == worker.remaining(
            (later - wait) as Nanos,
        ),
{
}

/// While a job is paused the clock does not touch it: whenever the time is
/// asked for, the answer is what was left at the pause.
pub proof fn lemma_paused_time_is_frozen(worker: WorkerView, now: Nanos, later: Nanos)
    requires
        worker.wf(),
        worker.paused.is_none(),
    ensures
        worker.pause(now).remaining(later) == worker.remaining(now),
        worker.pause(now).notice(ClientCommand::Time, later, false) == Some(
            Notice::Remaining {
                remaining: worker.remaining(now),
                pomo_state: worker.pomo_state,
            },
        ),
        worker.pause(now).wait(later) == if worker.remain_in_job {
            Wait::Command
        } else {
            Wait::NextJob
        },
{
}

/// A skip ends a paused job and lifts the pause, and the job that starts
/// next runs: its timer is set to its whole hold.
pub proof fn lemma_skip_lifts_pause(worker: WorkerView, now: Nanos)
    requires
        worker.wf(),
        worker.paused.is_some(),
    ensures
        worker.skip().paused.is_none(),
        worker.skip().wait(now) == Wait::NextJob,
        worker.skip().start_job(now).paused.is_none(),
        worker.skip().start_job(now).wait(now) == Wait::CommandOrTimer(
            worker.jobs.job_at(0).sleep_dur,
        ),
{
}

/// Starting a job keeps the scheduler well formed and leaves it running
/// that job, whatever went before.
pub proof fn lemma_start_job(worker: WorkerView, now: Nanos)
    requires
        worker.wf(),
    ensures
        worker.start_job(now).wf(),
        worker.start_job(now).remaining(now) == worker.jobs.job_at(0).sleep_dur,
        worker.start_job(now).wait(now) == Wait::CommandOrTimer(worker.jobs.job_at(0).sleep_dur),
        worker.start_job(now).timer_elapsed().wait(now) == Wait::NextJob,
{
    lemma_advance(worker.jobs, 1, 0);
}

/// A toggle that finds an image ends the current job and lifts a pause, as
/// a skip does; one that finds none changes nothing.
pub proof fn lemma_toggle_ends_job(worker: WorkerView, pool: Seq<Seq<char>>, after: WorkerView)
    requires
        worker.wf(),
        worker.toggled(pool, after),
    ensures
        pool.len() > 0 ==> after.paused.is_none() && !after.remain_in_job,
        pool.len() > 0 ==> after.pomo_state == worker.pomo_state,
        pool.len() == 0 ==> after == worker,
{
}

/// A toggle out of the regular rotation: the very next job is a work
/// segment, held for the configured minutes of work.
pub proof fn lemma_toggle_enters_cadence(
    worker: WorkerView,
    pool: Seq<Seq<char>>,
    after: WorkerView,
    now: Nanos,
)
    requires
        worker.wf(),
        worker.pomo_state.is_none(),
        pool.len() > 0,
        worker.toggled(pool, after),
    ensures
        after.jobs.job_at(0).pomo_state == Some(PomoState::Work),
        after.start_job(now).pomo_state == Some(PomoState::Work),
        after.start_job(now).sleep_dur == worker.config.work_slot().sleep_dur,
{
    lemma_cadence_pattern_entries(worker.config);
    let lap = pattern_of(true, worker.config);
    assert(lap[0] == worker.config.work_slot());
    lemma_small_mod(0, lap.len());
}

/// A toggle out of the cadence: no job that follows carries a segment, and
/// each is held for the regular interval.
pub proof fn lemma_toggle_leaves_cadence(
    worker: WorkerView,
    pool: Seq<Seq<char>>,
    after: WorkerView,
    k: nat,
)
    requires
        worker.wf(),
        worker.pomo_state.is_some(),
        pool.len() > 0,
        worker.toggled(pool, after),
    ensures
        after.jobs.job_at(k).pomo_state.is_none(),
        after.jobs.job_at(k).sleep_dur == worker.config.regular_slot().sleep_dur,
{
    lemma_mod_bound((after.jobs.slot + k) as int, 1);
}

} // verus!
