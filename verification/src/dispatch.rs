//! The dispatcher: the driving state machine of one load-test run. While the
//! run is `Running` and the cancellation signal is unset, it admits workers
//! up to the configured concurrency; each admitted worker races the rate
//! limiter against cancellation, submits one work item, and records its
//! outcome; once cancellation is observed the run drains the in-flight
//! workers and produces a final summary. The surrounding program performs
//! the waiting, spawning and network submission; every decision and every
//! piece of bookkeeping is made here, one event at a time.

use crate::config::{LoadTestConfig, Rate};
use crate::counters::StatsCounters;
use crate::limiter::{cap_ms, grants, refilled, taken, BucketModel, TokenBucket};
use tokio_util::sync::CancellationToken;
use vstd::prelude::*;

verus! {

/// The dispatcher's phases: admitting new workers, draining in-flight ones
/// after cancellation, or terminal.
#[derive(Clone, Copy, Debug, PartialEq, Eq, Structural)]
pub enum Phase {
    Running,
    Draining,
    Completed,
}

/// The life of one spawned worker. A worker holds a concurrency permit from
/// when it is spawned until it settles (aborts or finishes), and it is
/// counted in `pending` exactly while it is submitting.
#[derive(Clone, Copy, Debug, PartialEq, Eq, Structural)]
pub enum WorkerState {
    /// Spawned, work item built, racing "rate limiter grants a token"
    /// against "cancellation fired".
    RacingToken,
    /// Token taken; the submission call is in flight.
    Submitting,
    /// Cancellation won the race before the submission step: the permit is
    /// released and neither outcome counter is touched.
    Aborted,
    /// The submission finished with the given outcome.
    Finished { succeeded: bool },
}

/// A worker that still holds its concurrency permit.
pub open spec fn is_active(w: WorkerState) -> bool {
    w is RacingToken || w is Submitting
}

/// A worker that reached the submission step (whether still in flight or
/// finished). Workers aborted by cancellation never reach it.
pub open spec fn reached_submission(w: WorkerState) -> bool {
    w is Submitting || w is Finished
}

/// How many states in `s` satisfy `p`.
pub open spec fn count_matching(s: Seq<WorkerState>, p: spec_fn(WorkerState) -> bool) -> int
    decreases s.len(),
{
    if s.len() == 0 {
        0
    } else {
        count_matching(s.drop_last(), p) + (if p(s.last()) {
            1int
        } else {
            0int
        })
    }
}

pub open spec fn active_pred() -> spec_fn(WorkerState) -> bool {
    |w: WorkerState| is_active(w)
}

pub open spec fn submitting_pred() -> spec_fn(WorkerState) -> bool {
    |w: WorkerState| w is Submitting
}

pub open spec fn finished_pred() -> spec_fn(WorkerState) -> bool {
    |w: WorkerState| w is Finished
}

pub open spec fn succeeded_pred() -> spec_fn(WorkerState) -> bool {
    |w: WorkerState| w == (WorkerState::Finished { succeeded: true })
}

pub open spec fn failed_pred() -> spec_fn(WorkerState) -> bool {
    |w: WorkerState| w == (WorkerState::Finished { succeeded: false })
}

pub open spec fn reached_pred() -> spec_fn(WorkerState) -> bool {
    |w: WorkerState| reached_submission(w)
}

pub open spec fn count_active(s: Seq<WorkerState>) -> int {
    count_matching(s, active_pred())
}

pub open spec fn count_submitting(s: Seq<WorkerState>) -> int {
    count_matching(s, submitting_pred())
}

pub open spec fn count_finished(s: Seq<WorkerState>) -> int {
    count_matching(s, finished_pred())
}

pub open spec fn count_succeeded(s: Seq<WorkerState>) -> int {
    count_matching(s, succeeded_pred())
}

pub open spec fn count_failed(s: Seq<WorkerState>) -> int {
    count_matching(s, failed_pred())
}

pub open spec fn count_reached(s: Seq<WorkerState>) -> int {
    count_matching(s, reached_pred())
}

pub proof fn lemma_count_bounds(s: Seq<WorkerState>, p: spec_fn(WorkerState) -> bool)
    ensures
        0 <= count_matching(s, p) <= s.len(),
    decreases s.len(),
{
    if s.len() > 0 {
        lemma_count_bounds(s.drop_last(), p);
    }
}

pub proof fn lemma_count_push(s: Seq<WorkerState>, p: spec_fn(WorkerState) -> bool, w: WorkerState)
    ensures
        count_matching(s.push(w), p) == count_matching(s, p) + (if p(w) {
            1int
        } else {
            0int
        }),
{
    assert(s.push(w).drop_last() =~= s);
    assert(s.push(w).last() == w);
}

pub proof fn lemma_count_update(
    s: Seq<WorkerState>,
    p: spec_fn(WorkerState) -> bool,
    i: int,
    w: WorkerState,
)
    requires
        0 <= i < s.len(),
    ensures
        count_matching(s.update(i, w), p) == count_matching(s, p) - (if p(s[i]) {
            1int
        } else {
            0int
        }) + (if p(w) {
            1int
        } else {
            0int
        }),
    decreases s.len(),
{
    let su = s.update(i, w);
    if i == s.len() - 1 {
        assert(su.drop_last() =~= s.drop_last());
        assert(su.last() == w);
    } else {
        assert(su.drop_last() =~= s.drop_last().update(i, w));
        assert(su.last() == s.last());
        lemma_count_update(s.drop_last(), p, i, w);
    }
}

pub proof fn lemma_count_le(
    s: Seq<WorkerState>,
    p: spec_fn(WorkerState) -> bool,
    q: spec_fn(WorkerState) -> bool,
)
    requires
        forall|w: WorkerState| #[trigger] p(w) ==> q(w),
    ensures
        count_matching(s, p) <= count_matching(s, q),
    decreases s.len(),
{
    if s.len() > 0 {
        lemma_count_le(s.drop_last(), p, q);
    }
}

/// Splitting a count over a predicate that is the disjoint union of two
/// others: finished workers are exactly the succeeded plus the failed ones.
pub proof fn lemma_count_outcome_split(s: Seq<WorkerState>)
    ensures
        count_finished(s) == count_succeeded(s) + count_failed(s),
    decreases s.len(),
{
    if s.len() > 0 {
        lemma_count_outcome_split(s.drop_last());
        assert(count_finished(s.drop_last()) == count_succeeded(s.drop_last()) + count_failed(
            s.drop_last(),
        ));
    }
}

/// A count is zero exactly when no element satisfies the predicate.
pub proof fn lemma_count_zero(s: Seq<WorkerState>, p: spec_fn(WorkerState) -> bool)
    requires
        forall|i: int| 0 <= i < s.len() ==> !p(#[trigger] s[i]),
    ensures
        count_matching(s, p) == 0,
    decreases s.len(),
{
    if s.len() > 0 {
        assert(forall|i: int| 0 <= i < s.drop_last().len() ==> !p(#[trigger] s.drop_last()[i]));
        lemma_count_zero(s.drop_last(), p);
        assert(!p(s.last()));
    }
}

/// An element satisfying the predicate makes the count positive.
pub proof fn lemma_count_pos(s: Seq<WorkerState>, p: spec_fn(WorkerState) -> bool, i: int)
    requires
        0 <= i < s.len(),
        p(s[i]),
    ensures
        count_matching(s, p) >= 1,
    decreases s.len(),
{
    if i == s.len() - 1 {
        lemma_count_bounds(s.drop_last(), p);
    } else {
        lemma_count_pos(s.drop_last(), p, i);
    }
}

/// An element not satisfying the predicate keeps the count below the length.
pub proof fn lemma_count_lt(s: Seq<WorkerState>, p: spec_fn(WorkerState) -> bool, i: int)
    requires
        0 <= i < s.len(),
        !p(s[i]),
    ensures
        count_matching(s, p) <= s.len() - 1,
    decreases s.len(),
{
    if i == s.len() - 1 {
        lemma_count_bounds(s.drop_last(), p);
    } else {
        lemma_count_lt(s.drop_last(), p, i);
        lemma_count_bounds(s, p);
    }
}

/// Only workers inside the submission step hold `pending`, and every such
/// worker still holds its permit.
pub proof fn lemma_submitting_le_active(s: Seq<WorkerState>)
    ensures
        count_submitting(s) <= count_active(s),
{
    assert(forall|w: WorkerState| #[trigger] submitting_pred()(w) ==> active_pred()(w));
    lemma_count_le(s, submitting_pred(), active_pred());
}

/// Workers that reached the submission step are exactly those still in it
/// plus those that finished.
pub proof fn lemma_count_reached_split(s: Seq<WorkerState>)
    ensures
        count_reached(s) == count_submitting(s) + count_finished(s),
    decreases s.len(),
{
    if s.len() > 0 {
        lemma_count_reached_split(s.drop_last());
    }
}

/// The dispatcher's decision of whether a worker just granted a token or a
/// cancellation outcome happened; tells the surrounding program what to do
/// next with a worker that was racing the rate limiter.
#[derive(Clone, Copy, Debug, PartialEq, Eq, Structural)]
pub enum TokenWait {
    /// A token was granted: the worker proceeds to submit its work item.
    Granted,
    /// No token yet: the worker keeps waiting and asks again.
    NotReady,
    /// Cancellation won the race: the worker released its permit and exited
    /// without touching the outcome counters.
    Aborted,
}

/// Snapshot logged at roughly one-second cadence while the run progresses.
#[derive(Clone, Copy, Debug, PartialEq, Eq, Structural)]
pub struct ProgressReport {
    pub elapsed_s: u64,
    pub pending: u64,
    pub succeeded: u64,
    pub failed: u64,
}

/// The final accounting of a completed run.
#[derive(Clone, Copy, Debug, PartialEq, Eq, Structural)]
pub struct RunSummary {
    pub attempted: u64,
    pub succeeded: u64,
    pub failed: u64,
    pub elapsed_ms: u64,
}

/// Spec-level state of one run: what the engine's fields mean.
pub struct RunModel {
    pub config: LoadTestConfig,
    pub phase: Phase,
    pub cancel_observed: bool,
    pub bucket: Option<BucketModel>,
    pub workers: Seq<WorkerState>,
    pub active: int,
    pub pending: int,
    pub succeeded: int,
    pub failed: int,
    pub start_ms: int,
    pub last_report_s: int,
}

/// The engine of one load-test run. It owns the run's whole state — phase,
/// rate-limiter bucket, worker records, counters and the shared cancellation
/// token — and advances it one event at a time. The surrounding program
/// performs the actual waiting, task spawning and network submission, and
/// reports each event back here.
pub struct LoadRun {
    config: LoadTestConfig,
    phase: Phase,
    cancel: CancellationToken,
    cancel_observed: bool,
    limiter: Option<TokenBucket>,
    workers: Vec<WorkerState>,
    active: u16,
    counters: StatsCounters,
    start_ms: u64,
    last_report_s: u64,
}

impl View for LoadRun {
    type V = RunModel;

    closed spec fn view(&self) -> RunModel {
        RunModel {
            config: self.config,
            phase: self.phase,
            cancel_observed: self.cancel_observed,
            bucket: match self.limiter {
                Some(b) => Some(b@),
                None => None,
            },
            workers: self.workers@,
            active: self.active as int,
            pending: self.counters.pending as int,
            succeeded: self.counters.succeeded as int,
            failed: self.counters.failed as int,
            start_ms: self.start_ms as int,
            last_report_s: self.last_report_s as int,
        }
    }
}

impl LoadRun {
    /// The run's standing invariant: the counters mean what they say about
    /// the worker records, no more permits are out than the configured
    /// concurrency, the phase tracks the observation of cancellation, and
    /// the bucket implements the configured rate.
    pub open spec fn wf(self) -> bool {
        let m = self@;
        &&& m.config.wf()
        &&& m.workers.len() <= u64::MAX
        &&& m.active == count_active(m.workers)
        &&& m.active <= m.config.concurrency
        &&& m.pending == count_submitting(m.workers)
        &&& m.succeeded == count_succeeded(m.workers)
        &&& m.failed == count_failed(m.workers)
        &&& (m.phase is Running <==> !m.cancel_observed)
        &&& (m.phase is Completed ==> count_active(m.workers) == 0)
        &&& match (m.config.rate, m.bucket) {
            (Rate::Unbounded, Option::None) => true,
            (Rate::PerSecond(r), Option::Some(b)) => {
                &&& b.wf()
                &&& b.rate == r
                &&& m.start_ms <= b.last_ms
                // Rate conservation: every worker that reached the
                // submission step consumed one token, and tokens granted
                // plus tokens stored never exceed the initial burst plus
                // the refill over the elapsed time.
                &&& 1000 * count_reached(m.workers) + b.tokens_ms <= cap_ms(b.rate) + b.rate * (
                b.last_ms - m.start_ms)
            },
            _ => false,
        }
    }

    /// The earliest clock reading the run accepts next: its clock never runs
    /// backwards.
    pub open spec fn clock_floor(self) -> int {
        match self@.bucket {
            Some(b) => b.last_ms,
            None => self@.start_ms,
        }
    }

    /// Begin a run: phase `Running`, no workers, zeroed counters, a fresh
    /// (unset) cancellation token, and a full token bucket when the rate is
    /// bounded.
    pub fn start(config: LoadTestConfig, now_ms: u64) -> (r: LoadRun)
        requires
            config.wf(),
        ensures
            r.wf(),
            r@.config == config,
            r@.phase is Running,
            !r@.cancel_observed,
            r@.workers.len() == 0,
            r@.active == 0,
            r@.pending == 0,
            r@.succeeded == 0,
            r@.failed == 0,
            r@.start_ms == now_ms,
            r@.last_report_s == 0,
            match config.rate {
                Rate::Unbounded => r@.bucket is None,
                Rate::PerSecond(rt) => r@.bucket == Some(
                    BucketModel {
                        rate: rt as int,
                        tokens_ms: cap_ms(rt as int),
                        last_ms: now_ms as int,
                    },
                ),
            },
    {
        let limiter = match config.rate {
            Rate::Unbounded => None,
            Rate::PerSecond(rt) => Some(TokenBucket::new(rt, now_ms)),
        };
        let r = LoadRun {
            config,
            phase: Phase::Running,
            cancel: CancellationToken::new(),
            cancel_observed: false,
            limiter,
            workers: Vec::new(),
            active: 0,
            counters: StatsCounters::new(),
            start_ms: now_ms,
            last_report_s: 0,
        };
        proof {
            assert(r@.workers =~= Seq::<WorkerState>::empty());
        }
        r
    }

    /// A handle on the run's cancellation signal, for the timer task and for
    /// workers that race their waits against it.
    pub fn cancellation_handle(&self) -> CancellationToken {
        self.cancel.clone()
    }

    /// Request the end of the run: set the shared one-shot signal. Safe to
    /// call from any task and idempotent — setting it twice has no further
    /// effect.
    pub fn request_cancel(&self) {
        self.cancel.cancel();
    }

    /// The dispatcher's loop condition: read the shared cancellation flag,
    /// and on the first set reading stop admitting workers and move to
    /// `Draining`. The flag is set by other tasks, so the result is not
    /// determined by the run's own state; whichever way it comes back, the
    /// transition below is all that happens.
    pub fn poll_cancel(&mut self) -> (r: bool)
        requires
            old(self).wf(),
        ensures
            final(self).wf(),
            final(self)@.config == old(self)@.config,
            final(self)@.workers == old(self)@.workers,
            final(self)@.active == old(self)@.active,
            final(self)@.pending == old(self)@.pending,
            final(self)@.succeeded == old(self)@.succeeded,
            final(self)@.failed == old(self)@.failed,
            final(self)@.bucket == old(self)@.bucket,
            final(self)@.start_ms == old(self)@.start_ms,
            final(self)@.last_report_s == old(self)@.last_report_s,
            final(self)@.cancel_observed == (old(self)@.cancel_observed || r),
            final(self)@.phase == (if r && old(self)@.phase is Running {
                Phase::Draining
            } else {
                old(self)@.phase
            }),
            !r ==> final(self)@ == old(self)@,
    {
        if self.cancel.is_cancelled() {
            match self.phase {
                Phase::Running => {
                    self.phase = Phase::Draining;
                },
                _ => {},
            }
            self.cancel_observed = true;
            true
        } else {
            false
        }
    }

    /// Admit one worker if the run is still `Running` and a concurrency
    /// permit is free. A spawn happens only before cancellation has been
    /// observed; after it, or at full capacity, nothing changes and the
    /// caller waits or drains.
    pub fn try_spawn(&mut self) -> (r: Option<usize>)
        requires
            old(self).wf(),
        ensures
            final(self).wf(),
            final(self)@.config == old(self)@.config,
            final(self)@.phase == old(self)@.phase,
            final(self)@.cancel_observed == old(self)@.cancel_observed,
            final(self)@.bucket == old(self)@.bucket,
            final(self)@.pending == old(self)@.pending,
            final(self)@.succeeded == old(self)@.succeeded,
            final(self)@.failed == old(self)@.failed,
            final(self)@.start_ms == old(self)@.start_ms,
            final(self)@.last_report_s == old(self)@.last_report_s,
            match r {
                Some(id) => {
                    &&& old(self)@.phase is Running
                    &&& !old(self)@.cancel_observed
                    &&& old(self)@.active < old(self)@.config.concurrency
                    &&& id == old(self)@.workers.len()
                    &&& final(self)@.workers == old(self)@.workers.push(WorkerState::RacingToken)
                    &&& final(self)@.active == old(self)@.active + 1
                },
                None => {
                    &&& final(self)@ == old(self)@
                    &&& {
                        ||| !(old(self)@.phase is Running)
                        ||| old(self)@.active == old(self)@.config.concurrency
                        ||| old(self)@.workers.len() >= usize::MAX
                    }
                },
            },
    {
        match self.phase {
            Phase::Running => {
                if self.active < self.config.concurrency && self.workers.len() < usize::MAX {
                    let id = self.workers.len();
                    proof {
                        let s = self.workers@;
                        lemma_count_push(s, active_pred(), WorkerState::RacingToken);
                        lemma_count_push(s, submitting_pred(), WorkerState::RacingToken);
                        lemma_count_push(s, succeeded_pred(), WorkerState::RacingToken);
                        lemma_count_push(s, failed_pred(), WorkerState::RacingToken);
                        lemma_count_push(s, reached_pred(), WorkerState::RacingToken);
                    }
                    self.workers.push(WorkerState::RacingToken);
                    self.active = self.active + 1;
                    Some(id)
                } else {
                    None
                }
            },
            _ => None,
        }
    }

    /// One step of a worker's race between "the rate limiter grants a token"
    /// and "cancellation fired", with the preference given to cancellation
    /// when both are ready. On `Aborted` the worker's permit is released and
    /// no counter is touched; on `Granted` the worker enters the submission
    /// step and `pending` grows by one; on `NotReady` (bounded rate only,
    /// the refilled bucket holds no whole token) the worker asks again.
    pub fn worker_poll_token(&mut self, id: usize, now_ms: u64) -> (r: TokenWait)
        requires
            old(self).wf(),
            id < old(self)@.workers.len(),
            old(self)@.workers[id as int] is RacingToken,
            old(self).clock_floor() <= now_ms,
        ensures
            final(self).wf(),
            final(self)@.config == old(self)@.config,
            final(self)@.phase == old(self)@.phase,
            final(self)@.cancel_observed == old(self)@.cancel_observed,
            final(self)@.start_ms == old(self)@.start_ms,
            final(self)@.last_report_s == old(self)@.last_report_s,
            final(self)@.succeeded == old(self)@.succeeded,
            final(self)@.failed == old(self)@.failed,
            final(self)@.workers.len() == old(self)@.workers.len(),
            match r {
                TokenWait::Aborted => {
                    &&& final(self)@.workers == old(self)@.workers.update(
                        id as int,
                        WorkerState::Aborted,
                    )
                    &&& final(self)@.active == old(self)@.active - 1
                    &&& final(self)@.pending == old(self)@.pending
                    &&& final(self)@.bucket == old(self)@.bucket
                },
                TokenWait::Granted => {
                    &&& final(self)@.workers == old(self)@.workers.update(
                        id as int,
                        WorkerState::Submitting,
                    )
                    &&& final(self)@.active == old(self)@.active
                    &&& final(self)@.pending == old(self)@.pending + 1
                    &&& match old(self)@.bucket {
                        Option::None => final(self)@.bucket is None,
                        Option::Some(b) => {
                            &&& grants(refilled(b, now_ms as int))
                            &&& final(self)@.bucket == Some(taken(refilled(b, now_ms as int)))
                        },
                    }
                },
                TokenWait::NotReady => {
                    &&& final(self)@.workers == old(self)@.workers
                    &&& final(self)@.active == old(self)@.active
                    &&& final(self)@.pending == old(self)@.pending
                    &&& match old(self)@.bucket {
                        Option::None => false,
                        Option::Some(b) => {
                            &&& !grants(refilled(b, now_ms as int))
                            &&& final(self)@.bucket == Some(refilled(b, now_ms as int))
                        },
                    }
                },
            },
    {
        if self.cancel.is_cancelled() {
            proof {
                let s = self.workers@;
                lemma_count_pos(s, active_pred(), id as int);
                lemma_count_update(s, active_pred(), id as int, WorkerState::Aborted);
                lemma_count_update(s, submitting_pred(), id as int, WorkerState::Aborted);
                lemma_count_update(s, succeeded_pred(), id as int, WorkerState::Aborted);
                lemma_count_update(s, failed_pred(), id as int, WorkerState::Aborted);
                lemma_count_update(s, reached_pred(), id as int, WorkerState::Aborted);
            }
            self.workers.set(id, WorkerState::Aborted);
            self.active = self.active - 1;
            TokenWait::Aborted
        } else {
            let granted: bool;
            match &mut self.limiter {
                None => {
                    granted = true;
                },
                Some(b) => {
                    b.refill(now_ms);
                    granted = b.try_take();
                },
            }
            proof {
                // The refill stays within the rate-conservation budget:
                // splitting the elapsed time at the old refill point.
                match old(self)@.bucket {
                    Option::Some(b) => {
                        let t0 = old(self)@.start_ms;
                        let now = now_ms as int;
                        assert(b.rate * (now - b.last_ms) + b.rate * (b.last_ms - t0) == b.rate * (
                        now - t0)) by (nonlinear_arith);
                    },
                    Option::None => {},
                }
            }
            if granted {
                proof {
                    let s = self.workers@;
                    lemma_count_update(s, active_pred(), id as int, WorkerState::Submitting);
                    lemma_count_update(s, submitting_pred(), id as int, WorkerState::Submitting);
                    lemma_count_update(s, succeeded_pred(), id as int, WorkerState::Submitting);
                    lemma_count_update(s, failed_pred(), id as int, WorkerState::Submitting);
                    lemma_count_update(s, reached_pred(), id as int, WorkerState::Submitting);
                    lemma_submitting_le_active(s.update(id as int, WorkerState::Submitting));
                }
                self.workers.set(id, WorkerState::Submitting);
                self.counters.inc_pending();
                TokenWait::Granted
            } else {
                TokenWait::NotReady
            }
        }
    }

    /// A worker gave up before the submission step — its work item could not
    /// be built, a fatal per-worker condition. The failure is isolated: the
    /// permit comes back, no counter is touched, the rest of the run is
    /// unaffected, and the run can still drain.
    pub fn worker_abandon(&mut self, id: usize)
        requires
            old(self).wf(),
            id < old(self)@.workers.len(),
            old(self)@.workers[id as int] is RacingToken,
        ensures
            final(self).wf(),
            final(self)@.config == old(self)@.config,
            final(self)@.phase == old(self)@.phase,
            final(self)@.cancel_observed == old(self)@.cancel_observed,
            final(self)@.bucket == old(self)@.bucket,
            final(self)@.start_ms == old(self)@.start_ms,
            final(self)@.last_report_s == old(self)@.last_report_s,
            final(self)@.workers == old(self)@.workers.update(id as int, WorkerState::Aborted),
            final(self)@.active == old(self)@.active - 1,
            final(self)@.pending == old(self)@.pending,
            final(self)@.succeeded == old(self)@.succeeded,
            final(self)@.failed == old(self)@.failed,
    {
        proof {
            let s = self.workers@;
            lemma_count_pos(s, active_pred(), id as int);
            lemma_count_update(s, active_pred(), id as int, WorkerState::Aborted);
            lemma_count_update(s, submitting_pred(), id as int, WorkerState::Aborted);
            lemma_count_update(s, succeeded_pred(), id as int, WorkerState::Aborted);
            lemma_count_update(s, failed_pred(), id as int, WorkerState::Aborted);
            lemma_count_update(s, reached_pred(), id as int, WorkerState::Aborted);
        }
        self.workers.set(id, WorkerState::Aborted);
        self.active = self.active - 1;
    }

    /// A worker's submission came back: leave the in-flight set, record the
    /// outcome, and release the permit — the last action, so no successor
    /// can use the freed capacity before this worker's bookkeeping is done.
    pub fn worker_finish(&mut self, id: usize, success: bool)
        requires
            old(self).wf(),
            id < old(self)@.workers.len(),
            old(self)@.workers[id as int] is Submitting,
        ensures
            final(self).wf(),
            final(self)@.config == old(self)@.config,
            final(self)@.phase == old(self)@.phase,
            final(self)@.cancel_observed == old(self)@.cancel_observed,
            final(self)@.bucket == old(self)@.bucket,
            final(self)@.start_ms == old(self)@.start_ms,
            final(self)@.last_report_s == old(self)@.last_report_s,
            final(self)@.workers == old(self)@.workers.update(
                id as int,
                (WorkerState::Finished { succeeded: success }),
            ),
            final(self)@.active == old(self)@.active - 1,
            final(self)@.pending == old(self)@.pending - 1,
            final(self)@.succeeded == old(self)@.succeeded + (if success {
                1int
            } else {
                0int
            }),
            final(self)@.failed == old(self)@.failed + (if success {
                0int
            } else {
                1int
            }),
    {
        let outcome = WorkerState::Finished { succeeded: success };
        proof {
            let s = self.workers@;
            lemma_count_pos(s, active_pred(), id as int);
            lemma_count_pos(s, submitting_pred(), id as int);
            lemma_count_lt(s, succeeded_pred(), id as int);
            lemma_count_lt(s, failed_pred(), id as int);
            lemma_count_bounds(s, succeeded_pred());
            lemma_count_bounds(s, failed_pred());
            lemma_count_update(s, active_pred(), id as int, outcome);
            lemma_count_update(s, submitting_pred(), id as int, outcome);
            lemma_count_update(s, succeeded_pred(), id as int, outcome);
            lemma_count_update(s, failed_pred(), id as int, outcome);
            lemma_count_update(s, reached_pred(), id as int, outcome);
        }
        self.workers.set(id, outcome);
        self.counters.dec_pending();
        if success {
            self.counters.inc_succeeded();
        } else {
            self.counters.inc_failed();
        }
        self.active = self.active - 1;
    }

    /// Opportunistic progress report, best effort and at most one per
    /// elapsed-second value: when the current elapsed second differs from
    /// the last reported one, snapshot the counters and move the marker.
    pub fn maybe_report(&mut self, now_ms: u64) -> (r: Option<ProgressReport>)
        requires
            old(self).wf(),
            old(self)@.start_ms <= now_ms,
        ensures
            final(self).wf(),
            final(self)@.config == old(self)@.config,
            final(self)@.phase == old(self)@.phase,
            final(self)@.cancel_observed == old(self)@.cancel_observed,
            final(self)@.bucket == old(self)@.bucket,
            final(self)@.workers == old(self)@.workers,
            final(self)@.active == old(self)@.active,
            final(self)@.pending == old(self)@.pending,
            final(self)@.succeeded == old(self)@.succeeded,
            final(self)@.failed == old(self)@.failed,
            final(self)@.start_ms == old(self)@.start_ms,
            match r {
                Some(p) => {
                    &&& (now_ms - old(self)@.start_ms) / 1000 != old(self)@.last_report_s
                    &&& p.elapsed_s == (now_ms - old(self)@.start_ms) / 1000
                    &&& p.pending == old(self)@.pending
                    &&& p.succeeded == old(self)@.succeeded
                    &&& p.failed == old(self)@.failed
                    &&& final(self)@.last_report_s == p.elapsed_s
                },
                None => {
                    &&& (now_ms - old(self)@.start_ms) / 1000 == old(self)@.last_report_s
                    &&& final(self)@ == old(self)@
                },
            },
    {
        let elapsed_s: u64 = (now_ms - self.start_ms) / 1000;
        if elapsed_s != self.last_report_s {
            self.last_report_s = elapsed_s;
            Some(
                ProgressReport {
                    elapsed_s,
                    pending: self.counters.pending,
                    succeeded: self.counters.succeeded,
                    failed: self.counters.failed,
                },
            )
        } else {
            None
        }
    }

    /// Close the run once it is draining and the last worker has settled:
    /// the terminal transition, producing the final summary. The summary's
    /// `attempted` equals both `succeeded + failed` and the number of
    /// workers that reached the submission step.
    pub fn try_complete(&mut self, now_ms: u64) -> (r: Option<RunSummary>)
        requires
            old(self).wf(),
            old(self)@.start_ms <= now_ms,
        ensures
            final(self).wf(),
            final(self)@.config == old(self)@.config,
            final(self)@.cancel_observed == old(self)@.cancel_observed,
            final(self)@.bucket == old(self)@.bucket,
            final(self)@.workers == old(self)@.workers,
            final(self)@.active == old(self)@.active,
            final(self)@.pending == old(self)@.pending,
            final(self)@.succeeded == old(self)@.succeeded,
            final(self)@.failed == old(self)@.failed,
            final(self)@.start_ms == old(self)@.start_ms,
            final(self)@.last_report_s == old(self)@.last_report_s,
            match r {
                Some(s) => {
                    &&& old(self)@.phase is Draining
                    &&& count_active(old(self)@.workers) == 0
                    &&& final(self)@.phase is Completed
                    &&& s.succeeded == old(self)@.succeeded
                    &&& s.failed == old(self)@.failed
                    &&& s.attempted == old(self)@.succeeded + old(self)@.failed
                    &&& s.attempted == count_reached(old(self)@.workers)
                    &&& s.elapsed_ms == now_ms - old(self)@.start_ms
                },
                None => {
                    &&& final(self)@ == old(self)@
                    &&& !(old(self)@.phase is Draining && count_active(old(self)@.workers) == 0)
                },
            },
    {
        match self.phase {
            Phase::Draining => {
                if self.active == 0 {
                    proof {
                        let s = self.workers@;
                        lemma_count_outcome_split(s);
                        lemma_count_reached_split(s);
                        lemma_submitting_le_active(s);
                        lemma_count_bounds(s, submitting_pred());
                        lemma_count_bounds(s, finished_pred());
                    }
                    self.phase = Phase::Completed;
                    let attempted = self.counters.succeeded + self.counters.failed;
                    Some(
                        RunSummary {
                            attempted,
                            succeeded: self.counters.succeeded,
                            failed: self.counters.failed,
                            elapsed_ms: now_ms - self.start_ms,
                        },
                    )
                } else {
                    None
                }
            },
            _ => None,
        }
    }

    pub fn pending_count(&self) -> (r: u64)
        ensures
            r == self@.pending,
    {
        self.counters.pending
    }

    pub fn succeeded_count(&self) -> (r: u64)
        ensures
            r == self@.succeeded,
    {
        self.counters.succeeded
    }

    pub fn failed_count(&self) -> (r: u64)
        ensures
            r == self@.failed,
    {
        self.counters.failed
    }

    pub fn spawned_count(&self) -> (r: usize)
        ensures
            r == self@.workers.len(),
    {
        self.workers.len()
    }

    /// Where worker `id` stands in its life cycle; lets a caller check a
    /// worker's state before reporting an event for it.
    pub fn worker_state(&self, id: usize) -> (r: WorkerState)
        requires
            id < self@.workers.len(),
        ensures
            r == self@.workers[id as int],
    {
        self.workers[id]
    }

    pub fn active_count(&self) -> (r: u16)
        ensures
            r == self@.active,
    {
        self.active
    }

    pub fn phase(&self) -> (r: Phase)
        ensures
            r == self@.phase,
    {
        self.phase
    }

    pub fn config(&self) -> (r: LoadTestConfig)
        ensures
            r == self@.config,
    {
        self.config
    }
}

/// Observed throughput for the final summary, in thousandths of a request
/// per second, computed exactly in integers; rendering stays with the
/// caller. `None` when no time elapsed, or when the value does not fit.
/// Permit law: at every instant of a well-formed run, the number of
/// unreleased permits — workers spawned and not yet settled — is at least
/// zero and at most the configured concurrency.
pub proof fn law_permits_bounded(r: LoadRun)
    requires
        r.wf(),
    ensures
        0 <= count_active(r@.workers) <= r@.config.concurrency,
{
    lemma_count_bounds(r@.workers, active_pred());
}

/// Pending law: `pending` counts exactly the workers inside the submission
/// step, so it is never negative.
pub proof fn law_pending_nonnegative(r: LoadRun)
    requires
        r.wf(),
    ensures
        r@.pending >= 0,
{
    lemma_count_bounds(r@.workers, submitting_pred());
}

/// Drain law: once every spawned worker has settled — none still holds its
/// permit — `pending` has returned to zero.
pub proof fn law_pending_zero_when_settled(r: LoadRun)
    requires
        r.wf(),
        forall|i: int| 0 <= i < r@.workers.len() ==> !is_active(#[trigger] r@.workers[i]),
    ensures
        r@.pending == 0,
{
    assert(forall|i: int| 0 <= i < r@.workers.len() ==> !submitting_pred()(
        #[trigger] r@.workers[i],
    ));
    lemma_count_zero(r@.workers, submitting_pred());
}

/// Outcome accounting law: once every spawned worker has settled,
/// `succeeded + failed` equals the number of workers that reached the
/// submission step; workers aborted by cancellation before submitting are
/// counted in neither.
pub proof fn law_outcome_accounting(r: LoadRun)
    requires
        r.wf(),
        forall|i: int| 0 <= i < r@.workers.len() ==> !is_active(#[trigger] r@.workers[i]),
    ensures
        r@.succeeded + r@.failed == count_reached(r@.workers),
{
    lemma_count_outcome_split(r@.workers);
    lemma_count_reached_split(r@.workers);
    assert(forall|i: int| 0 <= i < r@.workers.len() ==> !submitting_pred()(
        #[trigger] r@.workers[i],
    ));
    lemma_count_zero(r@.workers, submitting_pred());
}

/// Rate law: with a bounded rate, every worker that reached the submission
/// step consumed one rate-limiter token, so at every instant the number of
/// workers that reached it is at most the configured rate times the elapsed
/// time plus one burst (one extra second's worth).
pub proof fn law_rate_limits_submissions(r: LoadRun)
    requires
        r.wf(),
    ensures
        match r@.bucket {
            Some(b) => 1000 * count_reached(r@.workers) <= b.rate * (b.last_ms - r@.start_ms)
                + 1000 * b.rate,
            None => true,
        },
{
}

/// Serial-submission law: with concurrency one, at most one worker is inside
/// the submission step at any instant, so submission calls never overlap.
pub proof fn law_serial_submission(r: LoadRun)
    requires
        r.wf(),
        r@.config.concurrency == 1,
    ensures
        count_submitting(r@.workers) <= 1,
{
    lemma_submitting_le_active(r@.workers);
}

/// Observed throughput for the final summary, in thousandths of a request
/// per second, computed exactly in integers; rendering stays with the
/// caller. `None` when no time elapsed, or when the value does not fit.
pub fn throughput_milli_per_sec(attempted: u64, elapsed_ms: u64) -> (r: Option<u64>)
    ensures
        match r {
            Some(v) => elapsed_ms > 0 && v == attempted * 1000000 / (elapsed_ms as int),
            None => elapsed_ms == 0 || attempted * 1000000 / (elapsed_ms as int) > u64::MAX,
        },
{
    if elapsed_ms == 0 {
        return None;
    }
    let wide: u128 = (attempted as u128) * 1000000;
    let q: u128 = wide / (elapsed_ms as u128);
    if q <= (u64::MAX as u128) {
        Some(q as u64)
    } else {
        None
    }
}

} // verus!
