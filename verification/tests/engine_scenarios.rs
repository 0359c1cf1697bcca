//! End-to-end scenarios driving one run of the engine deterministically:
//! the dispatcher admits workers, workers race the rate limiter against
//! cancellation, outcomes are recorded, and the run drains to a summary.

use load_engine::config::LoadTestConfig;
use load_engine::dispatch::{LoadRun, Phase, TokenWait};

/// Admit one worker, drive it through the token race to a finished outcome
/// at clock reading `now_ms`. Panics if a token is not granted immediately.
fn run_one_instant_worker(run: &mut LoadRun, now_ms: u64, success: bool) {
    let id = run.try_spawn().expect("expected capacity for a worker");
    match run.worker_poll_token(id, now_ms) {
        TokenWait::Granted => {}
        other => panic!("expected an instant token grant, got {:?}", other),
    }
    run.worker_finish(id, success);
}

#[test]
fn unbounded_run_all_succeed_drains_cleanly() {
    // concurrency 5, duration 2 s, unbounded rate, instant successes:
    // attempted == succeeded, failed == 0.
    let cfg = LoadTestConfig::new(5, 2000, 0).expect("valid configuration");
    let mut run = LoadRun::start(cfg, 0);
    let mut now_ms: u64 = 0;
    while now_ms < 2000 {
        assert!(!run.poll_cancel(), "no one has requested cancellation yet");
        run_one_instant_worker(&mut run, now_ms, true);
        now_ms += 100;
    }
    // The timer fires at the configured duration.
    run.request_cancel();
    assert!(run.poll_cancel(), "the dispatcher observes the set signal");
    assert_eq!(run.phase(), Phase::Draining);
    // No new worker is admitted after cancellation was observed.
    assert!(run.try_spawn().is_none());
    assert_eq!(run.pending_count(), 0, "all workers settled");
    let summary = run.try_complete(2000).expect("a drained run completes");
    assert_eq!(run.phase(), Phase::Completed);
    assert!(summary.succeeded > 0);
    assert_eq!(summary.failed, 0);
    assert_eq!(summary.attempted, summary.succeeded);
    assert_eq!(summary.succeeded, 20);
    assert_eq!(summary.elapsed_ms, 2000);
}

#[test]
fn bounded_rate_caps_attempted_within_one_burst() {
    // concurrency 3, duration 1 s, rate 2/s: the full bucket grants two
    // tokens at once, one more refills within the second; attempted stays
    // near rate * duration, within one burst.
    let cfg = LoadTestConfig::new(3, 1000, 2).expect("valid configuration");
    let mut run = LoadRun::start(cfg, 0);
    run_one_instant_worker(&mut run, 0, true);
    run_one_instant_worker(&mut run, 0, true);
    // The burst is exhausted: a third worker has to wait for the refill.
    let w = run.try_spawn().expect("capacity is free");
    assert_eq!(run.worker_poll_token(w, 0), TokenWait::NotReady);
    assert_eq!(run.worker_poll_token(w, 499), TokenWait::NotReady);
    assert_eq!(run.worker_poll_token(w, 500), TokenWait::Granted);
    run.worker_finish(w, true);
    run.request_cancel();
    assert!(run.poll_cancel());
    let summary = run.try_complete(1000).expect("a drained run completes");
    assert_eq!(summary.attempted, 3);
    // Within one burst of rate * duration: 2 * 1 s + burst 2.
    assert!(summary.attempted <= 4);
}

#[test]
fn failing_submissions_count_as_failed_and_run_completes() {
    // Every submission fails: succeeded == 0, failed == attempted > 0, the
    // run still drains cleanly.
    let cfg = LoadTestConfig::new(2, 1000, 0).expect("valid configuration");
    let mut run = LoadRun::start(cfg, 0);
    for step in 0..4u64 {
        assert!(!run.poll_cancel());
        run_one_instant_worker(&mut run, step * 250, false);
    }
    run.request_cancel();
    assert!(run.poll_cancel());
    let summary = run.try_complete(1000).expect("a drained run completes");
    assert_eq!(summary.succeeded, 0);
    assert!(summary.attempted > 0);
    assert_eq!(summary.failed, summary.attempted);
    assert_eq!(run.pending_count(), 0);
    assert_eq!(run.phase(), Phase::Completed);
}

#[test]
fn zero_duration_spawns_nothing() {
    // duration 0: the timer fires before the dispatcher admits anyone.
    let cfg = LoadTestConfig::new(4, 0, 0).expect("valid configuration");
    let mut run = LoadRun::start(cfg, 0);
    run.request_cancel();
    assert!(run.poll_cancel(), "cancellation is already observable");
    assert!(run.try_spawn().is_none(), "no admission after cancellation");
    let summary = run.try_complete(0).expect("an empty run completes");
    assert_eq!(summary.attempted, 0);
    assert_eq!(summary.succeeded, 0);
    assert_eq!(summary.failed, 0);
    assert_eq!(summary.elapsed_ms, 0);
}

#[test]
fn cancellation_aborts_waiting_worker_without_touching_counters() {
    // A worker still racing for a token aborts as soon as the signal is set,
    // releases its permit, and is excluded from every counter.
    let cfg = LoadTestConfig::new(1, 5000, 1).expect("valid configuration");
    let mut run = LoadRun::start(cfg, 0);
    run_one_instant_worker(&mut run, 0, true);
    let w = run.try_spawn().expect("capacity is free again");
    assert_eq!(run.active_count(), 1);
    assert_eq!(run.worker_poll_token(w, 10), TokenWait::NotReady);
    run.request_cancel();
    assert_eq!(run.worker_poll_token(w, 20), TokenWait::Aborted);
    assert_eq!(run.active_count(), 0, "the permit came back");
    assert_eq!(run.pending_count(), 0);
    assert!(run.poll_cancel());
    let summary = run.try_complete(100).expect("a drained run completes");
    assert_eq!(summary.attempted, 1, "the aborted worker is not counted");
}

#[test]
fn abandoned_worker_is_isolated_from_the_rest_of_the_run() {
    // A worker whose work item cannot be built gives up its permit without
    // touching any counter; the rest of the run goes on.
    let cfg = LoadTestConfig::new(2, 1000, 0).expect("valid configuration");
    let mut run = LoadRun::start(cfg, 0);
    let w = run.try_spawn().expect("capacity is free");
    run.worker_abandon(w);
    assert_eq!(run.active_count(), 0, "the permit came back");
    run_one_instant_worker(&mut run, 10, true);
    run.request_cancel();
    assert!(run.poll_cancel());
    let summary = run.try_complete(1000).expect("a drained run completes");
    assert_eq!(summary.attempted, 1, "the abandoned worker is not counted");
    assert_eq!(summary.succeeded, 1);
}

#[test]
fn concurrency_one_serializes_submissions() {
    // With one permit, a second worker cannot be admitted while the first
    // is still in flight, so submission calls never overlap.
    let cfg = LoadTestConfig::new(1, 1000, 0).expect("valid configuration");
    let mut run = LoadRun::start(cfg, 0);
    let w0 = run.try_spawn().expect("the single permit is free");
    assert_eq!(run.worker_poll_token(w0, 0), TokenWait::Granted);
    assert!(run.try_spawn().is_none(), "capacity is the binding constraint");
    run.worker_finish(w0, true);
    let w1 = run.try_spawn().expect("the permit was released");
    assert_eq!(run.worker_poll_token(w1, 1), TokenWait::Granted);
    run.worker_finish(w1, true);
    run.request_cancel();
    assert!(run.poll_cancel());
    let summary = run.try_complete(1000).expect("a drained run completes");
    assert_eq!(summary.attempted, 2);
}

#[test]
fn spawn_stops_at_capacity() {
    // Unreleased permits never exceed the configured concurrency.
    let cfg = LoadTestConfig::new(3, 1000, 0).expect("valid configuration");
    let mut run = LoadRun::start(cfg, 0);
    assert!(run.try_spawn().is_some());
    assert!(run.try_spawn().is_some());
    assert!(run.try_spawn().is_some());
    assert_eq!(run.active_count(), 3);
    assert!(run.try_spawn().is_none(), "at capacity");
}

#[test]
fn progress_report_once_per_second() {
    let cfg = LoadTestConfig::new(2, 10000, 0).expect("valid configuration");
    let mut run = LoadRun::start(cfg, 0);
    assert!(run.maybe_report(500).is_none(), "second zero matches the initial marker");
    run_one_instant_worker(&mut run, 600, true);
    let report = run.maybe_report(1500).expect("a new second elapsed");
    assert_eq!(report.elapsed_s, 1);
    assert_eq!(report.succeeded, 1);
    assert_eq!(report.failed, 0);
    assert_eq!(report.pending, 0);
    assert!(run.maybe_report(1900).is_none(), "same second, already reported");
    assert_eq!(run.maybe_report(2000).expect("next second").elapsed_s, 2);
}
