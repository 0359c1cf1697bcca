//! Unit tests of the run's components: configuration validation, the token
//! bucket's refill arithmetic, the permit gate, the throughput formula, and
//! the screens.

use load_engine::config::{ConfigError, LoadTestConfig, Rate};
use load_engine::dispatch::throughput_milli_per_sec;
use load_engine::gate::ConcurrencyGate;
use load_engine::limiter::TokenBucket;
use load_engine::screen::Screen;

#[test]
fn zero_concurrency_is_rejected() {
    assert_eq!(LoadTestConfig::new(0, 1000, 5), Err(ConfigError::ZeroConcurrency));
}

#[test]
fn zero_rate_means_unbounded() {
    let cfg = LoadTestConfig::new(8, 60000, 0).expect("valid configuration");
    assert_eq!(cfg.concurrency, 8);
    assert_eq!(cfg.duration_ms, 60000);
    assert!(matches!(cfg.rate, Rate::Unbounded));
}

#[test]
fn positive_rate_is_kept() {
    let cfg = LoadTestConfig::new(8, 60000, 25).expect("valid configuration");
    assert!(matches!(cfg.rate, Rate::PerSecond(25)));
}

#[test]
fn fresh_bucket_grants_one_burst_then_dries_up() {
    let mut bucket = TokenBucket::new(2, 0);
    assert!(bucket.try_take());
    assert!(bucket.try_take());
    assert!(!bucket.try_take(), "the burst is spent");
}

#[test]
fn bucket_refills_at_the_configured_rate() {
    let mut bucket = TokenBucket::new(2, 0);
    assert!(bucket.try_take());
    assert!(bucket.try_take());
    bucket.refill(499);
    assert!(!bucket.try_take(), "2 tokens/s for 499 ms is under one token");
    bucket.refill(500);
    assert!(bucket.try_take(), "2 tokens/s for 500 ms is one token");
    assert!(!bucket.try_take());
    assert_eq!(bucket.last_ms(), 500);
}

#[test]
fn bucket_never_stores_more_than_one_burst() {
    let mut bucket = TokenBucket::new(3, 0);
    bucket.refill(60000);
    let mut granted: u32 = 0;
    while bucket.try_take() {
        granted += 1;
    }
    assert_eq!(granted, 3, "a long idle stretch still caps at one burst");
}

#[test]
fn gate_hands_out_exactly_its_capacity() {
    let mut gate = ConcurrencyGate::new(2);
    assert_eq!(gate.capacity_val(), 2);
    let first = gate.try_acquire().expect("one permit free");
    let second = gate.try_acquire().expect("two permits free");
    assert!(gate.try_acquire().is_none(), "capacity exhausted");
    gate.release(first);
    let third = gate.try_acquire().expect("released capacity is reusable");
    gate.release(second);
    gate.release(third);
    assert_eq!(gate.available_val(), 2);
}

#[test]
fn throughput_is_exact_in_millis() {
    assert_eq!(throughput_milli_per_sec(10, 2000), Some(5000));
    assert_eq!(throughput_milli_per_sec(3, 1000), Some(3000));
    assert_eq!(throughput_milli_per_sec(1, 3), Some(333333));
    assert_eq!(throughput_milli_per_sec(0, 500), Some(0));
    assert_eq!(throughput_milli_per_sec(7, 0), None, "no elapsed time, no rate");
}

#[test]
fn default_screen_is_the_main_screen() {
    let screen = Screen::default();
    assert!(matches!(screen, Screen::MainScreen(_)));
    assert_eq!(screen.body_text(), "This is a main screen");
}
