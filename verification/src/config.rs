//! Immutable parameters of one load-test run, validated before dispatch.

use vstd::prelude::*;

verus! {

/// Target request rate for a run: either unlimited, or a positive number of
/// requests per second. An explicit variant replaces the zero sentinel that a
/// raw rate argument uses for "no limit".
#[derive(Clone, Copy, Debug, PartialEq, Eq, Structural)]
pub enum Rate {
    Unbounded,
    PerSecond(u32),
}

impl Rate {
    /// A bounded rate carries at least one request per second.
    pub open spec fn wf(self) -> bool {
        match self {
            Rate::Unbounded => true,
            Rate::PerSecond(r) => r >= 1,
        }
    }
}

/// Reasons a configuration is rejected before the run starts.
#[derive(Clone, Copy, Debug, PartialEq, Eq, Structural)]
pub enum ConfigError {
    ZeroConcurrency,
}

/// Immutable parameters of one run: maximum simultaneous in-flight requests,
/// run duration, and target request rate. Fixed once the run starts.
#[derive(Clone, Copy, Debug, PartialEq, Eq, Structural)]
pub struct LoadTestConfig {
    pub concurrency: u16,
    pub duration_ms: u64,
    pub rate: Rate,
}

impl LoadTestConfig {
    pub open spec fn wf(self) -> bool {
        &&& self.concurrency >= 1
        &&& self.rate.wf()
    }

    /// Validates the raw inputs of a run. Zero concurrency is a fatal
    /// configuration error; a rate of zero requests per second means
    /// "unbounded".
    pub fn new(concurrency: u16, duration_ms: u64, rate_per_sec: u32) -> (r: Result<
        LoadTestConfig,
        ConfigError,
    >)
        ensures
            match r {
                Ok(c) => {
                    &&& concurrency >= 1
                    &&& c.concurrency == concurrency
                    &&& c.duration_ms == duration_ms
                    &&& c.rate == (if rate_per_sec == 0 {
                        Rate::Unbounded
                    } else {
                        Rate::PerSecond(rate_per_sec)
                    })
                    &&& c.wf()
                },
                Err(e) => concurrency == 0 && e == ConfigError::ZeroConcurrency,
            },
    {
        if concurrency == 0 {
            return Err(ConfigError::ZeroConcurrency);
        }
        let rate = if rate_per_sec == 0 {
            Rate::Unbounded
        } else {
            Rate::PerSecond(rate_per_sec)
        };
        Ok(LoadTestConfig { concurrency, duration_ms, rate })
    }
}

} // verus!
