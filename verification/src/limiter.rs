//! Token-bucket rate limiter: a bucket holding up to one second's worth of
//! tokens refills continuously at the configured rate; each request that
//! reaches the submission step consumes one token. Token amounts are measured
//! in token-milliseconds (one token = 1000 token-milliseconds) so that refill
//! arithmetic over a millisecond clock stays exact in integers.

use vstd::prelude::*;

verus! {

/// Spec-level state of a token bucket: the refill rate in tokens per second,
/// the current store in token-milliseconds, and the clock reading of the last
/// refill.
pub struct BucketModel {
    pub rate: int,
    pub tokens_ms: int,
    pub last_ms: int,
}

/// Bucket capacity: one second's worth of tokens, in token-milliseconds.
pub open spec fn cap_ms(rate: int) -> int {
    1000 * rate
}

impl BucketModel {
    pub open spec fn wf(self) -> bool {
        &&& 1 <= self.rate <= u32::MAX
        &&& 0 <= self.tokens_ms <= cap_ms(self.rate)
        &&& 0 <= self.last_ms <= u64::MAX
    }
}

/// The bucket after the clock advances to `now`: `rate` token-milliseconds
/// are added per elapsed millisecond, capped at one second's burst.
pub open spec fn refilled(m: BucketModel, now: int) -> BucketModel {
    BucketModel {
        rate: m.rate,
        tokens_ms: (if m.tokens_ms + m.rate * (now - m.last_ms) <= cap_ms(m.rate) {
            m.tokens_ms + m.rate * (now - m.last_ms)
        } else {
            cap_ms(m.rate)
        }),
        last_ms: now,
    }
}

/// Whether the bucket currently holds a whole token.
pub open spec fn grants(m: BucketModel) -> bool {
    m.tokens_ms >= 1000
}

/// The bucket after one token is consumed.
pub open spec fn taken(m: BucketModel) -> BucketModel {
    BucketModel { rate: m.rate, tokens_ms: m.tokens_ms - 1000, last_ms: m.last_ms }
}

/// Executable token bucket. Its view is the `BucketModel` it implements.
pub struct TokenBucket {
    rate: u32,
    tokens_ms: u64,
    last_ms: u64,
}

impl View for TokenBucket {
    type V = BucketModel;

    closed spec fn view(&self) -> BucketModel {
        BucketModel {
            rate: self.rate as int,
            tokens_ms: self.tokens_ms as int,
            last_ms: self.last_ms as int,
        }
    }
}

impl TokenBucket {
    pub open spec fn wf(self) -> bool {
        self@.wf()
    }

    /// A fresh bucket starts full: an immediate burst of one second's worth
    /// of requests is allowed, as a per-second quota with burst equal to the
    /// rate behaves.
    pub fn new(rate: u32, now_ms: u64) -> (b: TokenBucket)
        requires
            1 <= rate,
        ensures
            b.wf(),
            b@ == (BucketModel {
                rate: rate as int,
                tokens_ms: cap_ms(rate as int),
                last_ms: now_ms as int,
            }),
    {
        TokenBucket { rate, tokens_ms: 1000 * (rate as u64), last_ms: now_ms }
    }

    /// Advance the bucket clock to `now_ms`, refilling tokens for the elapsed
    /// time.
    pub fn refill(&mut self, now_ms: u64)
        requires
            old(self).wf(),
            old(self)@.last_ms <= now_ms,
        ensures
            final(self).wf(),
            final(self)@ == refilled(old(self)@, now_ms as int),
    {
        let elapsed: u64 = now_ms - self.last_ms;
        let cap: u64 = 1000 * (self.rate as u64);
        if elapsed >= 1000 {
            proof {
                assert((self.rate as int) * (elapsed as int) >= (self.rate as int) * 1000)
                    by (nonlinear_arith)
                    requires
                        elapsed >= 1000,
                        self.rate >= 1,
                ;
            }
            self.tokens_ms = cap;
        } else {
            proof {
                assert((self.rate as int) * (elapsed as int) <= (self.rate as int) * 999)
                    by (nonlinear_arith)
                    requires
                        elapsed <= 999,
                        self.rate >= 0,
                ;
                assert((self.rate as int) * (elapsed as int) >= 0) by (nonlinear_arith)
                    requires
                        elapsed >= 0,
                        self.rate >= 0,
                ;
            }
            let add: u64 = (self.rate as u64) * elapsed;
            let refilled_ms: u64 = self.tokens_ms + add;
            self.tokens_ms = if refilled_ms <= cap {
                refilled_ms
            } else {
                cap
            };
        }
        self.last_ms = now_ms;
    }

    /// Try to consume one token. Returns whether a token was granted; the
    /// store shrinks by one token exactly when it was.
    pub fn try_take(&mut self) -> (granted: bool)
        requires
            old(self).wf(),
        ensures
            final(self).wf(),
            granted == grants(old(self)@),
            final(self)@ == (if grants(old(self)@) {
                taken(old(self)@)
            } else {
                old(self)@
            }),
    {
        if self.tokens_ms >= 1000 {
            self.tokens_ms = self.tokens_ms - 1000;
            true
        } else {
            false
        }
    }

    pub fn last_ms(&self) -> (r: u64)
        ensures
            r == self@.last_ms,
    {
        self.last_ms
    }
}

/// One observable step of a bucket's life: a refill to a clock reading, or an
/// attempt to take a token.
pub enum BucketEvent {
    Refill { now_ms: int },
    Take,
}

/// The bucket after one event.
pub open spec fn bucket_step(m: BucketModel, e: BucketEvent) -> BucketModel {
    match e {
        BucketEvent::Refill { now_ms } => refilled(m, now_ms),
        BucketEvent::Take => if grants(m) {
            taken(m)
        } else {
            m
        },
    }
}

/// The bucket after a whole sequence of events.
pub open spec fn bucket_run(m: BucketModel, evs: Seq<BucketEvent>) -> BucketModel
    decreases evs.len(),
{
    if evs.len() == 0 {
        m
    } else {
        bucket_run(bucket_step(m, evs[0]), evs.drop_first())
    }
}

/// How many events of `evs` are granted a token.
pub open spec fn grant_count(m: BucketModel, evs: Seq<BucketEvent>) -> int
    decreases evs.len(),
{
    if evs.len() == 0 {
        0
    } else {
        (if evs[0] is Take && grants(m) {
            1int
        } else {
            0int
        }) + grant_count(bucket_step(m, evs[0]), evs.drop_first())
    }
}

/// Every refill in `evs` moves the clock forward and stays within the
/// machine's clock range.
pub open spec fn times_ok(m: BucketModel, evs: Seq<BucketEvent>) -> bool
    decreases evs.len(),
{
    if evs.len() == 0 {
        true
    } else {
        (match evs[0] {
            BucketEvent::Refill { now_ms } => m.last_ms <= now_ms <= u64::MAX,
            BucketEvent::Take => true,
        }) && times_ok(bucket_step(m, evs[0]), evs.drop_first())
    }
}

/// Conservation law of the token bucket: over any sequence of refills (under
/// a monotone clock) and take attempts, the tokens granted plus the tokens
/// still stored never exceed the tokens stored at the start plus the tokens
/// refilled over the elapsed time.
pub proof fn lemma_grant_bound(m: BucketModel, evs: Seq<BucketEvent>)
    requires
        m.wf(),
        times_ok(m, evs),
    ensures
        bucket_run(m, evs).wf(),
        bucket_run(m, evs).rate == m.rate,
        m.last_ms <= bucket_run(m, evs).last_ms,
        0 <= grant_count(m, evs),
        1000 * grant_count(m, evs) + bucket_run(m, evs).tokens_ms <= m.tokens_ms + m.rate * (
        bucket_run(m, evs).last_ms - m.last_ms),
    decreases evs.len(),
{
    if evs.len() > 0 {
        let m1 = bucket_step(m, evs[0]);
        match evs[0] {
            BucketEvent::Refill { now_ms } => {
                assert(m.rate * (now_ms - m.last_ms) >= 0) by (nonlinear_arith)
                    requires
                        m.rate >= 1,
                        now_ms >= m.last_ms,
                ;
                assert(m1.wf());
                lemma_grant_bound(m1, evs.drop_first());
                let mn = bucket_run(m1, evs.drop_first());
                assert(m.rate * (now_ms - m.last_ms) + m.rate * (mn.last_ms - now_ms) == m.rate
                    * (mn.last_ms - m.last_ms)) by (nonlinear_arith);
            },
            BucketEvent::Take => {
                assert(m1.wf());
                lemma_grant_bound(m1, evs.drop_first());
            },
        }
    }
}

/// Rate-limit law: starting from a full bucket, over any sequence of refills
/// and take attempts spanning `elapsed` milliseconds, at most
/// `rate * elapsed / 1000 + rate` tokens are granted — the configured rate
/// over the elapsed time, within one burst (one extra second's worth).
/// Since a worker reaches the submission step only by taking a token, this
/// bounds how many workers can reach that step in a window.
pub proof fn lemma_rate_limit(m: BucketModel, evs: Seq<BucketEvent>)
    requires
        m.wf(),
        m.tokens_ms == cap_ms(m.rate),
        times_ok(m, evs),
    ensures
        0 <= grant_count(m, evs),
        1000 * grant_count(m, evs) <= m.rate * (bucket_run(m, evs).last_ms - m.last_ms) + 1000
            * m.rate,
{
    lemma_grant_bound(m, evs);
}

} // verus!
