//! Token-bucket admission control and the thread-safe rate limiter built
//! on it.
//!
//! Token quantities are measured in millitokens (one thousandth of a token),
//! so fractional balances and refill rates are exact integers. Time is
//! measured in milliseconds. The bucket itself is a pure state machine that
//! takes the current clock reading as an argument; the [`RateLimiter`] wraps
//! one bucket in a verified reader-writer lock and reads the process clock,
//! so concurrent callers serialize on the lock and every caller observes a
//! bucket that satisfies its invariant.
//!
//! When the refill rate is zero and tokens are missing, no finite wait can
//! help; the retry hint is then the maximum representable wait,
//! `u64::MAX` seconds.

use vstd::prelude::*;
use vstd::rwlock::{RwLock, RwLockPredicate};

use crate::config::RateLimitConfig;
use crate::error::Error;

verus! {

/// The mathematical state of a token bucket: capacity, balance and refill
/// rate in millitokens, and the clock reading of the last refill in
/// milliseconds.
pub struct BucketModel {
    pub max: int,
    pub avail: int,
    pub rate: int,
    pub last: int,
}

/// A model is well-formed when the balance lies between zero and the
/// capacity and the rate is not negative.
pub open spec fn model_wf(m: BucketModel) -> bool {
    &&& 0 <= m.avail <= m.max
    &&& m.rate >= 0
}

/// Milliseconds elapsed between the last refill and `now`, clamped below at
/// zero.
pub open spec fn model_elapsed(m: BucketModel, now: int) -> int {
    if now > m.last {
        now - m.last
    } else {
        0
    }
}

/// The balance after crediting the elapsed time, capped at the capacity.
pub open spec fn model_refilled(m: BucketModel, now: int) -> int {
    let credited = m.avail + model_elapsed(m, now) * m.rate / 1000;
    if credited > m.max {
        m.max
    } else {
        credited
    }
}

/// Whether a refilled bucket can admit `tokens` whole tokens at `now`.
pub open spec fn model_grants(m: BucketModel, tokens: int, now: int) -> bool {
    model_refilled(m, now) >= 1000 * tokens
}

/// The bucket state after one refill-and-acquire step: the refilled balance,
/// minus the request when it was admitted, with the clock advanced to `now`.
pub open spec fn model_try_acquire(m: BucketModel, tokens: int, now: int) -> BucketModel {
    let refilled = model_refilled(m, now);
    if refilled >= 1000 * tokens {
        BucketModel { avail: refilled - 1000 * tokens, last: now, ..m }
    } else {
        BucketModel { avail: refilled, last: now, ..m }
    }
}

/// The bucket state after a sequence of refill-and-acquire steps, each a
/// pair of requested whole tokens and a clock reading.
pub open spec fn model_run(m: BucketModel, ops: Seq<(int, int)>) -> BucketModel
    decreases ops.len(),
{
    if ops.len() == 0 {
        m
    } else {
        model_run(model_try_acquire(m, ops.first().0, ops.first().1), ops.drop_first())
    }
}

/// The total of the whole tokens granted over a sequence of steps.
pub open spec fn model_granted_total(m: BucketModel, ops: Seq<(int, int)>) -> int
    decreases ops.len(),
{
    if ops.len() == 0 {
        0
    } else {
        let t = ops.first().0;
        let now = ops.first().1;
        let here = if model_grants(m, t, now) {
            t
        } else {
            0
        };
        here + model_granted_total(model_try_acquire(m, t, now), ops.drop_first())
    }
}

/// The number of admissions granted over a sequence of steps.
pub open spec fn model_success_count(m: BucketModel, ops: Seq<(int, int)>) -> int
    decreases ops.len(),
{
    if ops.len() == 0 {
        0
    } else {
        let t = ops.first().0;
        let now = ops.first().1;
        let here: int = if model_grants(m, t, now) {
            1
        } else {
            0
        };
        here + model_success_count(model_try_acquire(m, t, now), ops.drop_first())
    }
}

/// A token bucket: a balance that refills with elapsed time, capped at its
/// capacity, and is spent by admissions.
pub struct TokenBucket {
    max_millitokens: u64,
    available_millitokens: u64,
    refill_rate_millitokens: u64,
    last_refill_ms: u64,
}

impl TokenBucket {
    /// Capacity in millitokens.
    pub closed spec fn max_mpt(self) -> int {
        self.max_millitokens as int
    }

    /// Current balance in millitokens.
    pub closed spec fn avail_mpt(self) -> int {
        self.available_millitokens as int
    }

    /// Refill rate in millitokens per second.
    pub closed spec fn rate_mpt(self) -> int {
        self.refill_rate_millitokens as int
    }

    /// Clock reading of the last refill, in milliseconds.
    pub closed spec fn last_ms(self) -> int {
        self.last_refill_ms as int
    }

    /// The mathematical state this bucket holds.
    pub open spec fn model(self) -> BucketModel {
        BucketModel {
            max: self.max_mpt(),
            avail: self.avail_mpt(),
            rate: self.rate_mpt(),
            last: self.last_ms(),
        }
    }

    /// The balance never exceeds the capacity.
    pub open spec fn wf(self) -> bool {
        model_wf(self.model())
    }

    /// The balance after crediting the elapsed time, capped at capacity.
    pub open spec fn spec_refilled(self, now_ms: u64) -> int {
        model_refilled(self.model(), now_ms as int)
    }

    /// The wait, in whole seconds rounded up, until `needed_mpt` millitokens
    /// have refilled; the maximum representable wait when nothing refills.
    pub open spec fn spec_retry_after(needed_mpt: int, rate_mpt: int) -> int {
        if rate_mpt == 0 {
            u64::MAX as int
        } else {
            (needed_mpt + rate_mpt - 1) / rate_mpt
        }
    }

    /// A full bucket whose clock starts at `now_ms`.
    pub fn new(max_tokens: u32, refill_rate_millitokens: u64, now_ms: u64) -> (b: Self)
        ensures
            b.wf(),
            b.max_mpt() == 1000 * max_tokens,
            b.avail_mpt() == b.max_mpt(),
            b.rate_mpt() == refill_rate_millitokens,
            b.last_ms() == now_ms,
    {
        let max_millitokens: u64 = (max_tokens as u64) * 1000;
        TokenBucket {
            max_millitokens,
            available_millitokens: max_millitokens,
            refill_rate_millitokens,
            last_refill_ms: now_ms,
        }
    }

    /// Credits the balance with the time elapsed since the last refill and
    /// advances the refill clock to `now_ms`.
    pub fn refill(&mut self, now_ms: u64)
        requires
            old(self).wf(),
        ensures
            final(self).wf(),
            final(self).max_mpt() == old(self).max_mpt(),
            final(self).rate_mpt() == old(self).rate_mpt(),
            final(self).last_ms() == now_ms,
            final(self).avail_mpt() == old(self).spec_refilled(now_ms),
    {
        let elapsed: u64 = if now_ms > self.last_refill_ms {
            now_ms - self.last_refill_ms
        } else {
            0
        };
        proof {
            assert((elapsed as int) * (self.refill_rate_millitokens as int) <= (u64::MAX as int)
                * (u64::MAX as int)) by (nonlinear_arith)
                requires
                    0 <= elapsed as int <= u64::MAX as int,
                    0 <= self.refill_rate_millitokens as int <= u64::MAX as int,
            ;
        }
        let added: u128 = (elapsed as u128) * (self.refill_rate_millitokens as u128) / 1000;
        let gap: u64 = self.max_millitokens - self.available_millitokens;
        if added > gap as u128 {
            self.available_millitokens = self.max_millitokens;
        } else {
            self.available_millitokens = self.available_millitokens + (added as u64);
        }
        self.last_refill_ms = now_ms;
    }

    /// Refills, then admits `tokens` whole tokens when the balance allows it,
    /// or reports how long to wait.
    ///
    /// Admission succeeds exactly when the refilled balance covers the
    /// request; on denial the balance is left refilled but unspent and the
    /// returned wait is `ceil(missing / rate)` seconds, or `u64::MAX` when
    /// the rate is zero.
    pub fn try_acquire(&mut self, tokens: u32, now_ms: u64) -> (r: Result<(), u64>)
        requires
            old(self).wf(),
        ensures
            final(self).wf(),
            final(self).max_mpt() == old(self).max_mpt(),
            final(self).rate_mpt() == old(self).rate_mpt(),
            final(self).last_ms() == now_ms,
            r is Ok <==> old(self).spec_refilled(now_ms) >= 1000 * (tokens as int),
            r is Ok ==> final(self).avail_mpt() == old(self).spec_refilled(now_ms) - 1000 * (
            tokens as int),
            r matches Err(wait) ==> final(self).avail_mpt() == old(self).spec_refilled(now_ms)
                && wait == Self::spec_retry_after(
                1000 * (tokens as int) - old(self).spec_refilled(now_ms),
                old(self).rate_mpt(),
            ),
            final(self).model() == model_try_acquire(old(self).model(), tokens as int, now_ms as int),
    {
        self.refill(now_ms);
        let need: u64 = (tokens as u64) * 1000;
        if self.available_millitokens >= need {
            self.available_millitokens = self.available_millitokens - need;
            Ok(())
        } else {
            let missing: u64 = need - self.available_millitokens;
            if self.refill_rate_millitokens == 0 {
                Err(u64::MAX)
            } else {
                let rate: u128 = self.refill_rate_millitokens as u128;
                let wait_wide: u128 = ((missing as u128) + rate - 1) / rate;
                proof {
                    assert((missing as int + rate as int - 1) / (rate as int) <= missing as int)
                        by (nonlinear_arith)
                        requires
                            missing as int >= 1,
                            rate as int >= 1,
                    ;
                }
                Err(wait_wide as u64)
            }
        }
    }

    /// The current balance in millitokens, without refilling.
    pub fn available(&self) -> (r: u64)
        ensures
            r == self.avail_mpt(),
    {
        self.available_millitokens
    }
}

/// A refilled balance lies between the old balance and the capacity.
pub proof fn lemma_refilled_bounds(m: BucketModel, now: int)
    requires
        model_wf(m),
    ensures
        m.avail <= model_refilled(m, now) <= m.max,
{
    let e = model_elapsed(m, now);
    assert(e * m.rate >= 0) by (nonlinear_arith)
        requires
            e >= 0,
            m.rate >= 0,
    ;
    assert(e * m.rate / 1000 >= 0) by (nonlinear_arith)
        requires
            e * m.rate >= 0,
    ;
}

/// One refill-and-acquire step of a non-negative request keeps the balance
/// within bounds and preserves the capacity and the rate.
pub proof fn lemma_acquire_step_wf(m: BucketModel, tokens: int, now: int)
    requires
        model_wf(m),
        tokens >= 0,
    ensures
        model_wf(model_try_acquire(m, tokens, now)),
        model_try_acquire(m, tokens, now).max == m.max,
        model_try_acquire(m, tokens, now).rate == m.rate,
{
    lemma_refilled_bounds(m, now);
}

/// Across any sequence of admissions and elapsed time, the balance never
/// exceeds the capacity and never drops below zero.
pub proof fn lemma_run_preserves_bounds(m: BucketModel, ops: Seq<(int, int)>)
    requires
        model_wf(m),
        forall|i: int| 0 <= i < ops.len() ==> (#[trigger] ops[i]).0 >= 0,
    ensures
        model_wf(model_run(m, ops)),
        model_run(m, ops).max == m.max,
        model_run(m, ops).rate == m.rate,
    decreases ops.len(),
{
    if ops.len() > 0 {
        let t = ops.first().0;
        let now = ops.first().1;
        assert(ops.first() == ops[0]);
        lemma_acquire_step_wf(m, t, now);
        let m2 = model_try_acquire(m, t, now);
        let rest = ops.drop_first();
        assert(forall|i: int| 0 <= i < rest.len() ==> (#[trigger] rest[i]) == ops[i + 1]);
        lemma_run_preserves_bounds(m2, rest);
    }
}

/// A full bucket stays full: refilling at any clock reading leaves the
/// balance at the capacity, so a limiter reports its full capacity right
/// after construction, however much time the first reading takes.
pub proof fn lemma_full_bucket_stays_full(m: BucketModel, now: int)
    requires
        model_wf(m),
        m.avail == m.max,
    ensures
        model_refilled(m, now) == m.max,
{
    lemma_refilled_bounds(m, now);
}

/// After waiting `t` whole seconds with no admissions, the balance is
/// exactly the old balance plus `t` seconds of refill, capped at the
/// capacity.
pub proof fn lemma_refill_whole_seconds(m: BucketModel, t: int)
    requires
        model_wf(m),
        t >= 0,
    ensures
        model_refilled(m, m.last + 1000 * t) == if m.avail + t * m.rate > m.max {
            m.max
        } else {
            m.avail + t * m.rate
        },
{
    let now = m.last + 1000 * t;
    let e = model_elapsed(m, now);
    assert(e == 1000 * t);
    assert((1000 * t) * m.rate == 1000 * (t * m.rate)) by (nonlinear_arith);
    vstd::arithmetic::div_mod::lemma_div_multiples_vanish(t * m.rate, 1000);
}

/// With a zero refill rate, no amount of elapsed time increases the
/// balance.
pub proof fn lemma_zero_rate_no_refill(m: BucketModel, now: int)
    requires
        model_wf(m),
        m.rate == 0,
    ensures
        model_refilled(m, now) == m.avail,
{
}

/// Acquiring zero tokens always succeeds and leaves the balance unchanged
/// aside from the refill itself.
pub proof fn lemma_acquire_zero_is_refill(m: BucketModel, now: int)
    requires
        model_wf(m),
    ensures
        model_grants(m, 0, now),
        model_try_acquire(m, 0, now).avail == model_refilled(m, now),
{
    lemma_refilled_bounds(m, now);
}

/// A denial's retry hint is never optimistic: after a denied request the
/// bucket holds its refilled balance, and waiting the hinted number of
/// whole seconds refills at least the missing amount, whenever the
/// capacity can hold the request at all.
pub proof fn lemma_retry_hint_sufficient(m: BucketModel, tokens: int, now: int)
    requires
        model_wf(m),
        m.rate >= 1,
        tokens >= 0,
        !model_grants(m, tokens, now),
        1000 * tokens <= m.max,
    ensures
        model_refilled(
            model_try_acquire(m, tokens, now),
            now + 1000 * TokenBucket::spec_retry_after(
                1000 * tokens - model_refilled(m, now),
                m.rate,
            ),
        ) >= 1000 * tokens,
{
    let refilled = model_refilled(m, now);
    let needed = 1000 * tokens - refilled;
    let w = (needed + m.rate - 1) / m.rate;
    assert(w * m.rate >= needed) by {
        vstd::arithmetic::div_mod::lemma_fundamental_div_mod(needed + m.rate - 1, m.rate);
        vstd::arithmetic::div_mod::lemma_mod_bound(needed + m.rate - 1, m.rate);
        assert(m.rate * w == needed + m.rate - 1 - ((needed + m.rate - 1) % m.rate));
        assert(m.rate * w == w * m.rate) by (nonlinear_arith);
    }
    assert(w >= 0) by {
        lemma_refilled_bounds(m, now);
        vstd::arithmetic::div_mod::lemma_div_pos_is_pos(needed + m.rate - 1, m.rate);
    }
    let m2 = model_try_acquire(m, tokens, now);
    lemma_acquire_step_wf(m, tokens, now);
    lemma_refill_whole_seconds(m2, w);
}

/// With a zero refill rate, every run of admissions conserves tokens: the
/// final balance is the initial balance minus everything granted, so the
/// total granted never exceeds the initial balance, in whatever order
/// concurrent requests serialize.
pub proof fn lemma_zero_rate_conservation(m: BucketModel, ops: Seq<(int, int)>)
    requires
        model_wf(m),
        m.rate == 0,
        forall|i: int| 0 <= i < ops.len() ==> (#[trigger] ops[i]).0 >= 0,
    ensures
        model_run(m, ops).avail == m.avail - 1000 * model_granted_total(m, ops),
        0 <= 1000 * model_granted_total(m, ops) <= m.avail,
    decreases ops.len(),
{
    if ops.len() > 0 {
        let t = ops.first().0;
        let now = ops.first().1;
        assert(ops.first() == ops[0]);
        lemma_zero_rate_no_refill(m, now);
        lemma_acquire_step_wf(m, t, now);
        let m2 = model_try_acquire(m, t, now);
        let rest = ops.drop_first();
        assert(forall|i: int| 0 <= i < rest.len() ==> (#[trigger] rest[i]) == ops[i + 1]);
        lemma_zero_rate_conservation(m2, rest);
    }
}

/// Requests of `k` tokens each against a zero-rate bucket holding exactly
/// `n` times `k` tokens: exactly `n` of them are admitted, whichever order
/// the callers serialize in, and every later request is denied.
pub proof fn lemma_exact_admissions(m: BucketModel, ops: Seq<(int, int)>, n: int, k: int)
    requires
        model_wf(m),
        m.rate == 0,
        k >= 1,
        n >= 0,
        m.avail == n * (1000 * k),
        ops.len() >= n,
        forall|i: int| 0 <= i < ops.len() ==> (#[trigger] ops[i]).0 == k,
    ensures
        model_success_count(m, ops) == n,
    decreases ops.len(),
{
    if ops.len() == 0 {
    } else {
        let t = ops.first().0;
        let now = ops.first().1;
        assert(ops.first() == ops[0]);
        lemma_zero_rate_no_refill(m, now);
        let m2 = model_try_acquire(m, t, now);
        let rest = ops.drop_first();
        assert(forall|i: int| 0 <= i < rest.len() ==> (#[trigger] rest[i]) == ops[i + 1]);
        if n >= 1 {
            assert(n * (1000 * k) >= 1000 * k) by (nonlinear_arith)
                requires
                    n >= 1,
                    k >= 1,
            ;
            assert(m2.avail == n * (1000 * k) - 1000 * k);
            assert(m2.avail == (n - 1) * (1000 * k)) by (nonlinear_arith)
                requires
                    m2.avail == n * (1000 * k) - 1000 * k,
            ;
            assert(model_wf(m2)) by {
                lemma_acquire_step_wf(m, t, now);
            }
            lemma_exact_admissions(m2, rest, n - 1, k);
        } else {
            assert(m.avail == 0) by (nonlinear_arith)
                requires
                    m.avail == n * (1000 * k),
                    n == 0,
            ;
            assert(!model_grants(m, t, now));
            lemma_exact_admissions(m2, rest, 0, k);
        }
    }
}

/// The lock invariant of the shared bucket: well-formed, with the capacity
/// and refill rate the limiter was configured with.
pub struct BucketPred {
    pub max_mpt: int,
    pub rate_mpt: int,
}

impl RwLockPredicate<TokenBucket> for BucketPred {
    open spec fn inv(self, b: TokenBucket) -> bool {
        &&& b.wf()
        &&& b.max_mpt() == self.max_mpt
        &&& b.rate_mpt() == self.rate_mpt
    }
}

/// Thread-safe admission control: one token bucket behind a verified
/// reader-writer lock, shared by reference across concurrent callers.
pub struct RateLimiter {
    max_tokens: u32,
    refill_rate_millitokens: u64,
    bucket: RwLock<TokenBucket, BucketPred>,
}

impl RateLimiter {
    /// Capacity in whole tokens.
    pub closed spec fn max_tokens_spec(self) -> int {
        self.max_tokens as int
    }

    /// Refill rate in millitokens per second.
    pub closed spec fn refill_rate_spec(self) -> int {
        self.refill_rate_millitokens as int
    }

    #[verifier::type_invariant]
    spec fn lock_configured(self) -> bool {
        self.bucket.pred() == (BucketPred {
            max_mpt: 1000 * self.max_tokens as int,
            rate_mpt: self.refill_rate_millitokens as int,
        })
    }

    /// A limiter whose bucket starts full.
    pub fn new(config: &RateLimitConfig) -> (s: Self)
        ensures
            s.max_tokens_spec() == config.max_tokens,
            s.refill_rate_spec() == config.refill_rate_millitokens,
    {
        let now_ms = wall_clock_ms();
        let bucket = TokenBucket::new(config.max_tokens, config.refill_rate_millitokens, now_ms);
        let pred = Ghost(
            BucketPred {
                max_mpt: 1000 * config.max_tokens as int,
                rate_mpt: config.refill_rate_millitokens as int,
            },
        );
        RateLimiter {
            max_tokens: config.max_tokens,
            refill_rate_millitokens: config.refill_rate_millitokens,
            bucket: RwLock::new(bucket, pred),
        }
    }

    /// Admits `tokens` whole tokens or reports the denial, without blocking.
    ///
    /// Whatever the clock reads and whatever other callers did: admitting
    /// zero tokens always succeeds, a request beyond the bucket's capacity
    /// is always denied, a denial always carries the retry hint, and with a
    /// zero refill rate the hint is the maximum representable wait.
    pub fn acquire(&self, tokens: u32) -> (r: Result<(), Error>)
        ensures
            tokens == 0 ==> r is Ok,
            tokens > self.max_tokens_spec() ==> r is Err,
            r matches Err(e) ==> e matches Error::RateLimit { .. },
            self.refill_rate_spec() == 0 ==> (r matches Err(e) ==> (e matches Error::RateLimit {
                retry_after_seconds,
            } && retry_after_seconds == u64::MAX)),
    {
        let now_ms = wall_clock_ms();
        proof {
            use_type_invariant(self);
        }
        let (mut bucket, handle) = self.bucket.acquire_write();
        let res = bucket.try_acquire(tokens, now_ms);
        handle.release_write(bucket);
        match res {
            Ok(()) => Ok(()),
            Err(wait) => Err(Error::RateLimit { retry_after_seconds: wait }),
        }
    }

    /// The current balance in millitokens, freshly refilled; never exceeds
    /// the configured capacity.
    pub fn available_tokens(&self) -> (r: u64)
        ensures
            r <= 1000 * self.max_tokens_spec(),
    {
        let now_ms = wall_clock_ms();
        proof {
            use_type_invariant(self);
        }
        let (mut bucket, handle) = self.bucket.acquire_write();
        bucket.refill(now_ms);
        let r = bucket.available();
        handle.release_write(bucket);
        r
    }
}

/// Relies on std::time::SystemTime::now: the milliseconds of the clock since
/// the Unix epoch; zero when the clock reads earlier than the epoch.
#[verifier::external_body]
fn wall_clock_ms() -> u64 {
    match std::time::SystemTime::now().duration_since(std::time::UNIX_EPOCH) {
        Ok(d) => d.as_millis() as u64,
        Err(_) => 0,
    }
}

} // verus!
