use vstd::prelude::*;

verus! {

/// Parameters of one token bucket: its capacity and how many milliseconds
/// it takes to refill one token.
#[derive(Clone, Copy, Debug, PartialEq, Eq, Structural)]
pub struct RateLimitConfig {
    pub max_tokens: i64,
    pub refill_interval_ms: i64,
}

impl RateLimitConfig {
    /// Positive capacity and interval, with a full refill period that fits
    /// the machine word (it is also the bucket's cache lifetime).
    pub open spec fn wf(&self) -> bool {
        &&& 1 <= self.max_tokens
        &&& 1 <= self.refill_interval_ms
        &&& self.max_tokens * self.refill_interval_ms <= i64::MAX
    }

    /// The bucket every request passes first: 10 tokens, one refilled
    /// every 200 milliseconds.
    pub fn global() -> (r: RateLimitConfig)
        ensures
            r.wf(),
            r.max_tokens == 10,
            r.refill_interval_ms == 200,
    {
        RateLimitConfig { max_tokens: 10, refill_interval_ms: 200 }
    }

    /// How long a bucket entry lives in the cache: the time a full refill
    /// takes.
    pub fn ttl_ms(&self) -> (r: i64)
        requires
            self.wf(),
        ensures
            r == self.max_tokens * self.refill_interval_ms,
    {
        self.max_tokens * self.refill_interval_ms
    }
}

/// What the cache holds for one client and bucket: the used-token count
/// and the timestamp of the last counted request, in milliseconds.
#[derive(Clone, Copy, Debug, PartialEq, Eq, Structural)]
pub struct BucketReading {
    pub used_tokens: i64,
    pub last_request_ts: i64,
}

/// The verdict on one request: whether it may run, the used-token count
/// after it, and how many milliseconds remain of the current refill
/// window, that is, until the next token refills.
#[derive(Clone, Copy, Debug, PartialEq, Eq, Structural)]
pub struct RateOutcome {
    pub allowed: bool,
    pub used_tokens: i64,
    pub single_refill_in_ms: i64,
}

/// The used-token count after decaying a stored count by one token per
/// elapsed refill interval, floored at zero.
pub open spec fn spec_decayed(used: int, elapsed: int, refill: int) -> int {
    if used - elapsed / refill >= 0 {
        used - elapsed / refill
    } else {
        0
    }
}

/// Whether a request is admitted against a stored count: the decayed count
/// must still be below the bucket's capacity.
pub open spec fn spec_allowed(used: int, elapsed: int, cfg: RateLimitConfig) -> bool {
    spec_decayed(used, elapsed, cfg.refill_interval_ms as int) < cfg.max_tokens
}

/// What remains of the refill window a request falls into: the time until
/// the next token refills.
pub open spec fn spec_window_remaining(elapsed: int, refill: int) -> int {
    refill - elapsed % refill
}

/// The used-token count after the request: one more than the decayed count
/// when the request is admitted, the decayed count unchanged when it is
/// rejected.
pub open spec fn spec_used_after(used: int, elapsed: int, cfg: RateLimitConfig) -> int {
    let decayed = spec_decayed(used, elapsed, cfg.refill_interval_ms as int);
    if decayed < cfg.max_tokens {
        decayed + 1
    } else {
        decayed
    }
}

/// Decides one request against the bucket's cached state at time `now`.
/// An absent reading is a fresh bucket: the request is admitted and uses
/// the first token. Otherwise the stored count decays by one token per
/// elapsed refill interval and the request is admitted exactly when the
/// decayed count is below the capacity; only an admitted request consumes
/// a token. The time until the next token refills is reported for the
/// retry and refill headers.
pub fn ratelimit_decide(cfg: &RateLimitConfig, reading: Option<&BucketReading>, now: i64) -> (r:
    RateOutcome)
    requires
        cfg.wf(),
        reading matches Some(b) ==> 0 <= b.used_tokens && 0 <= b.last_request_ts <= now,
    ensures
        reading is None ==> r.allowed && r.used_tokens == 1 && r.single_refill_in_ms
            == cfg.refill_interval_ms,
        reading matches Some(b) ==> {
            let elapsed = now - b.last_request_ts;
            &&& r.allowed == spec_allowed(b.used_tokens as int, elapsed, *cfg)
            &&& r.used_tokens == spec_used_after(b.used_tokens as int, elapsed, *cfg)
            &&& r.single_refill_in_ms == spec_window_remaining(
                elapsed,
                cfg.refill_interval_ms as int,
            )
        },
        0 <= r.used_tokens,
        r.allowed ==> 1 <= r.used_tokens <= cfg.max_tokens,
        0 < r.single_refill_in_ms <= cfg.refill_interval_ms,
{
    match reading {
        None => RateOutcome {
            allowed: true,
            used_tokens: 1,
            single_refill_in_ms: cfg.refill_interval_ms,
        },
        Some(b) => {
            let elapsed = now - b.last_request_ts;
            let single_refill_in_ms = cfg.refill_interval_ms - elapsed % cfg.refill_interval_ms;
            let refilled = elapsed / cfg.refill_interval_ms;
            let decayed = if b.used_tokens - refilled >= 0 {
                b.used_tokens - refilled
            } else {
                0
            };
            if decayed < cfg.max_tokens {
                RateOutcome { allowed: true, used_tokens: decayed + 1, single_refill_in_ms }
            } else {
                RateOutcome { allowed: false, used_tokens: decayed, single_refill_in_ms }
            }
        },
    }
}

/// What an admitted request writes back to the cache: the new count,
/// stamped at the deciding instant.
pub fn writeback(outcome: &RateOutcome, now: i64) -> (r: BucketReading)
    ensures
        r.used_tokens == outcome.used_tokens,
        r.last_request_ts == now,
{
    BucketReading { used_tokens: outcome.used_tokens, last_request_ts: now }
}

impl RateOutcome {
    /// The `X-RateLimit-Remaining` header: capacity minus the used count.
    pub fn remaining(&self, cfg: &RateLimitConfig) -> (r: i64)
        requires
            cfg.wf(),
            0 <= self.used_tokens,
        ensures
            r == cfg.max_tokens - self.used_tokens,
    {
        cfg.max_tokens - self.used_tokens
    }

    /// The `X-RateLimit-Refill` header, in milliseconds: the time until
    /// the next token refills plus a full interval for every further used
    /// token.
    pub fn refill_header_ms(&self, cfg: &RateLimitConfig) -> (r: i64)
        requires
            cfg.wf(),
            1 <= self.used_tokens,
            0 <= self.single_refill_in_ms <= cfg.refill_interval_ms,
            (self.used_tokens - 1) * cfg.refill_interval_ms + cfg.refill_interval_ms <= i64::MAX,
        ensures
            r == self.single_refill_in_ms + (self.used_tokens - 1) * cfg.refill_interval_ms,
    {
        self.single_refill_in_ms + (self.used_tokens - 1) * cfg.refill_interval_ms
    }

    /// The `Retry-After` hint on a rejected request: the time until the
    /// next token refills.
    pub fn retry_after_ms(&self) -> (r: i64)
        ensures
            r == self.single_refill_in_ms,
    {
        self.single_refill_in_ms
    }
}

/// Law: within a single refill window the bucket counts exactly one token
/// per admitted request. Starting from a count of `u` stamped at the
/// current instant, the next request at that instant is admitted if and
/// only if `u` is below the capacity, an admitted request moves the count
/// to `u + 1` (so the remaining count falls by one), and a rejected
/// request leaves the count unchanged.
pub proof fn lemma_same_window_accounting(cfg: RateLimitConfig, u: int)
    requires
        cfg.wf(),
        0 <= u,
    ensures
        spec_allowed(u, 0, cfg) <==> u < cfg.max_tokens,
        u < cfg.max_tokens ==> spec_used_after(u, 0, cfg) == u + 1,
        u >= cfg.max_tokens ==> spec_used_after(u, 0, cfg) == u,
{
    assert(0int / (cfg.refill_interval_ms as int) == 0);
}

/// What the cache read of a bucket produced: the stored bucket, no bucket
/// yet, or a failed read.
#[derive(Clone, Copy, Debug, PartialEq, Eq, Structural)]
pub enum CacheReadResult {
    Hit(BucketReading),
    Miss,
    Failed,
}

/// What the limiter decides for one request: run the handler and count
/// the token, turn the request away as over the limit, or turn it away
/// as an internal error because the cache could not be read.
#[derive(Clone, Copy, Debug, PartialEq, Eq, Structural)]
pub enum RateLimitVerdict {
    Proceed(RateOutcome),
    Reject(RateOutcome),
    CacheError,
}

/// Decides one request from what the cache read produced. A failed read
/// fails closed: the request is an internal error and the handler must
/// not run, trading availability for safety under a cache outage. A
/// missing bucket admits the request on its first token; a stored bucket
/// is decided by the token-bucket rule.
pub fn ratelimit_check(cfg: &RateLimitConfig, read: &CacheReadResult, now: i64) -> (r:
    RateLimitVerdict)
    requires
        cfg.wf(),
        read matches CacheReadResult::Hit(b) ==> 0 <= b.used_tokens && 0 <= b.last_request_ts
            <= now,
    ensures
        read is Failed <==> r is CacheError,
        read is Miss ==> (r matches RateLimitVerdict::Proceed(o) && o.allowed && o.used_tokens
            == 1 && o.single_refill_in_ms == cfg.refill_interval_ms),
        read matches CacheReadResult::Hit(b) ==> {
            let elapsed = now - b.last_request_ts;
            let used = spec_used_after(b.used_tokens as int, elapsed, *cfg);
            let window = spec_window_remaining(elapsed, cfg.refill_interval_ms as int);
            &&& (spec_allowed(b.used_tokens as int, elapsed, *cfg) ==> (r matches
                RateLimitVerdict::Proceed(o) && o.allowed && o.used_tokens == used
                && o.single_refill_in_ms == window))
            &&& (!spec_allowed(b.used_tokens as int, elapsed, *cfg) ==> (r matches
                RateLimitVerdict::Reject(o) && !o.allowed && o.used_tokens == used
                && o.single_refill_in_ms == window))
        },
{
    match read {
        CacheReadResult::Failed => RateLimitVerdict::CacheError,
        CacheReadResult::Miss => RateLimitVerdict::Proceed(ratelimit_decide(cfg, None, now)),
        CacheReadResult::Hit(b) => {
            let outcome = ratelimit_decide(cfg, Some(b), now);
            if outcome.allowed {
                RateLimitVerdict::Proceed(outcome)
            } else {
                RateLimitVerdict::Reject(outcome)
            }
        },
    }
}

/// Law: once one full refill interval elapses and before a second one
/// does, exactly one token returns: the decayed count is one less than the
/// stored count, floored at zero, so a bucket rejected at capacity admits
/// a request again.
pub proof fn lemma_refill_after_interval(cfg: RateLimitConfig, u: int, elapsed: int)
    requires
        cfg.wf(),
        0 <= u,
        cfg.refill_interval_ms <= elapsed < 2 * cfg.refill_interval_ms,
    ensures
        spec_decayed(u, elapsed, cfg.refill_interval_ms as int) == if u >= 1 {
            u - 1
        } else {
            0
        },
        u == cfg.max_tokens ==> spec_allowed(u, elapsed, cfg),
{
    let refill = cfg.refill_interval_ms as int;
    assert(elapsed / refill == 1) by {
        vstd::arithmetic::div_mod::lemma_fundamental_div_mod_converse_div(
            elapsed,
            refill,
            1,
            elapsed - refill,
        );
    }
}

} // verus!
