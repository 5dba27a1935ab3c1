use vstd::prelude::*;

verus! {

/// The number of concurrent downloads allowed when none is configured.
pub const DEFAULT_MAX_CONCURRENCY: usize = 8;

/// Stream permits are refilled this many times a second.
pub const REFILLS_PER_SECOND: usize = 20;

/// The time between two refills of stream permits, in milliseconds.
pub const REFILL_INTERVAL_MS: u64 = 50;

/// No refill happens while this many stream permits (or the rate, if it is
/// lower) are available.
pub const MAX_STORED_PERMITS: usize = 32768;

/// The limits a limiter is built with.
#[derive(Debug, PartialEq, Eq, Structural)]
pub struct Limits {
    /// Downloads that may run at once.
    pub max_concurrency: usize,
    /// Bytes per second that may be streamed, if limited.
    pub max_rate: Option<usize>,
}

/// Configures a limiter: how many downloads run at once, and how many bytes
/// a second they may stream.
pub struct Builder {
    max_concurrency: Option<usize>,
    max_rate: Option<usize>,
}

impl Builder {
    pub closed spec fn spec_max_concurrency(&self) -> Option<usize> {
        self.max_concurrency
    }

    pub closed spec fn spec_max_rate(&self) -> Option<usize> {
        self.max_rate
    }

    pub fn new() -> (r: Self)
        ensures
            r.spec_max_concurrency() is None,
            r.spec_max_rate() is None,
    {
        Self { max_concurrency: None, max_rate: None }
    }

    pub fn max_concurrency(self, val: usize) -> (r: Self)
        requires
            val > 0,
        ensures
            r.spec_max_concurrency() == Some(val),
            r.spec_max_rate() == self.spec_max_rate(),
    {
        Self { max_concurrency: Some(val), max_rate: self.max_rate }
    }

    pub fn max_rate(self, val: usize) -> (r: Self)
        requires
            val > 0,
        ensures
            r.spec_max_concurrency() == self.spec_max_concurrency(),
            r.spec_max_rate() == Some(val),
    {
        Self { max_concurrency: self.max_concurrency, max_rate: Some(val) }
    }

    /// The limits to build a limiter with: the configured concurrency, or
    /// `DEFAULT_MAX_CONCURRENCY`, and the configured rate, if any.
    pub fn build(self) -> (r: Limits)
        ensures
            r.max_concurrency == (match self.spec_max_concurrency() {
                Some(n) => n,
                None => DEFAULT_MAX_CONCURRENCY,
            }),
            r.max_rate == self.spec_max_rate(),
    {
        let max_concurrency = match self.max_concurrency {
            Some(n) => n,
            None => DEFAULT_MAX_CONCURRENCY,
        };
        Limits { max_concurrency, max_rate: self.max_rate }
    }
}

/// The level below which stream permits are refilled.
pub open spec fn refill_threshold(rate: usize) -> int {
    if rate < MAX_STORED_PERMITS {
        rate as int
    } else {
        MAX_STORED_PERMITS as int
    }
}

/// The stream permits one refill adds: a twentieth of the rate while fewer
/// than `refill_threshold(rate)` permits are available, else none.
pub open spec fn spec_refill(rate: usize, available: int) -> int {
    if available < refill_threshold(rate) {
        rate as int / REFILLS_PER_SECOND as int
    } else {
        0
    }
}

/// The stream permits to add at a refill, given the rate limit and the
/// permits still available.
pub fn stream_refill(rate: usize, available: usize) -> (r: usize)
    ensures
        r == spec_refill(rate, available as int),
{
    let threshold = if rate < MAX_STORED_PERMITS { rate } else { MAX_STORED_PERMITS };
    if available < threshold {
        rate / REFILLS_PER_SECOND
    } else {
        0
    }
}

/// The number of permits requested for a chunk of `n` bytes; it is `n`
/// converted to `u32`, truncated to its low 32 bits as by `as`.
pub fn stream_permits(n: usize) -> (r: u32)
    ensures
        r == n as u32,
        n <= u32::MAX ==> r == n,
{
    n as u32
}

/// A refill adds a twentieth of the rate whenever fewer than the rate (and
/// fewer than 32768) permits are available, and nothing otherwise.
pub proof fn lemma_refill_rule(rate: usize, available: int)
    ensures
        (available < rate && available < 32768) ==> spec_refill(rate, available) == rate as int / 20,
        (available >= rate || available >= 32768) ==> spec_refill(rate, available) == 0,
{
}

/// The sum of `ns`.
pub open spec fn total(ns: Seq<nat>) -> int
    decreases ns.len(),
{
    if ns.len() == 0 {
        0
    } else {
        total(ns.drop_last()) + ns.last()
    }
}

/// The stream permits held after each refill interval, when `takes[i]`
/// permits are taken during interval `i`: the semaphore starts empty, and at
/// the end of each interval the refill tops up what the takes left.
pub open spec fn stream_level(rate: usize, takes: Seq<nat>) -> int
    decreases takes.len(),
{
    if takes.len() == 0 {
        0
    } else {
        let left = stream_level(rate, takes.drop_last()) - takes.last();
        left + spec_refill(rate, left)
    }
}

/// Whether every take finds the permits it takes: a semaphore hands out only
/// what it holds.
pub open spec fn takes_fit(rate: usize, takes: Seq<nat>) -> bool
    decreases takes.len(),
{
    takes.len() == 0 || (takes_fit(rate, takes.drop_last()) && takes.last() <= stream_level(
        rate,
        takes.drop_last(),
    ))
}

/// The most stream permits the semaphore ever holds: none without refills,
/// else one below the refill threshold plus one refill.
pub open spec fn stored_bound(rate: usize) -> int {
    if refill_threshold(rate) == 0 {
        0
    } else {
        refill_threshold(rate) - 1 + (rate / REFILLS_PER_SECOND) as int
    }
}

/// The rate limit holds over time: over `k` refill intervals (`k * 50` ms)
/// the permits taken, that is the bytes streamed, are at most `k` twentieths
/// of the rate (so at most `rate` a second), and the semaphore never holds
/// more than `stored_bound(rate)` permits.
pub proof fn lemma_stream_rate(rate: usize, takes: Seq<nat>)
    requires
        takes_fit(rate, takes),
    ensures
        total(takes) + stream_level(rate, takes) <= takes.len() * (rate / REFILLS_PER_SECOND) as int,
        total(takes) <= takes.len() * (rate / REFILLS_PER_SECOND) as int,
        0 <= stream_level(rate, takes) <= stored_bound(rate),
    decreases takes.len(),
{
    if takes.len() > 0 {
        let rest = takes.drop_last();
        lemma_stream_rate(rate, rest);
        assert(rate / REFILLS_PER_SECOND <= usize::MAX / 20);
        assert(takes.len() * (rate / REFILLS_PER_SECOND) as int == rest.len() * (rate / REFILLS_PER_SECOND) as int
            + (rate / REFILLS_PER_SECOND) as int) by (nonlinear_arith)
            requires
                takes.len() == rest.len() + 1,
        ;
        assert(0 <= (rate / REFILLS_PER_SECOND) as int) by (nonlinear_arith);
    }
}

} // verus!
