use vstd::prelude::*;
use vstd::arithmetic::div_mod::{lemma_add_mod_noop_right, lemma_mod_sub_multiples_vanish, lemma_small_mod};

verus! {

/// The time between two refills of the token bucket, in milliseconds.
pub const WATCH_INTERVAL_MS: usize = 50;

/// The size and refill speed of a token bucket.
pub struct Quota {
    replenish_per_millisecond: usize,
    max_burst: usize,
}

impl Quota {
    #[verifier::type_invariant]
    spec fn inv(self) -> bool {
        self.replenish_per_millisecond == self.max_burst / 1000
    }

    pub closed spec fn spec_replenish_per_millisecond(&self) -> usize {
        self.replenish_per_millisecond
    }

    pub closed spec fn spec_max_burst(&self) -> usize {
        self.max_burst
    }

    /// A bucket of `max_burst` bytes refilled at `max_burst` bytes a second
    /// (rounded down to whole bytes per millisecond).
    pub fn bytes_per_second(max_burst: usize) -> (r: Self)
        requires
            max_burst > 0,
        ensures
            r.spec_replenish_per_millisecond() == max_burst / 1000,
            r.spec_max_burst() == max_burst,
    {
        Quota { replenish_per_millisecond: max_burst / 1000, max_burst }
    }

    /// The tokens one refill adds: an interval's worth while fewer than
    /// `max_burst` tokens are available, else none.
    pub open spec fn spec_refill(&self, available: int) -> int {
        if available < self.spec_max_burst() {
            self.spec_replenish_per_millisecond() * WATCH_INTERVAL_MS
        } else {
            0
        }
    }

    pub fn refill(&self, available: usize) -> (r: usize)
        ensures
            r == self.spec_refill(available as int),
    {
        if available < self.max_burst {
            proof {
                use_type_invariant(self);
            }
            self.replenish_per_millisecond * WATCH_INTERVAL_MS
        } else {
            0
        }
    }
}

/// The tokens the bucket holds after each refill interval, when `takes[i]`
/// tokens are taken during interval `i`: the bucket starts empty, and at the
/// end of each interval the refill tops up what the takes left.
pub open spec fn bucket_level(q: Quota, takes: Seq<nat>) -> int
    decreases takes.len(),
{
    if takes.len() == 0 {
        0
    } else {
        let left = bucket_level(q, takes.drop_last()) - takes.last();
        left + q.spec_refill(left)
    }
}

/// Whether every take finds the tokens it takes.
pub open spec fn bucket_takes_fit(q: Quota, takes: Seq<nat>) -> bool
    decreases takes.len(),
{
    takes.len() == 0 || (bucket_takes_fit(q, takes.drop_last()) && takes.last() <= bucket_level(
        q,
        takes.drop_last(),
    ))
}

/// The sum of `ns`.
pub open spec fn taken(ns: Seq<nat>) -> int
    decreases ns.len(),
{
    if ns.len() == 0 {
        0
    } else {
        taken(ns.drop_last()) + ns.last()
    }
}

/// The token bucket holds over time: over `k` intervals (`k * 50` ms) the
/// tokens taken are at most `k` intervals' worth of refill, the bucket is
/// empty before the first refill, and it never holds more than one token
/// below `max_burst` plus one interval's worth.
pub proof fn lemma_bucket_rate(q: Quota, takes: Seq<nat>)
    requires
        q.spec_replenish_per_millisecond() == q.spec_max_burst() / 1000,
        q.spec_max_burst() > 0,
        bucket_takes_fit(q, takes),
    ensures
        taken(takes) + bucket_level(q, takes) <= takes.len() * (q.spec_replenish_per_millisecond() * WATCH_INTERVAL_MS),
        taken(takes) <= takes.len() * (q.spec_replenish_per_millisecond() * WATCH_INTERVAL_MS),
        0 <= bucket_level(q, takes) <= q.spec_max_burst() - 1 + q.spec_replenish_per_millisecond()
            * WATCH_INTERVAL_MS,
        bucket_level(q, Seq::empty()) == 0,
    decreases takes.len(),
{
    let p = q.spec_replenish_per_millisecond() * WATCH_INTERVAL_MS;
    assert(0 <= p <= usize::MAX / 20) by (nonlinear_arith)
        requires
            p == q.spec_replenish_per_millisecond() * WATCH_INTERVAL_MS,
            q.spec_replenish_per_millisecond() == q.spec_max_burst() / 1000,
            q.spec_max_burst() <= usize::MAX,
            WATCH_INTERVAL_MS == 50,
    ;
    if takes.len() > 0 {
        let rest = takes.drop_last();
        lemma_bucket_rate(q, rest);
        assert(takes.len() * p == rest.len() * p + p) by (nonlinear_arith)
            requires
                takes.len() == rest.len() + 1,
        ;
    }
}

/// A refill tops the bucket up by a whole interval's worth (50 ms of
/// `max_burst / 1000` tokens a millisecond) whenever fewer than `max_burst`
/// tokens are available, and adds nothing once `max_burst` are.
pub proof fn lemma_refill_whole_interval(q: Quota, available: int)
    ensures
        available < q.spec_max_burst() ==> q.spec_refill(available) == q.spec_replenish_per_millisecond() * 50,
        available >= q.spec_max_burst() ==> q.spec_refill(available) == 0,
{
}

/// A quota of `max_burst` bytes a second refills at most `max_burst` tokens
/// over the refills of one second.
pub proof fn lemma_quota_rate(max_burst: usize)
    ensures
        (max_burst / 1000) * WATCH_INTERVAL_MS * (1000usize / WATCH_INTERVAL_MS) <= max_burst,
{
    assert((max_burst / 1000) * 50 * 20 <= max_burst) by (nonlinear_arith);
}

/// Counts the bytes granted since the count was last taken. The count wraps
/// around on overflow, as an atomic `fetch_add` does.
pub struct TrafficCounter {
    count: usize,
}

impl View for TrafficCounter {
    type V = usize;

    closed spec fn view(&self) -> usize {
        self.count
    }
}

/// `a + b` wrapped around to `usize`.
pub open spec fn wrapping_sum(a: usize, b: usize) -> usize {
    if a + b <= usize::MAX {
        (a + b) as usize
    } else {
        (a + b - usize::MAX - 1) as usize
    }
}

impl TrafficCounter {
    pub fn new() -> (r: Self)
        ensures
            r@ == 0,
    {
        TrafficCounter { count: 0 }
    }

    /// Counts `n` more bytes.
    pub fn record(&mut self, n: usize)
        ensures
            final(self)@ == wrapping_sum(old(self)@, n),
    {
        if self.count <= usize::MAX - n {
            self.count = self.count + n;
        } else {
            self.count = n - (usize::MAX - self.count) - 1;
        }
    }

    /// Takes the count: returns it and starts again from zero.
    pub fn poll_counter(&mut self) -> (r: usize)
        ensures
            r == old(self)@,
            final(self)@ == 0,
    {
        let value = self.count;
        self.count = 0;
        value
    }
}

/// The count after recording each size of `ns`, in turn, from zero.
pub open spec fn counted(ns: Seq<usize>) -> usize
    decreases ns.len(),
{
    if ns.len() == 0 {
        0
    } else {
        wrapping_sum(counted(ns.drop_last()), ns.last())
    }
}

/// The sum of `ns`.
pub open spec fn sum_of(ns: Seq<usize>) -> int
    decreases ns.len(),
{
    if ns.len() == 0 {
        0
    } else {
        sum_of(ns.drop_last()) + ns.last()
    }
}

proof fn lemma_wrapping_sum_mod(a: usize, b: usize)
    ensures
        wrapping_sum(a, b) as int == (a + b) % (usize::MAX as int + 1),
{
    let m = usize::MAX as int + 1;
    if a + b <= usize::MAX {
        lemma_small_mod((a + b) as nat, m as nat);
    } else {
        lemma_small_mod((a + b - m) as nat, m as nat);
        lemma_mod_sub_multiples_vanish(a + b, m);
    }
}

/// The count taken from a counter is the total of the sizes recorded since
/// it was last taken (so zero right after a take), wrapped around to
/// `usize`: exactly the total when that fits.
pub proof fn lemma_counter_total(ns: Seq<usize>)
    ensures
        counted(ns) as int == sum_of(ns) % (usize::MAX as int + 1),
        sum_of(ns) <= usize::MAX ==> counted(ns) == sum_of(ns),
        counted(Seq::empty()) == 0,
    decreases ns.len(),
{
    let m = usize::MAX as int + 1;
    if ns.len() > 0 {
        let rest = ns.drop_last();
        lemma_counter_total(rest);
        lemma_wrapping_sum_mod(counted(rest), ns.last());
        lemma_add_mod_noop_right(ns.last() as int, sum_of(rest), m);
        assert(sum_of(ns) == sum_of(rest) + ns.last());
        assert((ns.last() + sum_of(rest) % m) % m == (ns.last() + sum_of(rest)) % m);
    }
    if sum_of(ns) <= usize::MAX {
        lemma_sum_nonneg(ns);
        lemma_small_mod(sum_of(ns) as nat, m as nat);
    }
}

proof fn lemma_sum_nonneg(ns: Seq<usize>)
    ensures
        sum_of(ns) >= 0,
    decreases ns.len(),
{
    if ns.len() > 0 {
        lemma_sum_nonneg(ns.drop_last());
    }
}

} // verus!
