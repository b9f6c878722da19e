use vstd::prelude::*;

verus! {

/// The index that follows `i` in a circular pool of `n` entries.
pub open spec fn next_index(i: nat, n: nat) -> nat {
    (i + 1) % n
}

/// The index reached from `start` after `k` rotations in a pool of `n` entries.
pub open spec fn index_after(start: nat, n: nat, k: nat) -> nat
    decreases k,
{
    if k == 0 {
        start
    } else {
        next_index(index_after(start, n, (k - 1) as nat), n)
    }
}

/// Whether a rotation is due at `now_ms`, given the last rotation at `last_ms`
/// and an interval of `interval_secs` seconds (inclusive boundary).
pub open spec fn rotation_due(last_ms: int, interval_secs: int, now_ms: int) -> bool {
    now_ms - last_ms >= interval_secs * 1000
}

/// The rotation state: an ordered, non-empty pool of proxy endpoints, the
/// index of the active one, the monotonic time (in milliseconds) of the last
/// rotation, and the rotation interval in seconds.
pub struct ProxyRotator {
    proxies: Vec<String>,
    current_index: usize,
    last_rotation_ms: u64,
    interval_secs: u64,
}

impl ProxyRotator {
    pub closed spec fn pool(&self) -> Seq<Seq<char>> {
        self.proxies@.map_values(|p: String| p@)
    }

    pub closed spec fn index(&self) -> nat {
        self.current_index as nat
    }

    pub closed spec fn last(&self) -> u64 {
        self.last_rotation_ms
    }

    pub closed spec fn interval(&self) -> u64 {
        self.interval_secs
    }

    /// The pool is non-empty and the index points into it.
    pub open spec fn wf(&self) -> bool {
        &&& self.pool().len() > 0
        &&& self.index() < self.pool().len()
    }

    /// The endpoint that the index designates.
    pub open spec fn current_spec(&self) -> Seq<char> {
        self.pool()[self.index() as int]
    }

    pub open spec fn due(&self, now_ms: u64) -> bool {
        rotation_due(self.last() as int, self.interval() as int, now_ms as int)
    }

    /// `self` is `prev` after one rotation at `now_ms`.
    pub open spec fn rotated_from(&self, prev: ProxyRotator, now_ms: u64) -> bool {
        &&& self.pool() == prev.pool()
        &&& self.interval() == prev.interval()
        &&& self.index() == next_index(prev.index(), prev.pool().len())
        &&& self.last() == now_ms
    }

    /// Creates the rotation state for a non-empty pool, at the first entry,
    /// with the last rotation at `now_ms`.
    pub fn new(proxies: Vec<String>, interval_secs: u64, now_ms: u64) -> (r: Self)
        requires
            proxies@.len() > 0,
        ensures
            r.wf(),
            r.pool() == proxies@.map_values(|p: String| p@),
            r.index() == 0,
            r.last() == now_ms,
            r.interval() == interval_secs,
    {
        ProxyRotator { proxies, current_index: 0, last_rotation_ms: now_ms, interval_secs }
    }

    /// Moves to the next endpoint, circularly, and records `now_ms` as the
    /// time of the last rotation.
    pub fn rotate(&mut self, now_ms: u64)
        requires
            old(self).wf(),
        ensures
            final(self).wf(),
            final(self).rotated_from(*old(self), now_ms),
    {
        self.current_index = (self.current_index + 1) % self.proxies.len();
        self.last_rotation_ms = now_ms;
    }

    /// The active endpoint.
    pub fn current(&self) -> (r: &str)
        requires
            self.wf(),
        ensures
            r@ == self.current_spec(),
    {
        self.proxies[self.current_index].as_str()
    }

    /// Whether at least the interval has passed since the last rotation.
    pub fn should_rotate(&self, now_ms: u64) -> (r: bool)
        ensures
            r == self.due(now_ms),
    {
        if now_ms < self.last_rotation_ms {
            false
        } else {
            let elapsed: u64 = now_ms - self.last_rotation_ms;
            proof {
                vstd::arithmetic::div_mod::lemma_fundamental_div_mod(elapsed as int, 1000);
            }
            elapsed / 1000 >= self.interval_secs
        }
    }

    /// Rotates if a rotation is due at `now_ms`; tells whether it did.
    pub fn tick(&mut self, now_ms: u64) -> (rotated: bool)
        requires
            old(self).wf(),
        ensures
            final(self).wf(),
            rotated == old(self).due(now_ms),
            rotated ==> final(self).rotated_from(*old(self), now_ms),
            !rotated ==> *final(self) == *old(self),
    {
        if self.should_rotate(now_ms) {
            self.rotate(now_ms);
            true
        } else {
            false
        }
    }

    /// The rotation interval in seconds.
    pub fn interval_secs(&self) -> (r: u64)
        ensures
            r == self.interval(),
    {
        self.interval_secs
    }

    /// The time of the last rotation, in milliseconds.
    pub fn last_rotation_ms(&self) -> (r: u64)
        ensures
            r == self.last(),
    {
        self.last_rotation_ms
    }

    /// The index of the active endpoint.
    pub fn current_index(&self) -> (r: usize)
        ensures
            r == self.index(),
    {
        self.current_index
    }

    /// The number of endpoints in the pool.
    pub fn len(&self) -> (r: usize)
        ensures
            r == self.pool().len(),
    {
        self.proxies.len()
    }
}

/// After `k` rotations from the first entry of a pool of `n >= 1` entries the
/// index is `k mod n`.
pub proof fn lemma_rotation_count(n: nat, k: nat)
    requires
        n >= 1,
    ensures
        index_after(0, n, k) == k % n,
    decreases k,
{
    if k == 0 {
        vstd::arithmetic::div_mod::lemma_small_mod(0, n);
    } else {
        let prev = index_after(0, n, (k - 1) as nat);
        lemma_rotation_count(n, (k - 1) as nat);
        vstd::arithmetic::div_mod::lemma_add_mod_noop((k - 1) as int, 1, n as int);
        if n > 1 {
            vstd::arithmetic::div_mod::lemma_small_mod(1, n);
        } else {
            vstd::arithmetic::div_mod::lemma_mod_bound(k as int, 1);
            vstd::arithmetic::div_mod::lemma_mod_bound(prev as int + 1, 1);
        }
    }
}

/// Along a run of rotations that starts at the first entry, the `k`-th state
/// has the index `k mod N`, where `N` is the size of the pool.
pub proof fn lemma_rotation_run(states: Seq<ProxyRotator>, times: Seq<u64>)
    requires
        states.len() >= 1,
        times.len() + 1 == states.len(),
        states[0].wf(),
        states[0].index() == 0,
        forall|j: int| 0 <= j < times.len() ==> #[trigger] states[j + 1].rotated_from(states[j], times[j]),
    ensures
        forall|k: int| 0 <= k < states.len() ==> #[trigger] states[k].index() == k % (states[0].pool().len() as int),
        forall|k: int| 0 <= k < states.len() ==> #[trigger] states[k].pool() == states[0].pool(),
{
    let n = states[0].pool().len();
    assert forall|k: int| 0 <= k < states.len() implies #[trigger] states[k].pool() == states[0].pool()
        && states[k].index() == index_after(0, n, k as nat) by {
        lemma_run_prefix(states, times, k);
    }
    assert forall|k: int| 0 <= k < states.len() implies #[trigger] states[k].index() == k % (n as int) by {
        lemma_run_prefix(states, times, k);
        lemma_rotation_count(n, k as nat);
    }
}

proof fn lemma_run_prefix(states: Seq<ProxyRotator>, times: Seq<u64>, k: int)
    requires
        times.len() + 1 == states.len(),
        0 <= k < states.len(),
        states[0].index() == 0,
        forall|j: int| 0 <= j < times.len() ==> #[trigger] states[j + 1].rotated_from(states[j], times[j]),
    ensures
        states[k].pool() == states[0].pool(),
        states[k].index() == index_after(0, states[0].pool().len(), k as nat),
    decreases k,
{
    if k > 0 {
        lemma_run_prefix(states, times, k - 1);
        assert(states[(k - 1) + 1].rotated_from(states[k - 1], times[k - 1]));
    }
}

/// A rotation made at a time later than the previous rotation moves the
/// last-rotation timestamp strictly forward.
pub proof fn lemma_rotation_timestamp_advances(prev: ProxyRotator, next: ProxyRotator, now_ms: u64)
    requires
        next.rotated_from(prev, now_ms),
        now_ms > prev.last(),
    ensures
        next.last() > prev.last(),
{
}

/// A rotation is not due while less than the interval has passed since the
/// last one, and is due once exactly the interval has passed.
pub proof fn lemma_should_rotate_boundary(r: ProxyRotator, now_ms: u64)
    ensures
        now_ms - r.last() < r.interval() * 1000 ==> !r.due(now_ms),
        now_ms - r.last() == r.interval() * 1000 ==> r.due(now_ms),
{
}

} // verus!
