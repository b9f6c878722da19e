use vstd::prelude::*;
use vstd::rwlock::RwLock;

use crate::rotation::ProxyRotator;

verus! {

/// A consistent reading of the rotation state: the active endpoint together
/// with the time of the rotation that made it active.
pub struct RotationSnapshot {
    pub endpoint: String,
    pub last_rotation_ms: u64,
}

/// The rotation state shared between the request path and the rotation
/// task. Every read and every rotation happens under one lock, so readers see
/// only states that the rotator actually held.
pub struct SharedRotator {
    lock: RwLock<ProxyRotator, spec_fn(ProxyRotator) -> bool>,
    pool: Ghost<Seq<Seq<char>>>,
    interval_secs: u64,
}

impl SharedRotator {
    /// The pool, which never changes while the rotator is shared.
    pub closed spec fn pool(&self) -> Seq<Seq<char>> {
        self.pool@
    }

    /// The rotation interval in seconds.
    pub closed spec fn interval(&self) -> u64 {
        self.interval_secs
    }

    /// The states that the lock may hold: well formed, over the same pool and
    /// interval.
    pub open spec fn holds(&self, r: ProxyRotator) -> bool {
        &&& r.wf()
        &&& r.pool() == self.pool()
        &&& r.interval() == self.interval()
    }

    pub closed spec fn wf(&self) -> bool {
        &&& self.pool@.len() > 0
        &&& forall|r: ProxyRotator| #[trigger] self.lock.inv(r) <==> self.holds(r)
    }

    /// Puts a well-formed rotator behind the lock.
    pub fn new(rotator: ProxyRotator) -> (s: Self)
        requires
            rotator.wf(),
        ensures
            s.wf(),
            s.pool() == rotator.pool(),
            s.interval() == rotator.interval(),
    {
        let ghost pool = rotator.pool();
        let interval_secs = rotator.interval_secs();
        let ghost pred = |r: ProxyRotator| r.wf() && r.pool() == pool && r.interval() == interval_secs;
        let lock = RwLock::new(rotator, Ghost(pred));
        SharedRotator { lock, pool: Ghost(pool), interval_secs }
    }

    /// The rotation interval in seconds.
    pub fn interval_secs(&self) -> (r: u64)
        ensures
            r == self.interval(),
    {
        self.interval_secs
    }

    /// The active endpoint; always an entry of the pool.
    pub fn current(&self) -> (r: String)
        requires
            self.wf(),
        ensures
            exists|s: ProxyRotator| self.holds(s) && r@ == s.current_spec(),
            exists|i: int| 0 <= i < self.pool().len() && r@ == self.pool()[i],
    {
        let handle = self.lock.acquire_read();
        let rotator = handle.borrow();
        let r = rotator.current().to_string();
        handle.release_read();
        r
    }

    /// The active endpoint and the time of the last rotation, both read from
    /// one state of the rotator.
    pub fn snapshot(&self) -> (r: RotationSnapshot)
        requires
            self.wf(),
        ensures
            exists|s: ProxyRotator|
                self.holds(s) && r.endpoint@ == s.current_spec() && r.last_rotation_ms == s.last(),
    {
        let handle = self.lock.acquire_read();
        let rotator = handle.borrow();
        let r = RotationSnapshot {
            endpoint: rotator.current().to_string(),
            last_rotation_ms: rotator.last_rotation_ms(),
        };
        handle.release_read();
        r
    }

    /// Under the lock, rotates if a rotation is due at `now_ms`. Returns the
    /// newly active endpoint when it rotated.
    pub fn tick(&self, now_ms: u64) -> (r: Option<String>)
        requires
            self.wf(),
        ensures
            r matches Some(e) ==> exists|prev: ProxyRotator, next: ProxyRotator|
                self.holds(prev) && self.holds(next) && prev.due(now_ms) && next.rotated_from(
                    prev,
                    now_ms,
                ) && e@ == next.current_spec(),
    {
        let (mut rotator, handle) = self.lock.acquire_write();
        let ghost prev = rotator;
        let r = if rotator.tick(now_ms) {
            Some(rotator.current().to_string())
        } else {
            None
        };
        assert(self.holds(rotator));
        handle.release_write(rotator);
        r
    }
}

} // verus!
