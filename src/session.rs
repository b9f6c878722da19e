use std::sync::Arc;
use vstd::prelude::*;

use crate::rotation::ProxyRotator;
use crate::shared::SharedRotator;
use crate::supervisor::TorManager;
use crate::text::{parse_proxy_list, proxy_list};

verus! {

/// The stages of a session, entered in this order and never re-entered.
#[derive(PartialEq, Eq, Structural, Clone, Copy, Debug)]
pub enum SessionPhase {
    Initializing,
    Running,
    ShuttingDown,
    Terminated,
}

/// Why a session could not start.
#[derive(PartialEq, Eq, Structural, Clone, Copy, Debug)]
pub enum StartupError {
    /// The relay executable could not be launched.
    RelaySpawnFailed,
    /// A proxy list was asked for and could not be read.
    ProxyFileUnreadable,
}

/// The outcome of launching the relay process.
pub enum RelayLaunch<H> {
    NotRequested,
    Started(H),
    Failed,
}

/// Where the proxy pool comes from.
pub enum ProxySource {
    /// No proxy list was asked for: direct connection.
    Absent,
    /// The text of the proxy list.
    Text(String),
    /// A proxy list was asked for and could not be read.
    Unreadable,
}

/// A failed start: the error, and the relay process that was launched before
/// the failure and must now be stopped.
pub struct StartupFailure<H> {
    pub error: StartupError,
    pub relay: Option<H>,
}

/// What the rotation task does after one tick.
pub enum RotationStep {
    /// Cancellation was observed: the task ends.
    Stop,
    /// The task goes on; carries the newly active endpoint if it rotated.
    Continue(Option<String>),
}

/// The pool that a proxy source gives; empty when there is none.
pub open spec fn source_pool(p: ProxySource) -> Seq<Seq<char>> {
    match p {
        ProxySource::Text(t) => proxy_list(t@),
        _ => Seq::empty(),
    }
}

/// The relay process that a launch outcome gives, if any.
pub open spec fn launched<H>(relay: RelayLaunch<H>) -> Option<H> {
    match relay {
        RelayLaunch::Started(h) => Some(h),
        _ => None,
    }
}

/// A session: its phase, the relay supervisor and, when the pool is not
/// empty, the shared rotation state.
pub struct Session<H> {
    phase: SessionPhase,
    supervisor: TorManager<H>,
    rotation: Option<Arc<SharedRotator>>,
}

impl<H> Session<H> {
    pub closed spec fn phase_spec(&self) -> SessionPhase {
        self.phase
    }

    pub closed spec fn relay(&self) -> Option<H> {
        self.supervisor.process()
    }

    pub closed spec fn rotation_spec(&self) -> Option<SharedRotator> {
        match self.rotation {
            Some(a) => Some(*a),
            None => None,
        }
    }

    pub closed spec fn wf(&self) -> bool {
        match self.rotation {
            Some(a) => a.wf(),
            None => true,
        }
    }

    /// Starts a session from the outcome of the relay launch and the proxy
    /// source: a failed launch is fatal first, an unreadable proxy list next;
    /// otherwise the session runs, rotating over the pool when it is not
    /// empty and connecting directly when it is.
    pub fn start(relay: RelayLaunch<H>, proxies: ProxySource, interval_secs: u64, now_ms: u64) -> (r:
        Result<Self, StartupFailure<H>>)
        ensures
            relay is Failed ==> (r matches Err(f) && f.error == StartupError::RelaySpawnFailed
                && f.relay is None),
            !(relay is Failed) && proxies is Unreadable ==> (r matches Err(f) && f.error
                == StartupError::ProxyFileUnreadable && f.relay == launched(relay)),
            !(relay is Failed) && !(proxies is Unreadable) ==> (r matches Ok(s) && s.wf()
                && s.phase_spec() == SessionPhase::Running && s.relay() == launched(relay) && (
            s.rotation_spec() is Some <==> source_pool(proxies).len() > 0) && (s.rotation_spec() matches Some(
                rot,
            ) ==> rot.pool() == source_pool(proxies) && rot.interval() == interval_secs)),
    {
        let supervisor = match relay {
            RelayLaunch::Failed => {
                return Err(StartupFailure { error: StartupError::RelaySpawnFailed, relay: None });
            },
            RelayLaunch::Started(h) => TorManager::start(h),
            RelayLaunch::NotRequested => TorManager::idle(),
        };
        let pool: Vec<String> = match proxies {
            ProxySource::Unreadable => {
                let mut supervisor = supervisor;
                let handle = supervisor.stop();
                return Err(StartupFailure { error: StartupError::ProxyFileUnreadable, relay: handle });
            },
            ProxySource::Text(t) => parse_proxy_list(t.as_str()),
            ProxySource::Absent => Vec::new(),
        };
        assert(pool@.map_values(|p: String| p@).len() == pool@.len());
        let rotation = if pool.len() > 0 {
            let rotator = ProxyRotator::new(pool, interval_secs, now_ms);
            Some(Arc::new(SharedRotator::new(rotator)))
        } else {
            None
        };
        Ok(Session { phase: SessionPhase::Running, supervisor, rotation })
    }

    /// The current phase.
    pub fn phase(&self) -> (r: SessionPhase)
        ensures
            r == self.phase_spec(),
    {
        self.phase
    }

    /// Whether the session rotates proxies; when it does not, it connects
    /// directly and no rotation task runs.
    pub fn rotation_enabled(&self) -> (r: bool)
        ensures
            r == self.rotation_spec() is Some,
    {
        self.rotation.is_some()
    }

    /// A handle on the shared rotation state, for the rotation task and the
    /// request path.
    pub fn rotation(&self) -> (r: Option<Arc<SharedRotator>>)
        ensures
            match r {
                Some(a) => self.rotation_spec() == Some(*a),
                None => self.rotation_spec() is None,
            },
    {
        match &self.rotation {
            Some(a) => Some(Arc::clone(a)),
            None => None,
        }
    }

    /// The proxy to route through now, or none for a direct connection.
    pub fn current_proxy(&self) -> (r: Option<String>)
        requires
            self.wf(),
        ensures
            self.rotation_spec() is None ==> r is None,
            self.rotation_spec() is Some ==> r is Some && exists|i: int|
                0 <= i < self.rotation_spec()->0.pool().len() && r->0@
                    == self.rotation_spec()->0.pool()[i],
    {
        match &self.rotation {
            Some(a) => {
                let c = a.current();
                let ghost rot = self.rotation_spec()->0;
                assert(rot == **a);
                let ghost i = choose|i: int| 0 <= i < (**a).pool().len() && c@ == (**a).pool()[i];
                assert(0 <= i < rot.pool().len() && c@ == rot.pool()[i]);
                Some(c)
            },
            None => None,
        }
    }

    /// One look at the cancellation flag while running: on cancellation the
    /// session moves to shutting down. Tells whether to keep waiting.
    pub fn observe(&mut self, cancelled: bool) -> (keep_waiting: bool)
        ensures
            keep_waiting == (old(self).phase_spec() == SessionPhase::Running && !cancelled),
            old(self).phase_spec() == SessionPhase::Running && cancelled ==> final(self).phase_spec() == SessionPhase::ShuttingDown,
            !(old(self).phase_spec() == SessionPhase::Running && cancelled) ==> final(self).phase_spec() == old(self).phase_spec(),
            final(self).relay() == old(self).relay(),
            final(self).rotation_spec() == old(self).rotation_spec(),
            final(self).wf() == old(self).wf(),
    {
        if self.phase == SessionPhase::Running && cancelled {
            self.phase = SessionPhase::ShuttingDown;
            false
        } else {
            self.phase == SessionPhase::Running
        }
    }

    /// Ends a session that is shutting down, once its rotation task has
    /// returned: hands back the relay process to terminate, if one was
    /// started, and leaves the session terminated with no process supervised.
    pub fn finish(&mut self) -> (r: Option<H>)
        requires
            old(self).phase_spec() == SessionPhase::ShuttingDown,
        ensures
            r == old(self).relay(),
            final(self).relay() is None,
            final(self).phase_spec() == SessionPhase::Terminated,
            final(self).rotation_spec() == old(self).rotation_spec(),
            final(self).wf() == old(self).wf(),
    {
        self.phase = SessionPhase::Terminated;
        self.supervisor.stop()
    }
}

/// One tick of the rotation task: ends on cancellation, otherwise rotates
/// when a rotation is due at `now_ms`.
pub fn rotation_step(rotator: &SharedRotator, cancelled: bool, now_ms: u64) -> (r: RotationStep)
    requires
        rotator.wf(),
    ensures
        cancelled <==> r is Stop,
        r matches RotationStep::Continue(Some(e)) ==> exists|prev: ProxyRotator, next: ProxyRotator|
            rotator.holds(prev) && rotator.holds(next) && prev.due(now_ms) && next.rotated_from(
                prev,
                now_ms,
            ) && e@ == next.current_spec(),
{
    if cancelled {
        RotationStep::Stop
    } else {
        RotationStep::Continue(rotator.tick(now_ms))
    }
}

} // verus!
