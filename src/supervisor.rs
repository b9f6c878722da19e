use vstd::prelude::*;

verus! {

/// Supervision of the relay process: holds the handle of the launched
/// process while it is believed alive, and gives it up exactly once to be
/// terminated. `H` is the handle of the launched process.
pub struct TorManager<H> {
    process: Option<H>,
}

impl<H> TorManager<H> {
    /// The handle of the process under supervision, if any.
    pub closed spec fn process(&self) -> Option<H> {
        self.process
    }

    /// `self` is `prev` after a stop that handed back `handed`.
    pub open spec fn stopped_from(&self, prev: TorManager<H>, handed: Option<H>) -> bool {
        &&& handed == prev.process()
        &&& self.process() is None
    }

    /// Begins supervising a launched relay process.
    pub fn start(process: H) -> (r: Self)
        ensures
            r.process() == Some(process),
    {
        TorManager { process: Some(process) }
    }

    /// A supervisor with no process under supervision.
    pub fn idle() -> (r: Self)
        ensures
            r.process() is None,
    {
        TorManager { process: None }
    }

    /// Stops supervising: hands back the process to terminate, if one was
    /// supervised, and supervises none afterwards.
    pub fn stop(&mut self) -> (r: Option<H>)
        ensures
            final(self).stopped_from(*old(self), r),
    {
        self.process.take()
    }

    /// Whether a process is under supervision.
    pub fn is_running(&self) -> (r: bool)
        ensures
            r == self.process() is Some,
    {
        self.process.is_some()
    }
}

/// Stopping twice in a row ends in the same state as stopping once, and the
/// second stop hands back no process.
pub proof fn lemma_stop_idempotent<H>(
    s0: TorManager<H>,
    s1: TorManager<H>,
    h1: Option<H>,
    s2: TorManager<H>,
    h2: Option<H>,
)
    requires
        s1.stopped_from(s0, h1),
        s2.stopped_from(s1, h2),
    ensures
        s2.process() == s1.process(),
        s2.process() is None,
        h2 is None,
        h1 == s0.process(),
{
}

} // verus!
