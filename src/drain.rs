use vstd::prelude::*;

verus! {

/// The graceful-shutdown bookkeeping shared by every connection: whether the
/// shutdown signal was sent, and how many tasks still hold a registration.
#[derive(Clone, Copy, Debug, PartialEq, Eq, Structural)]
pub struct Drain {
    signaled: bool,
    live: u64,
}

impl Drain {
    pub closed spec fn is_signaled(&self) -> bool {
        self.signaled
    }

    pub closed spec fn live_count(&self) -> nat {
        self.live as nat
    }

    /// The bookkeeping once the shutdown signal has been sent.
    pub closed spec fn after_signal(&self) -> Drain {
        Drain { signaled: true, ..*self }
    }

    /// Shutdown has been asked for and no registered task is left.
    pub open spec fn quiesced(&self) -> bool {
        self.is_signaled() && self.live_count() == 0
    }

    pub fn new() -> (r: Drain)
        ensures
            !r.is_signaled(),
            r.live_count() == 0,
    {
        Drain { signaled: false, live: 0 }
    }

    /// Registers one more task whose end the shutdown waits for.
    pub fn register(&mut self)
        requires
            old(self).live_count() < u64::MAX,
        ensures
            final(self).live_count() == old(self).live_count() + 1,
            final(self).is_signaled() == old(self).is_signaled(),
    {
        self.live = self.live + 1;
    }

    /// Drops the registration of a task that has ended.
    pub fn release(&mut self)
        requires
            old(self).live_count() > 0,
        ensures
            final(self).live_count() == old(self).live_count() - 1,
            final(self).is_signaled() == old(self).is_signaled(),
    {
        self.live = self.live - 1;
    }

    /// Sends the shutdown signal.
    pub fn signal(&mut self)
        ensures
            *final(self) == old(self).after_signal(),
            final(self).is_signaled(),
            final(self).live_count() == old(self).live_count(),
    {
        self.signaled = true;
    }

    pub fn is_quiesced(&self) -> (r: bool)
        ensures
            r == self.quiesced(),
    {
        self.signaled && self.live == 0
    }

    pub fn live(&self) -> (r: u64)
        ensures
            r == self.live_count(),
    {
        self.live
    }
}

/// Signalling shutdown when no task is registered quiesces at once, and
/// while any task is registered it does not.
pub proof fn lemma_signal_when_idle_quiesces(d: Drain)
    ensures
        d.after_signal().quiesced() <==> d.live_count() == 0,
{
}

} // verus!
