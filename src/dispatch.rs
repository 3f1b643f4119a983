use std::sync::Arc;
use vstd::prelude::*;

verus! {

/// Relies on `Arc::clone`: the new handle points at the same value.
#[verifier::external_body]
fn share_arc<E>(a: &Arc<E>) -> (r: Arc<E>)
    ensures
        r == *a,
{
    Arc::clone(a)
}

/// One error, shared by every request that it fails.
#[derive(Debug)]
pub struct Failed<E> {
    pub error: Arc<E>,
}

impl<E> Failed<E> {
    pub fn new(error: E) -> (r: Failed<E>)
        ensures
            *r.error == error,
    {
        Failed { error: Arc::new(error) }
    }

    /// Another handle on the same failure.
    pub fn share(&self) -> (r: Failed<E>)
        ensures
            r == *self,
    {
        Failed { error: share_arc(&self.error) }
    }
}

/// A queued request and the sender of its one reply.
#[derive(Debug)]
pub struct InFlight<Req, Tx> {
    pub request: Req,
    pub tx: Tx,
}

/// Pairs the reply sender of every pending request with the shared failure,
/// in the order in which the requests were queued.
pub fn broadcast_failure<Req, Tx, E>(pending: Vec<InFlight<Req, Tx>>, failed: &Failed<E>) -> (r:
    Vec<(Tx, Failed<E>)>)
    ensures
        r@.len() == pending@.len(),
        forall|i: int| 0 <= i < r@.len() ==> (#[trigger] r@[i]).0 == pending@[i].tx && r@[i].1
            == *failed,
{
    let ghost all = pending@;
    let mut rest = pending;
    let mut out: Vec<(Tx, Failed<E>)> = Vec::new();
    while rest.len() > 0
        invariant
            out@.len() + rest@.len() == all.len(),
            rest@ == all.subrange(out@.len() as int, all.len() as int),
            forall|i: int| 0 <= i < out@.len() ==> (#[trigger] out@[i]).0 == all[i].tx && out@[i].1
                == *failed,
        decreases rest@.len(),
    {
        let env = rest.remove(0);
        out.push((env.tx, failed.share()));
        assert(rest@ =~= all.subrange(out@.len() as int, all.len() as int));
    }
    out
}

/// The outcome of a readiness check of the inner service.
#[derive(Clone, Copy, Debug, PartialEq, Eq, Structural)]
pub enum Readiness<E> {
    Ready,
    Pending,
    Failed(E),
}

/// The outcome of an attempt to take the next request from the channel.
#[derive(Clone, Copy, Debug, PartialEq, Eq, Structural)]
pub enum Received<Req> {
    Item(Req),
    /// Nothing is queued, at time `now` (in milliseconds).
    Empty { now: u64 },
    Closed,
}

/// What the driver of the loop observed.
#[derive(Clone, Copy, Debug, PartialEq, Eq, Structural)]
pub enum DispatchEvent<Req, E> {
    Readiness(Readiness<E>),
    Received(Received<Req>),
    /// The probe timer woke the loop at time `now`.
    ProbeFired { now: u64 },
}

/// What the driver of the loop does next.
#[derive(Clone, Copy, Debug, PartialEq, Eq, Structural)]
pub enum DispatchAction<Req, E> {
    /// Check the inner service's readiness.
    PollReady,
    /// Wait until the inner service signals renewed interest, then check again.
    Suspend,
    /// Try to take the next request without waiting.
    Recv,
    /// Call the inner service with the request, deliver its result to the
    /// request's reply on its own, then receive again.
    Call(Req),
    /// Wait for whichever comes first: a request, or the probe timer at `deadline`.
    AwaitEither { deadline: u64 },
    /// Fail every queued request with this error, then stop.
    Fail(E),
    /// The channel closed: stop.
    Finish,
    /// The event does not apply to the loop's phase.
    Ignore,
}

/// Where the loop stands.
#[derive(Clone, Copy, Debug, PartialEq, Eq, Structural)]
pub enum Phase {
    /// Waiting for the result of a readiness check.
    CheckReady,
    /// The service is ready; requests are taken from the channel. While
    /// `probe` holds a deadline the loop is idle and readiness is checked
    /// again once that deadline has passed.
    Receiving { probe: Option<u64> },
    Done,
}

/// One step of the loop: its next phase and the driver's action.
pub open spec fn dispatch_next<Req, E>(timeout: u64, p: Phase, ev: DispatchEvent<Req, E>) -> (
    Phase,
    DispatchAction<Req, E>,
) {
    match p {
        Phase::Done => (p, DispatchAction::Ignore),
        Phase::CheckReady => match ev {
            DispatchEvent::Readiness(Readiness::Ready) => (
                Phase::Receiving { probe: None },
                DispatchAction::Recv,
            ),
            DispatchEvent::Readiness(Readiness::Pending) => (p, DispatchAction::Suspend),
            DispatchEvent::Readiness(Readiness::Failed(e)) => (Phase::Done, DispatchAction::Fail(e)),
            _ => (p, DispatchAction::Ignore),
        },
        Phase::Receiving { probe } => match ev {
            DispatchEvent::Received(Received::Item(req)) => (p, DispatchAction::Call(req)),
            DispatchEvent::Received(Received::Closed) => (Phase::Done, DispatchAction::Finish),
            DispatchEvent::Received(Received::Empty { now }) => match probe {
                None => (
                    Phase::Receiving { probe: Some(now.saturating_add(timeout)) },
                    DispatchAction::AwaitEither { deadline: now.saturating_add(timeout) },
                ),
                Some(d) => (p, DispatchAction::AwaitEither { deadline: d }),
            },
            DispatchEvent::ProbeFired { now } => match probe {
                Some(d) => if now >= d {
                    (Phase::CheckReady, DispatchAction::PollReady)
                } else {
                    (p, DispatchAction::AwaitEither { deadline: d })
                },
                None => (p, DispatchAction::Ignore),
            },
            DispatchEvent::Readiness(_) => (p, DispatchAction::Ignore),
        },
    }
}

/// The phases and actions of the loop over a sequence of events.
pub open spec fn dispatch_run<Req, E>(timeout: u64, p: Phase, evs: Seq<DispatchEvent<Req, E>>) -> (
    Phase,
    Seq<DispatchAction<Req, E>>,
)
    decreases evs.len(),
{
    if evs.len() == 0 {
        (p, Seq::empty())
    } else {
        let (p1, a) = dispatch_next(timeout, p, evs[0]);
        let (pn, acts) = dispatch_run(timeout, p1, evs.drop_first());
        (pn, seq![a] + acts)
    }
}

/// The decisions of the loop that drives one inner service on behalf of a
/// channel of requests. It starts by checking readiness.
#[derive(Clone, Copy, Debug, PartialEq, Eq, Structural)]
pub struct Dispatch {
    probe_timeout: u64,
    phase: Phase,
}

impl Dispatch {
    pub closed spec fn timeout(&self) -> u64 {
        self.probe_timeout
    }

    pub closed spec fn current(&self) -> Phase {
        self.phase
    }

    /// A loop whose idle probe fires after `probe_timeout` milliseconds.
    pub fn new(probe_timeout: u64) -> (r: Dispatch)
        ensures
            r.timeout() == probe_timeout,
            r.current() == Phase::CheckReady,
    {
        Dispatch { probe_timeout, phase: Phase::CheckReady }
    }

    pub fn phase(&self) -> (r: Phase)
        ensures
            r == self.current(),
    {
        self.phase
    }

    pub fn probe_timeout(&self) -> (r: u64)
        ensures
            r == self.timeout(),
    {
        self.probe_timeout
    }

    /// Handles one event.
    pub fn step<Req, E>(&mut self, ev: DispatchEvent<Req, E>) -> (r: DispatchAction<Req, E>)
        ensures
            final(self).timeout() == old(self).timeout(),
            (final(self).current(), r) == dispatch_next(old(self).timeout(), old(self).current(), ev),
    {
        let (phase, action) = match self.phase {
            Phase::Done => (self.phase, DispatchAction::Ignore),
            Phase::CheckReady => match ev {
                DispatchEvent::Readiness(Readiness::Ready) => (
                    Phase::Receiving { probe: None },
                    DispatchAction::Recv,
                ),
                DispatchEvent::Readiness(Readiness::Pending) => (self.phase, DispatchAction::Suspend),
                DispatchEvent::Readiness(Readiness::Failed(e)) => (Phase::Done, DispatchAction::Fail(e)),
                _ => (self.phase, DispatchAction::Ignore),
            },
            Phase::Receiving { probe } => match ev {
                DispatchEvent::Received(Received::Item(req)) => (self.phase, DispatchAction::Call(req)),
                DispatchEvent::Received(Received::Closed) => (Phase::Done, DispatchAction::Finish),
                DispatchEvent::Received(Received::Empty { now }) => match probe {
                    None => {
                        let deadline = now.saturating_add(self.probe_timeout);
                        (Phase::Receiving { probe: Some(deadline) }, DispatchAction::AwaitEither { deadline })
                    },
                    Some(d) => (self.phase, DispatchAction::AwaitEither { deadline: d }),
                },
                DispatchEvent::ProbeFired { now } => match probe {
                    Some(d) => if now >= d {
                        (Phase::CheckReady, DispatchAction::PollReady)
                    } else {
                        (self.phase, DispatchAction::AwaitEither { deadline: d })
                    },
                    None => (self.phase, DispatchAction::Ignore),
                },
                DispatchEvent::Readiness(_) => (self.phase, DispatchAction::Ignore),
            },
        };
        self.phase = phase;
        action
    }
}

/// Once the readiness check fails, the loop stops with that error and never
/// calls the inner service again, whatever happens next; every request still
/// queued is then failed with it by `broadcast_failure`.
pub proof fn lemma_failure_stops_dispatch<Req, E>(
    timeout: u64,
    e: E,
    evs: Seq<DispatchEvent<Req, E>>,
)
    ensures
        dispatch_next(timeout, Phase::CheckReady, DispatchEvent::<Req, E>::Readiness(Readiness::Failed(e)))
            == (Phase::Done, DispatchAction::<Req, E>::Fail(e)),
        dispatch_run(timeout, Phase::Done, evs).0 == Phase::Done,
        dispatch_run(timeout, Phase::Done, evs).1.len() == evs.len(),
        forall|i: int|
            0 <= i < evs.len() ==> #[trigger] dispatch_run(timeout, Phase::Done, evs).1[i]
                == DispatchAction::<Req, E>::Ignore,
    decreases evs.len(),
{
    if evs.len() > 0 {
        let rest = evs.drop_first();
        lemma_failure_stops_dispatch(timeout, e, rest);
        let acts = dispatch_run(timeout, Phase::Done, evs).1;
        assert forall|i: int| 0 <= i < evs.len() implies #[trigger] acts[i]
            == DispatchAction::<Req, E>::Ignore by {
            if i > 0 {
                assert(acts[i] == dispatch_run(timeout, Phase::Done, rest).1[i - 1]);
            }
        }
    }
}

/// The loop is idle with its probe due at `deadline`, or done.
pub open spec fn idle_until(p: Phase, deadline: u64) -> bool {
    p == Phase::Receiving { probe: Some(deadline) } || p == Phase::Done
}

/// With an empty channel and a ready service the loop arms its probe for the
/// configured interval; before that deadline no event makes it check
/// readiness again, and a closed channel ends it.
pub proof fn lemma_idle_probe_holds_off<Req, E>(
    timeout: u64,
    now: u64,
    p: Phase,
    deadline: u64,
    evs: Seq<DispatchEvent<Req, E>>,
)
    requires
        idle_until(p, deadline),
        forall|i: int|
            0 <= i < evs.len() ==> (#[trigger] evs[i] matches DispatchEvent::ProbeFired { now: t }
                ==> t < deadline),
    ensures
        dispatch_next(
            timeout,
            Phase::Receiving { probe: None },
            DispatchEvent::<Req, E>::Received(Received::Empty { now }),
        ) == (
            Phase::Receiving { probe: Some(now.saturating_add(timeout)) },
            DispatchAction::<Req, E>::AwaitEither { deadline: now.saturating_add(timeout) },
        ),
        dispatch_next(timeout, p, DispatchEvent::<Req, E>::Received(Received::Closed)).0
            == Phase::Done,
        idle_until(dispatch_run(timeout, p, evs).0, deadline),
        dispatch_run(timeout, p, evs).1.len() == evs.len(),
        forall|i: int|
            0 <= i < evs.len() ==> !(#[trigger] dispatch_run(timeout, p, evs).1[i] is PollReady),
    decreases evs.len(),
{
    if evs.len() > 0 {
        let p1 = dispatch_next(timeout, p, evs[0]).0;
        let rest = evs.drop_first();
        assert forall|i: int| 0 <= i < rest.len() implies (#[trigger] rest[i] matches DispatchEvent::ProbeFired {
            now: t,
        } ==> t < deadline) by {
            assert(rest[i] == evs[i + 1]);
        }
        assert(evs[0] matches DispatchEvent::ProbeFired { now: t } ==> t < deadline);
        lemma_idle_probe_holds_off(timeout, now, p1, deadline, rest);
        let acts = dispatch_run(timeout, p, evs).1;
        assert forall|i: int| 0 <= i < evs.len() implies !(#[trigger] acts[i] is PollReady) by {
            if i > 0 {
                assert(acts[i] == dispatch_run(timeout, p1, rest).1[i - 1]);
            }
        }
    }
}

/// Requests taken from the channel one after another are handed to the
/// inner service in the same order, without a readiness check in between.
pub proof fn lemma_calls_in_queue_order<Req, E>(timeout: u64, probe: Option<u64>, reqs: Seq<Req>)
    ensures
        dispatch_run(
            timeout,
            Phase::Receiving { probe },
            reqs.map_values(|r: Req| DispatchEvent::<Req, E>::Received(Received::Item(r))),
        ) == (
            Phase::Receiving { probe },
            reqs.map_values(|r: Req| DispatchAction::<Req, E>::Call(r)),
        ),
    decreases reqs.len(),
{
    let evs = reqs.map_values(|r: Req| DispatchEvent::<Req, E>::Received(Received::Item(r)));
    let calls = reqs.map_values(|r: Req| DispatchAction::<Req, E>::Call(r));
    if reqs.len() > 0 {
        let rest = reqs.drop_first();
        lemma_calls_in_queue_order::<Req, E>(timeout, probe, rest);
        assert(evs.drop_first() =~= rest.map_values(
            |r: Req| DispatchEvent::<Req, E>::Received(Received::Item(r)),
        ));
        assert(calls =~= seq![DispatchAction::<Req, E>::Call(reqs[0])] + rest.map_values(
            |r: Req| DispatchAction::<Req, E>::Call(r),
        ));
    } else {
        assert(calls =~= Seq::empty());
    }
}

} // verus!
