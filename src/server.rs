use crate::drain::Drain;
use crate::protocol::{AcceptMeta, HttpVersion, Protocol};
use vstd::prelude::*;

verus! {

/// HTTP/2 window settings applied to every HTTP/2 connection.
#[derive(Clone, Copy, Debug, PartialEq, Eq, Structural)]
pub struct H2Settings {
    pub initial_stream_window_size: Option<u32>,
    pub initial_connection_window_size: Option<u32>,
}

/// How the HTTP server for one connection is configured.
#[derive(Clone, Copy, Debug, PartialEq, Eq, Structural)]
pub struct HttpConfig {
    pub http1_only: bool,
    pub http2_only: bool,
    pub with_upgrades: bool,
    pub adaptive_window: bool,
    pub initial_stream_window_size: Option<u32>,
    pub initial_connection_window_size: Option<u32>,
}

/// The configuration that every connection starts from.
pub open spec fn base_config(h2: H2Settings) -> HttpConfig {
    HttpConfig {
        http1_only: false,
        http2_only: false,
        with_upgrades: false,
        adaptive_window: true,
        initial_stream_window_size: h2.initial_stream_window_size,
        initial_connection_window_size: h2.initial_connection_window_size,
    }
}

/// The configuration used to serve a connection of the given version:
/// HTTP/1 only and with upgrades, or HTTP/2 only.
pub open spec fn config_for(base: HttpConfig, version: HttpVersion) -> HttpConfig {
    match version {
        HttpVersion::Http1 => HttpConfig { http1_only: true, with_upgrades: true, ..base },
        HttpVersion::H2 => HttpConfig { http2_only: true, ..base },
    }
}

/// How one connection is served, chosen from its detected protocol.
#[derive(Clone, Debug)]
pub enum ConnectionPlan<F, H> {
    /// Forward the raw stream with a clone of the forwarding capability; the
    /// shutdown signal is ignored and only the forward's end is awaited.
    Forward { forward: F, tls: AcceptMeta },
    /// Build a request service with the factory and serve HTTP over the
    /// stream; the shutdown signal triggers a graceful shutdown.
    Serve { make_http: H, tls: AcceptMeta, version: HttpVersion, config: HttpConfig },
}

/// A protocol-transparent server: each accepted connection is either
/// forwarded as raw TCP or served as HTTP/1 or HTTP/2.
#[derive(Clone, Debug)]
pub struct Server<F, H> {
    http: HttpConfig,
    forward_tcp: F,
    make_http: H,
}

impl<F: Clone, H: Clone> Server<F, H> {
    /// The configuration shared by every connection.
    pub closed spec fn config(&self) -> HttpConfig {
        self.http
    }

    pub fn new(forward_tcp: F, make_http: H, h2: H2Settings) -> (r: Server<F, H>)
        ensures
            r.config() == base_config(h2),
    {
        let http = HttpConfig {
            http1_only: false,
            http2_only: false,
            with_upgrades: false,
            adaptive_window: true,
            initial_stream_window_size: h2.initial_stream_window_size,
            initial_connection_window_size: h2.initial_connection_window_size,
        };
        Server { http, forward_tcp, make_http }
    }

    /// Chooses how a connection is served: without HTTP it is forwarded, and
    /// no HTTP service is built; with HTTP it is served with the
    /// configuration for its version.
    pub fn call(&self, proto: Protocol) -> (r: ConnectionPlan<F, H>)
        ensures
            proto.http is None ==> (r matches ConnectionPlan::Forward { tls, .. } && tls
                == proto.tls),
            proto.http matches Some(v) ==> (r matches ConnectionPlan::Serve {
                tls,
                version,
                config,
                ..
            } && tls == proto.tls && version == v && config == config_for(self.config(), v)),
    {
        match proto.http {
            None => ConnectionPlan::Forward { forward: self.forward_tcp.clone(), tls: proto.tls },
            Some(version) => {
                let mut config = self.http;
                match version {
                    HttpVersion::Http1 => {
                        config.http1_only = true;
                        config.with_upgrades = true;
                    },
                    HttpVersion::H2 => {
                        config.http2_only = true;
                    },
                }
                ConnectionPlan::Serve {
                    make_http: self.make_http.clone(),
                    tls: proto.tls,
                    version,
                    config,
                }
            },
        }
    }
}

/// The state of one connection after detection.
#[derive(Clone, Copy, Debug, PartialEq, Eq, Structural)]
pub enum ConnState {
    Forwarding,
    Serving { version: HttpVersion, in_flight: u64, draining: bool },
    Closed,
}

/// What happened on a connection.
#[derive(Clone, Copy, Debug, PartialEq, Eq, Structural)]
pub enum ConnEvent {
    /// The shutdown signal reached the connection.
    Shutdown,
    /// The raw forward completed.
    ForwardDone,
    /// A request arrived; `upgrade` marks a CONNECT or upgrade request.
    RequestStart { upgrade: bool },
    /// An in-flight request completed.
    RequestDone,
    /// The peer or the transport ended the connection.
    Ended,
}

/// What the connection's driver does in answer.
#[derive(Clone, Copy, Debug, PartialEq, Eq, Structural)]
pub enum ConnAction {
    Continue,
    /// Begin serving the request, with the protocol upgrade honoured.
    Accept { upgrade: bool },
    /// Do not begin a new request cycle.
    Refuse,
    /// Stop accepting requests and let those in flight finish.
    GracefulShutdown,
    /// Close the connection; its drain registration is released.
    Close,
}

/// The state at the start of serving a connection.
pub open spec fn initial_state(http: Option<HttpVersion>) -> ConnState {
    match http {
        None => ConnState::Forwarding,
        Some(v) => ConnState::Serving { version: v, in_flight: 0, draining: false },
    }
}

/// One step of a connection: its next state and the driver's action.
pub open spec fn next(s: ConnState, ev: ConnEvent) -> (ConnState, ConnAction) {
    match s {
        ConnState::Closed => (s, ConnAction::Continue),
        ConnState::Forwarding => match ev {
            ConnEvent::ForwardDone | ConnEvent::Ended => (ConnState::Closed, ConnAction::Close),
            _ => (s, ConnAction::Continue),
        },
        ConnState::Serving { version, in_flight, draining } => match ev {
            ConnEvent::Shutdown => if in_flight == 0 {
                (ConnState::Closed, ConnAction::Close)
            } else {
                (
                    ConnState::Serving { version, in_flight, draining: true },
                    ConnAction::GracefulShutdown,
                )
            },
            ConnEvent::RequestStart { upgrade } => if draining || in_flight == u64::MAX {
                (s, ConnAction::Refuse)
            } else {
                (
                    ConnState::Serving { version, in_flight: (in_flight + 1) as u64, draining },
                    ConnAction::Accept { upgrade: upgrade && version == HttpVersion::Http1 },
                )
            },
            ConnEvent::RequestDone => if in_flight == 0 {
                (s, ConnAction::Continue)
            } else if draining && in_flight == 1 {
                (ConnState::Closed, ConnAction::Close)
            } else {
                (
                    ConnState::Serving { version, in_flight: (in_flight - 1) as u64, draining },
                    ConnAction::Continue,
                )
            },
            ConnEvent::Ended => (ConnState::Closed, ConnAction::Close),
            ConnEvent::ForwardDone => (s, ConnAction::Continue),
        },
    }
}

/// The states and actions of a connection over a sequence of events.
pub open spec fn run(s: ConnState, evs: Seq<ConnEvent>) -> (ConnState, Seq<ConnAction>)
    decreases evs.len(),
{
    if evs.len() == 0 {
        (s, Seq::empty())
    } else {
        let (s1, a) = next(s, evs[0]);
        let (sn, acts) = run(s1, evs.drop_first());
        (sn, seq![a] + acts)
    }
}

/// One connection, registered with the drain while it is open.
#[derive(Clone, Copy, Debug, PartialEq, Eq, Structural)]
pub struct Connection {
    pub state: ConnState,
}

impl Connection {
    /// Opens a connection with the detected protocol and registers it with
    /// the drain.
    pub fn open(http: Option<HttpVersion>, drain: &mut Drain) -> (r: Connection)
        requires
            old(drain).live_count() < u64::MAX,
        ensures
            r.state == initial_state(http),
            final(drain).live_count() == old(drain).live_count() + 1,
            final(drain).is_signaled() == old(drain).is_signaled(),
    {
        drain.register();
        match http {
            None => Connection { state: ConnState::Forwarding },
            Some(version) => Connection {
                state: ConnState::Serving { version, in_flight: 0, draining: false },
            },
        }
    }

    /// Handles one event; on `Close` the drain registration is released.
    pub fn on_event(&mut self, ev: ConnEvent, drain: &mut Drain) -> (r: ConnAction)
        requires
            old(self).state != ConnState::Closed ==> old(drain).live_count() > 0,
        ensures
            (final(self).state, r) == next(old(self).state, ev),
            r == ConnAction::Close ==> final(drain).live_count() == old(drain).live_count() - 1,
            r != ConnAction::Close ==> final(drain).live_count() == old(drain).live_count(),
            final(drain).is_signaled() == old(drain).is_signaled(),
    {
        let (state, action) = match self.state {
            ConnState::Closed => (self.state, ConnAction::Continue),
            ConnState::Forwarding => match ev {
                ConnEvent::ForwardDone | ConnEvent::Ended => (ConnState::Closed, ConnAction::Close),
                _ => (self.state, ConnAction::Continue),
            },
            ConnState::Serving { version, in_flight, draining } => match ev {
                ConnEvent::Shutdown => if in_flight == 0 {
                    (ConnState::Closed, ConnAction::Close)
                } else {
                    (
                        ConnState::Serving { version, in_flight, draining: true },
                        ConnAction::GracefulShutdown,
                    )
                },
                ConnEvent::RequestStart { upgrade } => if draining || in_flight == u64::MAX {
                    (self.state, ConnAction::Refuse)
                } else {
                    let upgrade = upgrade && version == HttpVersion::Http1;
                    (
                        ConnState::Serving { version, in_flight: in_flight + 1, draining },
                        ConnAction::Accept { upgrade },
                    )
                },
                ConnEvent::RequestDone => if in_flight == 0 {
                    (self.state, ConnAction::Continue)
                } else if draining && in_flight == 1 {
                    (ConnState::Closed, ConnAction::Close)
                } else {
                    (
                        ConnState::Serving { version, in_flight: in_flight - 1, draining },
                        ConnAction::Continue,
                    )
                },
                ConnEvent::Ended => (ConnState::Closed, ConnAction::Close),
                ConnEvent::ForwardDone => (self.state, ConnAction::Continue),
            },
        };
        if action == ConnAction::Close {
            drain.release();
        }
        self.state = state;
        action
    }
}

/// Given HTTP/1, a request asking for a protocol upgrade is accepted with the
/// upgrade honoured, and the connection stays open.
pub proof fn lemma_http1_upgrade_accepted(in_flight: u64)
    requires
        in_flight < u64::MAX,
    ensures
        next(
            ConnState::Serving { version: HttpVersion::Http1, in_flight, draining: false },
            ConnEvent::RequestStart { upgrade: true },
        ) == (
            ConnState::Serving {
                version: HttpVersion::Http1,
                in_flight: (in_flight + 1) as u64,
                draining: false,
            },
            ConnAction::Accept { upgrade: true },
        ),
{
}

/// A forwarded connection ignores the shutdown signal: until the forward
/// completes or the connection ends, it stays open and keeps its drain
/// registration (no `Close`), so the drain cannot quiesce; on completion it
/// closes and releases it.
pub proof fn lemma_forward_outlives_shutdown(evs: Seq<ConnEvent>)
    requires
        forall|i: int|
            0 <= i < evs.len() ==> #[trigger] evs[i] != ConnEvent::ForwardDone && evs[i]
                != ConnEvent::Ended,
    ensures
        run(ConnState::Forwarding, evs).0 == ConnState::Forwarding,
        forall|i: int|
            0 <= i < evs.len() ==> #[trigger] run(ConnState::Forwarding, evs).1[i]
                == ConnAction::Continue,
        run(ConnState::Forwarding, evs).1.len() == evs.len(),
        next(ConnState::Forwarding, ConnEvent::ForwardDone) == (ConnState::Closed, ConnAction::Close),
    decreases evs.len(),
{
    if evs.len() > 0 {
        let rest = evs.drop_first();
        assert forall|i: int| 0 <= i < rest.len() implies #[trigger] rest[i] != ConnEvent::ForwardDone
            && rest[i] != ConnEvent::Ended by {
            assert(rest[i] == evs[i + 1]);
        }
        lemma_forward_outlives_shutdown(rest);
        let acts = run(ConnState::Forwarding, evs).1;
        assert forall|i: int| 0 <= i < evs.len() implies #[trigger] acts[i] == ConnAction::Continue by {
            if i > 0 {
                assert(acts[i] == run(ConnState::Forwarding, rest).1[i - 1]);
            }
        }
    }
}

/// The state is closed, or serving with shutdown under way.
pub open spec fn shutting_down(s: ConnState) -> bool {
    s is Closed || (s matches ConnState::Serving { draining, .. } && draining)
}

/// Once shutdown has reached an HTTP connection, no new request cycle begins
/// on it, whatever happens next.
pub proof fn lemma_no_request_after_shutdown(s: ConnState, evs: Seq<ConnEvent>)
    requires
        shutting_down(s),
    ensures
        shutting_down(run(s, evs).0),
        run(s, evs).1.len() == evs.len(),
        forall|i: int| 0 <= i < evs.len() ==> !(#[trigger] run(s, evs).1[i] is Accept),
    decreases evs.len(),
{
    if evs.len() > 0 {
        let s1 = next(s, evs[0]).0;
        let rest = evs.drop_first();
        lemma_no_request_after_shutdown(s1, rest);
        let acts = run(s, evs).1;
        assert forall|i: int| 0 <= i < evs.len() implies !(#[trigger] acts[i] is Accept) by {
            if i > 0 {
                assert(acts[i] == run(s1, rest).1[i - 1]);
            }
        }
    }
}

/// The shutdown signal lets requests in flight finish: a connection with
/// requests in flight stays open, and it closes only when the last of them
/// completes.
pub proof fn lemma_in_flight_finish_before_close(version: HttpVersion, in_flight: u64, draining: bool)
    requires
        in_flight > 0,
    ensures
        next(ConnState::Serving { version, in_flight, draining }, ConnEvent::Shutdown) == (
            ConnState::Serving { version, in_flight, draining: true },
            ConnAction::GracefulShutdown,
        ),
        in_flight > 1 ==> next(
            ConnState::Serving { version, in_flight, draining: true },
            ConnEvent::RequestDone,
        ) == (
            ConnState::Serving { version, in_flight: (in_flight - 1) as u64, draining: true },
            ConnAction::Continue,
        ),
        in_flight == 1 ==> next(
            ConnState::Serving { version, in_flight, draining: true },
            ConnEvent::RequestDone,
        ) == (ConnState::Closed, ConnAction::Close),
{
}

} // verus!
