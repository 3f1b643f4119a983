use proxy_core::{
    ConnAction, ConnEvent, ConnState, Connection, ConnectionPlan, Drain, H2Settings, HttpVersion,
    AcceptMeta, Protocol, Server,
};

fn server() -> Server<String, String> {
    let h2 = H2Settings {
        initial_stream_window_size: Some(65_535),
        initial_connection_window_size: Some(1_048_576),
    };
    Server::new("forward".to_string(), "factory".to_string(), h2)
}

fn proto(http: Option<HttpVersion>) -> Protocol {
    Protocol { http, tls: AcceptMeta { target_port: 8080 } }
}

#[test]
fn no_http_is_forwarded() {
    match server().call(proto(None)) {
        ConnectionPlan::Forward { forward, tls } => {
            assert_eq!(forward, "forward");
            assert_eq!(tls.target_port, 8080);
        }
        ConnectionPlan::Serve { .. } => panic!("an HTTP service was built"),
    }
}

#[test]
fn http1_is_served_with_upgrades() {
    match server().call(proto(Some(HttpVersion::Http1))) {
        ConnectionPlan::Serve { make_http, tls, version, config } => {
            assert_eq!(make_http, "factory");
            assert_eq!(tls.target_port, 8080);
            assert_eq!(version, HttpVersion::Http1);
            assert!(config.http1_only);
            assert!(!config.http2_only);
            assert!(config.with_upgrades);
            assert!(config.adaptive_window);
        }
        ConnectionPlan::Forward { .. } => panic!("HTTP/1 was forwarded"),
    }
}

#[test]
fn h2_is_served_with_window_settings() {
    match server().call(proto(Some(HttpVersion::H2))) {
        ConnectionPlan::Serve { version, config, .. } => {
            assert_eq!(version, HttpVersion::H2);
            assert!(config.http2_only);
            assert!(!config.http1_only);
            assert!(!config.with_upgrades);
            assert!(config.adaptive_window);
            assert_eq!(config.initial_stream_window_size, Some(65_535));
            assert_eq!(config.initial_connection_window_size, Some(1_048_576));
        }
        ConnectionPlan::Forward { .. } => panic!("HTTP/2 was forwarded"),
    }
}

#[test]
fn shutdown_with_no_connection_quiesces() {
    let mut drain = Drain::new();
    assert!(!drain.is_quiesced());
    drain.signal();
    assert!(drain.is_quiesced());
}

#[test]
fn shutdown_waits_for_forward() {
    let mut drain = Drain::new();
    let mut conn = Connection::open(None, &mut drain);
    assert_eq!(conn.state, ConnState::Forwarding);
    drain.signal();
    assert_eq!(conn.on_event(ConnEvent::Shutdown, &mut drain), ConnAction::Continue);
    assert_eq!(conn.state, ConnState::Forwarding);
    assert!(!drain.is_quiesced());
    assert_eq!(conn.on_event(ConnEvent::ForwardDone, &mut drain), ConnAction::Close);
    assert_eq!(conn.state, ConnState::Closed);
    assert!(drain.is_quiesced());
}

#[test]
fn shutdown_lets_in_flight_requests_finish() {
    let mut drain = Drain::new();
    let mut conn = Connection::open(Some(HttpVersion::Http1), &mut drain);
    let start = ConnEvent::RequestStart { upgrade: false };
    assert_eq!(conn.on_event(start, &mut drain), ConnAction::Accept { upgrade: false });
    drain.signal();
    assert_eq!(conn.on_event(ConnEvent::Shutdown, &mut drain), ConnAction::GracefulShutdown);
    assert_eq!(conn.on_event(start, &mut drain), ConnAction::Refuse);
    assert!(!drain.is_quiesced());
    assert_eq!(drain.live(), 1);
    assert_eq!(conn.on_event(ConnEvent::RequestDone, &mut drain), ConnAction::Close);
    assert!(drain.is_quiesced());
    assert_eq!(conn.on_event(start, &mut drain), ConnAction::Continue);
}

#[test]
fn shutdown_of_idle_http_connection_closes_it() {
    let mut drain = Drain::new();
    let mut conn = Connection::open(Some(HttpVersion::H2), &mut drain);
    drain.signal();
    assert_eq!(conn.on_event(ConnEvent::Shutdown, &mut drain), ConnAction::Close);
    assert!(drain.is_quiesced());
}

#[test]
fn http1_accepts_upgrade_request() {
    let mut drain = Drain::new();
    let mut conn = Connection::open(Some(HttpVersion::Http1), &mut drain);
    let up = ConnEvent::RequestStart { upgrade: true };
    assert_eq!(conn.on_event(up, &mut drain), ConnAction::Accept { upgrade: true });
    assert_eq!(
        conn.state,
        ConnState::Serving { version: HttpVersion::Http1, in_flight: 1, draining: false }
    );
    assert_eq!(drain.live(), 1);
}

#[test]
fn h2_has_no_upgrade() {
    let mut drain = Drain::new();
    let mut conn = Connection::open(Some(HttpVersion::H2), &mut drain);
    let up = ConnEvent::RequestStart { upgrade: true };
    assert_eq!(conn.on_event(up, &mut drain), ConnAction::Accept { upgrade: false });
}

#[test]
fn ended_connection_releases_drain() {
    let mut drain = Drain::new();
    let mut a = Connection::open(Some(HttpVersion::H2), &mut drain);
    let mut b = Connection::open(None, &mut drain);
    assert_eq!(drain.live(), 2);
    assert_eq!(a.on_event(ConnEvent::Ended, &mut drain), ConnAction::Close);
    assert_eq!(b.on_event(ConnEvent::Ended, &mut drain), ConnAction::Close);
    assert_eq!(drain.live(), 0);
    assert_eq!(a.on_event(ConnEvent::Ended, &mut drain), ConnAction::Continue);
    assert_eq!(drain.live(), 0);
}
