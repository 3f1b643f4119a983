use indexmap::IndexSet;
use proxy_core::{AcceptMeta, DetectStep, HttpVersion, Protocol, ProtocolDetect};
use std::sync::Arc;

const PREFACE: &[u8] = b"PRI * HTTP/2.0\r\n\r\nSM\r\n\r\n";

fn detector(ports: &[u16]) -> ProtocolDetect {
    let mut set = IndexSet::new();
    for p in ports {
        set.insert(*p);
    }
    ProtocolDetect::new(Arc::new(set))
}

fn meta(port: u16) -> AcceptMeta {
    AcceptMeta { target_port: port }
}

#[test]
fn skipped_port_is_not_peeked() {
    let d = detector(&[25, 3306]);
    assert_eq!(
        d.detect(meta(3306)),
        DetectStep::Skip(Protocol { http: None, tls: meta(3306) })
    );
    assert_eq!(d.detect(meta(25)), DetectStep::Skip(Protocol { http: None, tls: meta(25) }));
}

#[test]
fn other_port_asks_for_peek() {
    let d = detector(&[25, 3306]);
    assert_eq!(d.detect(meta(80)), DetectStep::Peek { capacity: 8192 });
    assert_eq!(d.capacity(), ProtocolDetect::PEEK_CAPACITY);
}

#[test]
fn empty_skip_set_always_peeks() {
    let d = detector(&[]);
    assert_eq!(d.detect(meta(25)), DetectStep::Peek { capacity: 8192 });
}

#[test]
fn h2_preface_gives_h2() {
    let d = detector(&[]);
    assert_eq!(d.classify_peeked(meta(80), PREFACE).http, Some(HttpVersion::H2));
    let mut longer = PREFACE.to_vec();
    longer.extend_from_slice(&[0, 0, 0, 4, 0, 0, 0, 0, 0]);
    assert_eq!(
        d.classify_peeked(meta(80), &longer),
        Protocol { http: Some(HttpVersion::H2), tls: meta(80) }
    );
}

#[test]
fn truncated_preface_is_not_h2() {
    assert_eq!(HttpVersion::from_prefix(&PREFACE[..20]), None);
    assert_eq!(HttpVersion::from_prefix(b"PRI * HTTP/2.0"), None);
}

#[test]
fn request_line_gives_http1() {
    assert_eq!(
        HttpVersion::from_prefix(b"GET / HTTP/1.1\r\nHost: example.com\r\n\r\n"),
        Some(HttpVersion::Http1)
    );
    assert_eq!(HttpVersion::from_prefix(b"POST /a?b=c HTTP/1.0\n"), Some(HttpVersion::Http1));
    assert_eq!(
        HttpVersion::from_prefix(b"CONNECT example.com:443 HTTP/1.1\r\n"),
        Some(HttpVersion::Http1)
    );
}

#[test]
fn partial_request_line_gives_http1() {
    assert_eq!(HttpVersion::from_prefix(b"G"), Some(HttpVersion::Http1));
    assert_eq!(HttpVersion::from_prefix(b"GET /ind"), Some(HttpVersion::Http1));
    assert_eq!(HttpVersion::from_prefix(b"GET /index.html HTT"), Some(HttpVersion::Http1));
    assert_eq!(HttpVersion::from_prefix(b"GET / HTTP/1.1\r"), Some(HttpVersion::Http1));
}

#[test]
fn other_bytes_give_none() {
    assert_eq!(HttpVersion::from_prefix(b""), None);
    assert_eq!(HttpVersion::from_prefix(&[0x16, 0x03, 0x01, 0x02, 0x00]), None);
    assert_eq!(HttpVersion::from_prefix(b"SSH-2.0-OpenSSH_8.9\r\n"), None);
    assert_eq!(HttpVersion::from_prefix(b"GET  / HTTP/1.1\r\n"), None);
    assert_eq!(HttpVersion::from_prefix(b"GET / HTTP/2.0\r\n"), None);
    assert_eq!(HttpVersion::from_prefix(b"GET / HTTP/1.x\r\n"), None);
    assert_eq!(HttpVersion::from_prefix(b"GET / HTTP/1.1\r\r"), None);
    assert_eq!(HttpVersion::from_prefix(b" GET / HTTP/1.1\r\n"), None);
}

#[test]
fn classification_keeps_the_metadata() {
    let d = detector(&[]);
    assert_eq!(
        d.classify_peeked(meta(8080), b"\x00\x01"),
        Protocol { http: None, tls: meta(8080) }
    );
}
