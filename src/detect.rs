use crate::protocol::{classify, AcceptMeta, HttpVersion, Protocol};
use indexmap::IndexSet;
use std::sync::Arc;
use vstd::prelude::*;

verus! {

#[verifier::external_type_specification]
#[verifier::external_body]
#[verifier::reject_recursive_types(T)]
#[verifier::reject_recursive_types(S)]
pub struct ExIndexSet<T, S>(IndexSet<T, S>);

/// The ports that a set of ports holds.
pub uninterp spec fn port_set(s: IndexSet<u16>) -> Set<u16>;

/// Relies on `indexmap::IndexSet::contains`: true exactly when the port is a member.
#[verifier::external_body]
fn set_contains(s: &IndexSet<u16>, port: u16) -> (r: bool)
    ensures
        r == port_set(*s).contains(port),
{
    s.contains(&port)
}

/// What detection does next for one connection.
#[derive(Clone, Copy, Debug, PartialEq, Eq, Structural)]
pub enum DetectStep {
    /// Detection is skipped: the connection is served with this protocol and
    /// its stream is left untouched.
    Skip(Protocol),
    /// Peek up to `capacity` bytes without consuming them, then hand them to
    /// `ProtocolDetect::classify_peeked`.
    Peek { capacity: usize },
}

/// Classifies a connection's application protocol from a non-destructive peek.
#[derive(Clone, Debug)]
pub struct ProtocolDetect {
    capacity: usize,
    skip_ports: Arc<IndexSet<u16>>,
}

impl ProtocolDetect {
    pub const PEEK_CAPACITY: usize = 8192;

    /// The ports for which detection is bypassed.
    pub closed spec fn skip_set(&self) -> Set<u16> {
        port_set(*self.skip_ports)
    }

    /// How many bytes a peek asks for.
    pub closed spec fn peek_capacity(&self) -> usize {
        self.capacity
    }

    pub fn new(skip_ports: Arc<IndexSet<u16>>) -> (r: ProtocolDetect)
        ensures
            r.skip_set() == port_set(*skip_ports),
            r.peek_capacity() == Self::PEEK_CAPACITY,
    {
        ProtocolDetect { skip_ports, capacity: Self::PEEK_CAPACITY }
    }

    pub fn capacity(&self) -> (r: usize)
        ensures
            r == self.peek_capacity(),
    {
        self.capacity
    }

    /// Starts detection for a connection: a target port in the skip set gives
    /// a protocol without HTTP and no peek; any other port asks for a peek.
    pub fn detect(&self, tls: AcceptMeta) -> (r: DetectStep)
        ensures
            self.skip_set().contains(tls.target_port) ==> r == DetectStep::Skip(
                Protocol { http: None, tls },
            ),
            !self.skip_set().contains(tls.target_port) ==> r == (DetectStep::Peek {
                capacity: self.peek_capacity(),
            }),
    {
        if set_contains(&self.skip_ports, tls.target_port) {
            DetectStep::Skip(Protocol { tls, http: None })
        } else {
            DetectStep::Peek { capacity: self.capacity }
        }
    }

    /// Finishes detection from the bytes that the peek saw.
    pub fn classify_peeked(&self, tls: AcceptMeta, peeked: &[u8]) -> (r: Protocol)
        ensures
            r == (Protocol { http: classify(peeked@), tls }),
    {
        let http = HttpVersion::from_prefix(peeked);
        Protocol { tls, http }
    }
}

} // verus!
