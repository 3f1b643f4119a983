//! Connection handling for a transparent proxy: protocol detection on a
//! freshly accepted stream, the per-connection serving decisions with
//! cooperative graceful shutdown, and the dispatch loop of a buffered service.

pub mod detect;
pub mod dispatch;
pub mod drain;
pub mod protocol;
pub mod server;

pub use detect::{DetectStep, ProtocolDetect};
pub use dispatch::{
    broadcast_failure, Dispatch, DispatchAction, DispatchEvent, Failed, InFlight, Phase, Readiness,
    Received,
};
pub use drain::Drain;
pub use server::{
    ConnAction, ConnEvent, ConnState, Connection, ConnectionPlan, H2Settings, HttpConfig, Server,
};
pub use protocol::{AcceptMeta, HttpVersion, Protocol};
