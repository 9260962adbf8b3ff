//! UDP over gRPC: the decisions of the tunnel's client and server, verified.
//!
//! The client reads a list of servers and secrets, connects to them in turn and
//! throttles reconnects; each session forwards the datagrams of one local peer.
//! The server checks each request's secret before it relays the payload.

pub mod split;
pub mod endpoints;
pub mod restart;
pub mod supervisor;
pub mod message;
pub mod peer;
pub mod session;
pub mod connect;
pub mod server;
