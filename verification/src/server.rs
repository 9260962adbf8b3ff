use vstd::prelude::*;

use crate::message::{UdpReq, UdpRes, copy_prefix};

verus! {

/// The server side of the tunnel: it checks each request against `key` and sends
/// the payload on to the UDP address `d_addr`.
pub struct UogServer {
    key: String,
    d_addr: String,
}

/// What the task that reads the client's stream saw.
pub enum InboundEvent {
    /// A request arrived on the stream.
    Request(UdpReq),
    /// The stream reported an error.
    StreamFailed,
    /// The stream ended.
    StreamEnded,
}

/// Why the server stops reading a client's stream.
#[derive(Debug, Clone, Copy, PartialEq, Eq, Structural)]
pub enum StopReason {
    /// A request carried another secret than the server's key.
    AuthFailed,
    /// The stream reported an error.
    StreamFailed,
    /// The stream ended.
    StreamEnded,
}

/// What the task that reads the client's stream does next.
pub enum InboundAction {
    /// Send these bytes to the UDP destination.
    Deliver(Vec<u8>),
    /// Stop, and tell the task that reads the UDP socket to stop too.
    Stop(StopReason),
}

/// What the task that reads the UDP destination's answers saw.
pub enum OutboundEvent {
    /// `size` bytes arrived in the receive buffer.
    Datagram { size: usize },
    /// Receiving failed.
    RecvFailed,
    /// Nothing arrived within the receive timeout.
    TimedOut,
    /// The answer could not be handed to the stream back to the client.
    ChannelClosed,
}

/// What the task that reads the UDP destination's answers does next.
pub enum OutboundAction {
    /// Send this answer back to the client.
    Reply(UdpRes),
    /// Check the stop flag, then receive again.
    Continue,
    /// End the task.
    Stop,
}

impl UogServer {
    pub fn new(d_addr: String, key: String) -> (res: UogServer)
        ensures
            res.key_view() == key@,
            res.d_addr_view() == d_addr@,
    {
        UogServer { key, d_addr }
    }

    pub closed spec fn key_view(&self) -> Seq<char> {
        self.key@
    }

    pub closed spec fn d_addr_view(&self) -> Seq<char> {
        self.d_addr@
    }

    pub fn key(&self) -> (res: &String)
        ensures
            res@ == self.key_view(),
    {
        &self.key
    }

    pub fn d_addr(&self) -> (res: &String)
        ensures
            res@ == self.d_addr_view(),
    {
        &self.d_addr
    }

    /// A request is delivered exactly when its secret equals the key; the first one
    /// that does not, and any error or end of the stream, stops the stream.
    pub fn on_inbound(&self, event: InboundEvent) -> (res: InboundAction)
        ensures
            match event {
                InboundEvent::Request(req) => if req.auth@ == self.key_view() {
                    res matches InboundAction::Deliver(p) && p@ == req.payload@
                } else {
                    res matches InboundAction::Stop(StopReason::AuthFailed)
                },
                InboundEvent::StreamFailed => res matches InboundAction::Stop(
                    StopReason::StreamFailed,
                ),
                InboundEvent::StreamEnded => res matches InboundAction::Stop(
                    StopReason::StreamEnded,
                ),
            },
    {
        match event {
            InboundEvent::Request(req) => {
                if req.auth == self.key {
                    InboundAction::Deliver(req.payload)
                } else {
                    InboundAction::Stop(StopReason::AuthFailed)
                }
            },
            InboundEvent::StreamFailed => InboundAction::Stop(StopReason::StreamFailed),
            InboundEvent::StreamEnded => InboundAction::Stop(StopReason::StreamEnded),
        }
    }
}

/// An answer of `size` bytes goes back to the client as they are; a timeout only
/// leads to another receive; a receive error or a closed stream ends the task.
pub fn on_outbound(event: OutboundEvent, buf: &[u8]) -> (res: OutboundAction)
    requires
        event matches OutboundEvent::Datagram { size } ==> size <= buf@.len(),
    ensures
        match event {
            OutboundEvent::Datagram { size } => res matches OutboundAction::Reply(r) && r.payload@
                == buf@.subrange(0, size as int),
            OutboundEvent::TimedOut => res matches OutboundAction::Continue,
            _ => res matches OutboundAction::Stop,
        },
{
    match event {
        OutboundEvent::Datagram { size } => OutboundAction::Reply(
            UdpRes { payload: copy_prefix(buf, size) },
        ),
        OutboundEvent::TimedOut => OutboundAction::Continue,
        _ => OutboundAction::Stop,
    }
}

} // verus!
