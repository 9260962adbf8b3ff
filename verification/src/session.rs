use vstd::prelude::*;

use crate::message::{UdpReq, UdpRes, copy_prefix};
use crate::peer::PeerAddr;

verus! {

/// What the client's receive loop saw.
pub enum SessionEvent {
    /// `size` bytes arrived in the receive buffer from `from`.
    Datagram { size: usize, from: PeerAddr },
    /// Receiving from the local socket failed.
    RecvFailed,
    /// The receive was interrupted because the session is being cancelled.
    Interrupted,
    /// The request could not be handed to the outgoing stream.
    ForwardFailed,
}

/// Why a client session ends with an error.
#[derive(Debug, Clone, Copy, PartialEq, Eq, Structural)]
pub enum SessionError {
    /// A datagram came from another address than the first one of the session.
    AddressChanged,
    /// Receiving from the local socket failed.
    RecvFailed,
    /// The outgoing stream no longer takes requests.
    ForwardFailed,
}

/// What the client's receive loop does next.
pub enum SessionAction {
    /// Send `request` to the server; first start the task that relays answers to
    /// `spawn_reader_for` if it is given.
    Forward { request: UdpReq, spawn_reader_for: Option<PeerAddr> },
    /// End the session with this error.
    Fail(SessionError),
    /// Go on receiving.
    Continue,
}

/// The state of one client session: the secret it presents, and the local peer it
/// serves once the first datagram has come in. The relay task runs from that moment
/// on, so it has been started exactly when the peer is known.
pub struct ClientSession {
    auth: String,
    peer: Option<PeerAddr>,
}

pub struct SessionView {
    pub auth: Seq<char>,
    pub peer: Option<PeerAddr>,
}

impl View for ClientSession {
    type V = SessionView;

    closed spec fn view(&self) -> SessionView {
        SessionView { auth: self.auth@, peer: self.peer }
    }
}

/// A datagram from `from` belongs to the session whose peer is `peer`: the peer is
/// not known yet, or it is `from`.
pub open spec fn accepts(peer: Option<PeerAddr>, from: PeerAddr) -> bool {
    peer is None || peer == Some(from)
}

/// A session with no peer yet takes a datagram from any address, IPv4 or IPv6;
/// once it has a peer, it takes datagrams from that address and no other.
pub proof fn lemma_accepts_exactly(from: PeerAddr, peer: PeerAddr)
    ensures
        accepts(None, from),
        accepts(Some(peer), from) <==> from == peer,
{
}

/// A session serves one peer only: once a datagram from `first` has been accepted,
/// a later one is accepted exactly when it comes from `first` too.
pub proof fn lemma_one_peer(peer: Option<PeerAddr>, first: PeerAddr, later: PeerAddr)
    requires
        accepts(peer, first),
    ensures
        accepts(Some(first), later) <==> later == first,
{
}

impl ClientSession {
    pub fn new(auth: String) -> (res: ClientSession)
        ensures
            res@.auth == auth@,
            res@.peer is None,
    {
        ClientSession { auth, peer: None }
    }

    pub fn peer(&self) -> (res: Option<PeerAddr>)
        ensures
            res == self@.peer,
    {
        self.peer
    }

    /// One turn of the receive loop. A datagram from the session's peer (or the first
    /// datagram, which fixes the peer and starts the relay task) is forwarded with the
    /// session's secret and its first `size` bytes; one from any other address ends
    /// the session. Receive and forwarding failures end it too; an interruption does not.
    pub fn step(&mut self, event: SessionEvent, buf: &[u8]) -> (res: SessionAction)
        requires
            event matches SessionEvent::Datagram { size, .. } ==> size <= buf@.len(),
        ensures
            final(self)@.auth == old(self)@.auth,
            match event {
                SessionEvent::Datagram { size, from } => {
                    if !accepts(old(self)@.peer, from) {
                        &&& res == SessionAction::Fail(SessionError::AddressChanged)
                        &&& final(self)@ == old(self)@
                    } else {
                        &&& final(self)@.peer == Some(from)
                        &&& res matches SessionAction::Forward { request, spawn_reader_for }
                        &&& request.auth@ == old(self)@.auth
                        &&& request.payload@ == buf@.subrange(0, size as int)
                        &&& spawn_reader_for == (if old(self)@.peer is None {
                            Some(from)
                        } else {
                            None
                        })
                    }
                },
                SessionEvent::RecvFailed => {
                    &&& res == SessionAction::Fail(SessionError::RecvFailed)
                    &&& final(self)@ == old(self)@
                },
                SessionEvent::Interrupted => {
                    &&& res == SessionAction::Continue
                    &&& final(self)@ == old(self)@
                },
                SessionEvent::ForwardFailed => {
                    &&& res == SessionAction::Fail(SessionError::ForwardFailed)
                    &&& final(self)@ == old(self)@
                },
            },
    {
        match event {
            SessionEvent::Datagram { size, from } => {
                let mut spawn: Option<PeerAddr> = None;
                match self.peer {
                    Some(last) => {
                        if last != from {
                            return SessionAction::Fail(SessionError::AddressChanged);
                        }
                    },
                    None => {
                        self.peer = Some(from);
                        spawn = Some(from);
                    },
                }
                let payload = copy_prefix(buf, size);
                let request = UdpReq { auth: self.auth.clone(), payload };
                SessionAction::Forward { request, spawn_reader_for: spawn }
            },
            SessionEvent::RecvFailed => SessionAction::Fail(SessionError::RecvFailed),
            SessionEvent::Interrupted => SessionAction::Continue,
            SessionEvent::ForwardFailed => SessionAction::Fail(SessionError::ForwardFailed),
        }
    }
}

/// What the relay task, which carries the server's answers back to the local peer, saw.
pub enum ReaderEvent {
    /// An answer arrived on the stream from the server.
    Response(UdpRes),
    /// The stream from the server reported an error.
    StreamFailed,
    /// The stream from the server ended.
    StreamEnded,
    /// The relay task was cancelled.
    Cancelled,
    /// Sending an answer to the local peer failed.
    SendFailed,
}

/// What the relay task does next.
pub enum ReaderAction {
    /// Send these bytes to the local peer.
    SendBack(Vec<u8>),
    /// Stop relaying and cancel the task's token.
    Finish,
}

/// An answer from the server goes back to the peer unchanged; anything else ends
/// the relay task.
pub fn reader_step(event: ReaderEvent) -> (res: ReaderAction)
    ensures
        match event {
            ReaderEvent::Response(r) => res matches ReaderAction::SendBack(p) && p@ == r.payload@,
            _ => res matches ReaderAction::Finish,
        },
{
    match event {
        ReaderEvent::Response(r) => ReaderAction::SendBack(r.payload),
        _ => ReaderAction::Finish,
    }
}

} // verus!
