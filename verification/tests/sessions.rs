use uog::connect::{plan_connection, ConnectMode, PlanError};
use uog::message::UdpRes;
use uog::peer::PeerAddr;
use uog::server::{InboundAction, InboundEvent, OutboundAction, OutboundEvent, StopReason, UogServer};
use uog::session::{reader_step, ClientSession, ReaderAction, ReaderEvent, SessionAction, SessionError, SessionEvent};
use uog::message::UdpReq;

fn local(port: u16) -> PeerAddr {
    PeerAddr::V4 { ip4: 0x7f00_0001, port }
}

#[test]
fn first_datagram_fixes_the_peer() {
    let mut s = ClientSession::new("test".to_string());
    let buf = [1u8, 2, 3, 4, 5];
    match s.step(SessionEvent::Datagram { size: 3, from: local(4000) }, &buf) {
        SessionAction::Forward { request, spawn_reader_for } => {
            assert_eq!(request.auth, "test");
            assert_eq!(request.payload, vec![1, 2, 3]);
            assert_eq!(spawn_reader_for, Some(local(4000)));
        }
        _ => panic!("expected a forward"),
    }
    assert_eq!(s.peer(), Some(local(4000)));
    match s.step(SessionEvent::Datagram { size: 0, from: local(4000) }, &buf) {
        SessionAction::Forward { request, spawn_reader_for } => {
            assert!(request.payload.is_empty());
            assert_eq!(spawn_reader_for, None);
        }
        _ => panic!("expected a forward"),
    }
}

#[test]
fn another_peer_ends_the_session() {
    let mut s = ClientSession::new("k".to_string());
    let buf = [9u8; 8];
    assert!(matches!(
        s.step(SessionEvent::Datagram { size: 8, from: local(1) }, &buf),
        SessionAction::Forward { .. }
    ));
    assert!(matches!(
        s.step(SessionEvent::Datagram { size: 8, from: local(2) }, &buf),
        SessionAction::Fail(SessionError::AddressChanged)
    ));
    let v6 = PeerAddr::V6 { ip6: 1, port: 1, flowinfo: 0, scope_id: 0 };
    assert!(matches!(
        s.step(SessionEvent::Datagram { size: 1, from: v6 }, &buf),
        SessionAction::Fail(SessionError::AddressChanged)
    ));
    assert_eq!(s.peer(), Some(local(1)));
}

#[test]
fn failures_and_interruptions() {
    let mut s = ClientSession::new("k".to_string());
    let buf = [0u8; 1];
    assert!(matches!(s.step(SessionEvent::Interrupted, &buf), SessionAction::Continue));
    assert!(matches!(
        s.step(SessionEvent::RecvFailed, &buf),
        SessionAction::Fail(SessionError::RecvFailed)
    ));
    assert!(matches!(
        s.step(SessionEvent::ForwardFailed, &buf),
        SessionAction::Fail(SessionError::ForwardFailed)
    ));
    assert_eq!(s.peer(), None);
}

#[test]
fn reader_relays_answers_only() {
    match reader_step(ReaderEvent::Response(UdpRes { payload: b"pong".to_vec() })) {
        ReaderAction::SendBack(p) => assert_eq!(p, b"pong".to_vec()),
        ReaderAction::Finish => panic!("expected a reply"),
    }
    assert!(matches!(reader_step(ReaderEvent::StreamEnded), ReaderAction::Finish));
    assert!(matches!(reader_step(ReaderEvent::StreamFailed), ReaderAction::Finish));
    assert!(matches!(reader_step(ReaderEvent::Cancelled), ReaderAction::Finish));
    assert!(matches!(reader_step(ReaderEvent::SendFailed), ReaderAction::Finish));
}

#[test]
fn connection_modes() {
    let p = plan_connection("https://127.0.0.1:443", true).ok().unwrap();
    assert_eq!(p.mode, ConnectMode::SharedHttps);
    assert_eq!(p.scheme.as_deref(), Some("https"));
    let p = plan_connection("https://127.0.0.1:443", false).ok().unwrap();
    assert_eq!(p.mode, ConnectMode::Channel { tls: true });
    let p = plan_connection("http://127.0.0.1:50051", true).ok().unwrap();
    assert_eq!(p.mode, ConnectMode::Channel { tls: false });
    assert_eq!(p.uri.uri().port_u16(), Some(50051));
    let p = plan_connection("HTTPS://example.com:443/x", true).ok().unwrap();
    assert_eq!(p.scheme.as_deref(), Some("https"));
    assert_eq!(p.mode, ConnectMode::SharedHttps);
    assert_eq!(p.uri.uri().host(), Some("example.com"));
    let p = plan_connection("127.0.0.1:50051", true).ok().unwrap();
    assert_eq!(p.scheme, None);
    assert_eq!(p.mode, ConnectMode::Channel { tls: false });
}

#[test]
fn bad_endpoint_is_refused() {
    assert_eq!(plan_connection("", true).err(), Some(PlanError::InvalidUri));
    assert_eq!(plan_connection("http://exa mple", false).err(), Some(PlanError::InvalidUri));
}

#[test]
fn server_checks_the_key() {
    let server = UogServer::new("127.0.0.1:50051".to_string(), "test".to_string());
    assert_eq!(server.key(), "test");
    assert_eq!(server.d_addr(), "127.0.0.1:50051");
    let ok = InboundEvent::Request(UdpReq { auth: "test".to_string(), payload: b"ping".to_vec() });
    match server.on_inbound(ok) {
        InboundAction::Deliver(p) => assert_eq!(p, b"ping".to_vec()),
        InboundAction::Stop(_) => panic!("expected delivery"),
    }
    let bad = InboundEvent::Request(UdpReq { auth: "tes".to_string(), payload: b"ping".to_vec() });
    assert!(matches!(server.on_inbound(bad), InboundAction::Stop(StopReason::AuthFailed)));
    assert!(matches!(
        server.on_inbound(InboundEvent::StreamFailed),
        InboundAction::Stop(StopReason::StreamFailed)
    ));
    assert!(matches!(
        server.on_inbound(InboundEvent::StreamEnded),
        InboundAction::Stop(StopReason::StreamEnded)
    ));
}

#[test]
fn server_relays_answers() {
    let buf = *b"pong and more";
    match uog::server::on_outbound(OutboundEvent::Datagram { size: 4 }, &buf) {
        OutboundAction::Reply(r) => assert_eq!(r.payload, b"pong".to_vec()),
        _ => panic!("expected a reply"),
    }
    assert!(matches!(uog::server::on_outbound(OutboundEvent::TimedOut, &buf), OutboundAction::Continue));
    assert!(matches!(uog::server::on_outbound(OutboundEvent::RecvFailed, &buf), OutboundAction::Stop));
    assert!(matches!(uog::server::on_outbound(OutboundEvent::ChannelClosed, &buf), OutboundAction::Stop));
}
