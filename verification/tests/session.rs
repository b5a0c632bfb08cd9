use socks5_ingress::addr::AddressSpec;
use socks5_ingress::handshake::{ProtocolError, ProxyInfo};
use socks5_ingress::relay::{CopyLoop, Direction, DuplexRelay, LoopAction, LoopState};
use socks5_ingress::session::{ConnectError, Session, SessionAction, SessionId, SessionPhase};
use socks5_ingress::socks5::{copy_password, BasePassiveConfig, Socks5Passive};
use socks5_ingress::wire::ReplyCode;

fn config(password: Option<Vec<u8>>) -> BasePassiveConfig {
    BasePassiveConfig { local_host: String::from("127.0.0.1"), local_port: 1080, password }
}

fn session_in_connecting(id: u64) -> Session {
    let mut s = Session::new(SessionId::new(id), None);
    assert_eq!(
        s.on_client_bytes(&[0x05, 1, 0x00]),
        SessionAction::Send { consumed: 3, reply: vec![0x05, 0x00] }
    );
    let action = s.on_client_bytes(&[0x05, 0x01, 0x00, 0x01, 10, 0, 0, 1, 0x00, 0x50]);
    assert_eq!(
        action,
        SessionAction::Connect {
            consumed: 10,
            info: ProxyInfo::new(AddressSpec::IPv4([10, 0, 0, 1]), 80),
        }
    );
    assert_eq!(s.phase(), SessionPhase::Connecting);
    s
}

/// Pumps `chunks` through one direction of a relaying session and returns
/// what the loop asked to be written, chunk by chunk.
fn pump(s: &mut Session, dir: Direction, chunks: &[&[u8]]) -> Vec<u8> {
    let mut written: Vec<u8> = Vec::new();
    for chunk in chunks {
        match s.on_relay_read(dir, chunk) {
            LoopAction::Write { data } => {
                written.extend_from_slice(&data);
                assert_eq!(s.on_relay_write(dir, true), LoopAction::Read);
            }
            other => panic!("unexpected action {:?}", other),
        }
    }
    written
}

#[test]
fn successful_connect_then_relay() {
    let mut s = session_in_connecting(1);
    assert_eq!(
        s.on_connect(Ok(())),
        SessionAction::StartRelay { reply: vec![0x05, 0x00, 0x00, 0x01, 0, 0, 0, 0, 0, 0] }
    );
    assert_eq!(s.phase(), SessionPhase::Relaying);
    let up = pump(&mut s, Direction::ClientToRemote, &[&b"hello "[..], &b"world"[..]]);
    assert_eq!(up, b"hello world".to_vec());
    let down = pump(&mut s, Direction::RemoteToClient, &[&b"HTTP/1.1 200 OK"[..]]);
    assert_eq!(down, b"HTTP/1.1 200 OK".to_vec());
    assert_eq!(s.forwarded(Direction::ClientToRemote), 11);
    assert_eq!(s.forwarded(Direction::RemoteToClient), 15);
    assert!(!s.is_closed());
}

#[test]
fn unreachable_target_gets_a_reply_and_no_relay() {
    let cases = [
        (ConnectError::HostUnreachable, 0x04u8),
        (ConnectError::ConnectionRefused, 0x01u8),
        (ConnectError::Other, 0x01u8),
    ];
    for (error, code) in cases {
        let mut s = session_in_connecting(2);
        assert_eq!(
            s.on_connect(Err(error)),
            SessionAction::Unreachable {
                error,
                reply: vec![0x05, code, 0x00, 0x01, 0, 0, 0, 0, 0, 0],
            }
        );
        assert!(s.is_closed());
        assert_eq!(s.on_relay_read(Direction::ClientToRemote, b"0123456789"), LoopAction::Idle);
        assert_eq!(s.on_relay_write(Direction::RemoteToClient, true), LoopAction::Idle);
        assert_eq!(s.on_connect(Ok(())), SessionAction::Nothing);
    }
}

#[test]
fn connect_error_reply_codes() {
    assert_eq!(ConnectError::HostUnreachable.reply_code(), ReplyCode::HostUnreachable);
    assert_eq!(ConnectError::ConnectionRefused.reply_code(), ReplyCode::GeneralFailure);
    assert_eq!(ConnectError::Other.reply_code(), ReplyCode::GeneralFailure);
}

#[test]
fn bind_is_refused_without_connect() {
    let mut s = Session::new(SessionId::new(3), None);
    s.on_client_bytes(&[0x05, 1, 0x00]);
    let action = s.on_client_bytes(&[0x05, 0x02, 0x00, 0x01, 10, 0, 0, 1, 0x00, 0x50]);
    assert_eq!(
        action,
        SessionAction::Refuse {
            error: ProtocolError::UnsupportedCommand,
            reply: vec![0x05, 0x07, 0x00, 0x01, 0, 0, 0, 0, 0, 0],
        }
    );
    assert!(s.is_closed());
    assert_eq!(
        s.on_client_bytes(&[0x05, 0x01, 0x00, 0x01, 10, 0, 0, 1, 0x00, 0x50]),
        SessionAction::Nothing
    );
    assert_eq!(s.on_connect(Ok(())), SessionAction::Nothing);
}

#[test]
fn bad_version_closes_session_without_reply() {
    let mut s = Session::new(SessionId::new(4), None);
    assert_eq!(
        s.on_client_bytes(&[0x04, 1, 0x00]),
        SessionAction::Refuse { error: ProtocolError::BadVersion, reply: Vec::new() }
    );
    assert!(s.is_closed());
}

#[test]
fn unsupported_methods_close_session_with_rejection() {
    let mut s = Session::new(SessionId::new(5), None);
    assert_eq!(
        s.on_client_bytes(&[0x05, 1, 0x02]),
        SessionAction::Refuse {
            error: ProtocolError::NoAcceptableMethod,
            reply: vec![0x05, 0xFF],
        }
    );
    assert!(s.is_closed());
}

#[test]
fn client_eof_during_handshake_closes() {
    let mut s = Session::new(SessionId::new(6), None);
    assert_eq!(s.on_client_bytes(&[0x05]), SessionAction::ReadClient);
    assert_eq!(s.on_client_eof(), SessionAction::Close);
    assert!(s.is_closed());
    assert_eq!(s.on_client_eof(), SessionAction::Nothing);
    let mut c = session_in_connecting(7);
    assert_eq!(c.on_client_eof(), SessionAction::Nothing);
    assert_eq!(c.phase(), SessionPhase::Connecting);
}

#[test]
fn half_close_ends_session_after_both_loops() {
    let mut s = session_in_connecting(8);
    s.on_connect(Ok(()));
    assert_eq!(s.on_relay_read(Direction::ClientToRemote, &[]), LoopAction::Shutdown);
    assert_eq!(s.phase(), SessionPhase::Relaying);
    assert_eq!(s.on_relay_read(Direction::ClientToRemote, b"late!"), LoopAction::Idle);
    assert_eq!(
        s.on_relay_read(Direction::RemoteToClient, b"goodbye"),
        LoopAction::Write { data: b"goodbye".to_vec() }
    );
    assert_eq!(s.on_relay_write(Direction::RemoteToClient, true), LoopAction::Read);
    assert_eq!(s.on_relay_read(Direction::RemoteToClient, &[]), LoopAction::Shutdown);
    assert!(s.is_closed());
    assert_eq!(s.forwarded(Direction::RemoteToClient), 7);
    assert_eq!(s.forwarded(Direction::ClientToRemote), 0);
}

#[test]
fn write_error_closes_loop() {
    let mut r = DuplexRelay::new();
    assert_eq!(
        r.on_read(Direction::ClientToRemote, &[7u8; 100]),
        LoopAction::Write { data: vec![7u8; 100] }
    );
    assert_eq!(r.on_write(Direction::ClientToRemote, false), LoopAction::Shutdown);
    assert_eq!(r.forwarded(Direction::ClientToRemote), 0);
    assert!(!r.is_finished());
    assert_eq!(r.on_write(Direction::RemoteToClient, true), LoopAction::Idle);
    assert_eq!(r.on_read(Direction::RemoteToClient, &[]), LoopAction::Shutdown);
    assert!(r.is_finished());
}

#[test]
fn copy_loop_counts_and_saturates() {
    let mut l = CopyLoop::new();
    assert_eq!(l, CopyLoop { state: LoopState::Reading, pending: 0, forwarded: 0 });
    assert_eq!(l.on_write(true), LoopAction::Idle);
    assert_eq!(l.on_read(&[1u8; 1024]), LoopAction::Write { data: vec![1u8; 1024] });
    assert_eq!(l, CopyLoop { state: LoopState::Writing, pending: 1024, forwarded: 0 });
    assert_eq!(l.on_read(b"abc"), LoopAction::Idle);
    assert_eq!(l.on_write(true), LoopAction::Read);
    assert_eq!(l, CopyLoop { state: LoopState::Reading, pending: 0, forwarded: 1024 });
    let mut full = CopyLoop { state: LoopState::Writing, pending: 10, forwarded: u64::MAX - 3 };
    assert_eq!(full.on_write(true), LoopAction::Read);
    assert_eq!(full.forwarded, u64::MAX);
    assert!(!full.is_closed());
    assert_eq!(full.on_read(&[]), LoopAction::Shutdown);
    assert!(full.is_closed());
}

#[test]
fn concurrent_sessions_are_isolated() {
    let mut acceptor = Socks5Passive::new(&config(None));
    let mut sessions: Vec<Session> = Vec::new();
    for _ in 0..4 {
        let mut s = acceptor.accept().unwrap();
        s.on_client_bytes(&[0x05, 1, 0x00]);
        s.on_client_bytes(&[0x05, 0x01, 0x00, 0x01, 10, 0, 0, 1, 0x00, 0x50]);
        s.on_connect(Ok(()));
        sessions.push(s);
    }
    let from_client: Vec<Vec<u8>> = (0..4u8).map(|i| vec![b'a' + i; 3 + i as usize]).collect();
    let from_remote: Vec<Vec<u8>> = (0..4u8).map(|i| vec![b'A' + i; 5 + i as usize]).collect();
    let mut to_remote: Vec<Vec<u8>> = vec![Vec::new(); 4];
    let mut to_client: Vec<Vec<u8>> = vec![Vec::new(); 4];
    for round in 0..3 {
        for (i, s) in sessions.iter_mut().enumerate() {
            match s.on_relay_read(Direction::ClientToRemote, &from_client[i]) {
                LoopAction::Write { data } => to_remote[i].extend_from_slice(&data),
                other => panic!("round {}: {:?}", round, other),
            }
        }
        for (i, s) in sessions.iter_mut().enumerate().rev() {
            match s.on_relay_read(Direction::RemoteToClient, &from_remote[i]) {
                LoopAction::Write { data } => to_client[i].extend_from_slice(&data),
                other => panic!("round {}: {:?}", round, other),
            }
            assert_eq!(s.on_relay_write(Direction::ClientToRemote, true), LoopAction::Read);
        }
        for s in sessions.iter_mut() {
            assert_eq!(s.on_relay_write(Direction::RemoteToClient, true), LoopAction::Read);
        }
    }
    for i in 0..4 {
        let mut up = Vec::new();
        let mut down = Vec::new();
        for _ in 0..3 {
            up.extend_from_slice(&from_client[i]);
            down.extend_from_slice(&from_remote[i]);
        }
        assert_eq!(to_remote[i], up);
        assert_eq!(to_client[i], down);
        assert_eq!(sessions[i].forwarded(Direction::ClientToRemote), 3 * (3 + i as u64));
        assert_eq!(sessions[i].forwarded(Direction::RemoteToClient), 3 * (5 + i as u64));
    }
}

#[test]
fn failure_of_one_session_leaves_the_others() {
    let mut a = session_in_connecting(20);
    let mut b = session_in_connecting(21);
    a.on_connect(Ok(()));
    assert_eq!(
        b.on_connect(Err(ConnectError::ConnectionRefused)),
        SessionAction::Unreachable {
            error: ConnectError::ConnectionRefused,
            reply: vec![0x05, 0x01, 0x00, 0x01, 0, 0, 0, 0, 0, 0],
        }
    );
    assert!(b.is_closed());
    assert_eq!(a.phase(), SessionPhase::Relaying);
    assert_eq!(
        a.on_relay_read(Direction::ClientToRemote, b"still here"),
        LoopAction::Write { data: b"still here".to_vec() }
    );
}

#[test]
fn acceptor_gives_increasing_identifiers() {
    let mut acceptor = Socks5Passive::new(&config(Some(b"pw".to_vec())));
    assert_eq!(acceptor.accepted(), 0);
    let a = acceptor.accept().unwrap();
    let b = acceptor.accept().unwrap();
    let c = acceptor.accept().unwrap();
    assert_eq!((a.id().value(), b.id().value(), c.id().value()), (0, 1, 2));
    assert_ne!(a.id(), b.id());
    assert_eq!(acceptor.accepted(), 3);
    assert_eq!(a.phase(), SessionPhase::Handshake);
}

#[test]
fn acceptor_hands_password_to_sessions() {
    let mut acceptor = Socks5Passive::new(&config(Some(b"pw".to_vec())));
    let mut s = acceptor.accept().unwrap();
    assert_eq!(
        s.on_client_bytes(&[0x05, 1, 0x02]),
        SessionAction::Send { consumed: 3, reply: vec![0x05, 0x02] }
    );
    assert_eq!(
        s.on_client_bytes(&[0x01, 0, 2, b'p', b'w']),
        SessionAction::Send { consumed: 5, reply: vec![0x01, 0x00] }
    );
    assert_eq!(copy_password(&Some(b"pw".to_vec())), Some(b"pw".to_vec()));
    assert_eq!(copy_password(&None), None);
}

#[test]
fn acceptor_limit_admits_and_releases() {
    let mut acceptor = Socks5Passive::with_limit(&config(None), 2);
    let a = acceptor.accept().unwrap();
    let b = acceptor.accept().unwrap();
    assert_eq!(acceptor.active(), 2);
    assert!(acceptor.accept().is_none());
    assert_eq!(acceptor.accepted(), 2);
    acceptor.release();
    assert_eq!(acceptor.active(), 1);
    let c = acceptor.accept().unwrap();
    assert_eq!((a.id().value(), b.id().value(), c.id().value()), (0, 1, 2));
    assert_ne!(a.id(), b.id());
    acceptor.release();
    acceptor.release();
    acceptor.release();
    assert_eq!(acceptor.active(), 0);
    let mut none = Socks5Passive::with_limit(&config(None), 0);
    assert!(none.accept().is_none());
}

#[test]
fn relay_forwards_chunks_in_order() {
    let mut l = CopyLoop::new();
    let chunks: [&[u8]; 4] = [b"ab", b"c", b"defg", b"h"];
    let mut out: Vec<u8> = Vec::new();
    for chunk in chunks {
        match l.on_read(chunk) {
            LoopAction::Write { data } => out.extend_from_slice(&data),
            other => panic!("unexpected action {:?}", other),
        }
        assert_eq!(l.on_write(true), LoopAction::Read);
    }
    assert_eq!(out, b"abcdefgh".to_vec());
    assert_eq!(l.forwarded, 8);
}

#[test]
fn pipelined_handshake_is_taken_message_by_message() {
    let mut wire: Vec<u8> = vec![0x05, 1, 0x00];
    wire.extend_from_slice(&[0x05, 0x01, 0x00, 0x03, 4, b'h', b'o', b's', b't', 0x00, 0x16]);
    wire.extend_from_slice(b"SSH-2.0");
    let mut s = Session::new(SessionId::new(9), None);
    let first = s.on_client_bytes(&wire);
    assert_eq!(first, SessionAction::Send { consumed: 3, reply: vec![0x05, 0x00] });
    let second = s.on_client_bytes(&wire[3..]);
    assert_eq!(
        second,
        SessionAction::Connect {
            consumed: 11,
            info: ProxyInfo::new(AddressSpec::Domain(b"host".to_vec()), 22),
        }
    );
    assert_eq!(&wire[14..], b"SSH-2.0");
}
