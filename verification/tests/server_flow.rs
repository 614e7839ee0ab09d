//! Server lifecycle: accept, dispatch, per-connection handling,
//! teardown, and independence of concurrent clients.

use echo_server::connection::Interest;
use echo_server::events::{ReadAction, SocketRead, WriteOutcome};
use echo_server::server::{Dispatch, EchoServer, LISTENER_TOKEN};

#[test]
fn accept_assigns_monotonic_fresh_identifiers() {
    let mut server = EchoServer::new();
    assert_eq!(server.next_token(), 1);
    let t1 = server.accept_client();
    let t2 = server.accept_client();
    let t3 = server.accept_client();
    assert_eq!((t1, t2, t3), (1, 2, 3));
    assert_eq!(server.client_count(), 3);
    assert_eq!(server.next_token(), 4);
}

#[test]
fn dispatch_by_token() {
    let mut server = EchoServer::new();
    let t = server.accept_client();
    assert_eq!(server.dispatch(LISTENER_TOKEN), Dispatch::AcceptNew);
    assert_eq!(server.dispatch(t), Dispatch::HandleClient);
    assert_eq!(server.dispatch(99), Dispatch::Ignore);
}

#[test]
fn orderly_close_removes_connection_without_echo() {
    // A client that sends nothing and shuts down its write side is
    // torn down; nothing is ever echoed to it.
    let mut server = EchoServer::new();
    let t = server.accept_client();
    assert_eq!(server.pending_of(t), b"");
    let action = server.on_read(t, SocketRead::Closed);
    assert_eq!(action, ReadAction::Close);
    assert_eq!(server.pending_of(t), b"");
    server.remove_client(t);
    assert!(!server.contains_client(t));
    assert_eq!(server.dispatch(t), Dispatch::Ignore);
}

#[test]
fn idempotent_shutdown_keeps_accepting_fresh() {
    let mut server = EchoServer::new();
    let t1 = server.accept_client();
    server.remove_client(t1);
    // Tearing the same connection down again changes nothing.
    server.remove_client(t1);
    assert_eq!(server.client_count(), 0);
    // The listener still accepts, and the identifier is fresh.
    let t2 = server.accept_client();
    assert_ne!(t1, t2);
    assert_eq!(server.dispatch(t2), Dispatch::HandleClient);
    assert_eq!(server.client_count(), 1);
}

#[test]
fn fifty_clients_each_get_their_own_payload_back() {
    let mut server = EchoServer::new();
    let mut tokens: Vec<usize> = Vec::new();
    let mut payloads: Vec<Vec<u8>> = Vec::new();
    for i in 0..50u8 {
        tokens.push(server.accept_client());
        payloads.push(format!("client {} payload", i).into_bytes());
    }
    // Interleave the arrivals: every client's payload lands fragment by
    // fragment, round robin across all connections.
    let max_len = payloads.iter().map(|p| p.len()).max().unwrap();
    for pos in 0..max_len {
        for (k, t) in tokens.iter().enumerate() {
            if pos < payloads[k].len() {
                let frag = vec![payloads[k][pos]];
                let action = server.on_read(*t, SocketRead::Data(frag));
                assert_eq!(action, ReadAction::ReadAgain);
            }
        }
    }
    // Each connection holds exactly its own payload, and draining it
    // echoes exactly that payload.
    for (k, t) in tokens.iter().enumerate() {
        assert_eq!(server.pending_of(*t), payloads[k]);
        let wire = server.pending_of(*t);
        server.on_write(*t, WriteOutcome::Wrote(wire.len()));
        assert_eq!(wire, payloads[k]);
        assert_eq!(server.pending_of(*t), b"");
        assert_eq!(server.interest_of(*t), Interest::Read);
    }
}

#[test]
fn interest_follows_handler_passes() {
    let mut server = EchoServer::new();
    let t = server.accept_client();
    assert_eq!(server.interest_of(t), Interest::Read);
    server.on_read(t, SocketRead::Data(b"hi".to_vec()));
    let action = server.on_read(t, SocketRead::WouldBlock);
    assert_eq!(action, ReadAction::AwaitWritable);
    assert_eq!(server.interest_of(t), Interest::Write);
    server.on_write(t, WriteOutcome::Wrote(1));
    assert_eq!(server.interest_of(t), Interest::Write);
    server.on_write(t, WriteOutcome::Wrote(1));
    assert_eq!(server.interest_of(t), Interest::Read);
}

#[test]
fn fatal_on_one_connection_leaves_others_alone() {
    let mut server = EchoServer::new();
    let t1 = server.accept_client();
    let t2 = server.accept_client();
    server.on_read(t2, SocketRead::Data(b"other".to_vec()));
    let action = server.on_read(t1, SocketRead::Fatal);
    assert_eq!(action, ReadAction::Close);
    server.remove_client(t1);
    assert!(!server.contains_client(t1));
    assert_eq!(server.pending_of(t2), b"other");
    assert_eq!(server.dispatch(LISTENER_TOKEN), Dispatch::AcceptNew);
}
