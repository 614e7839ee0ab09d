//! Read/write flow of a single connection: fidelity of the echo across
//! arbitrary fragment boundaries and write counts.

use echo_server::connection::{EchoServerConnection, Interest};
use echo_server::events::{ReadAction, SocketRead, WriteAction, WriteOutcome};
use echo_server::handler::EchoServerHandler;
use echo_server::CHUNK_SIZE;

/// Feed a payload into the connection in the given fragments, as a read
/// pass would, ending with the would-block that closes the pass.
fn absorb(conn: &mut EchoServerConnection, fragments: &[&[u8]]) {
    for frag in fragments {
        let action = EchoServerHandler::handle_read(conn, SocketRead::Data(frag.to_vec()));
        assert_eq!(action, ReadAction::ReadAgain);
    }
    let action = EchoServerHandler::handle_read(conn, SocketRead::WouldBlock);
    assert_eq!(action, ReadAction::AwaitWritable);
    assert_eq!(conn.current_interest(), Interest::Write);
}

/// Drain the connection with the given per-call write counts, returning
/// the bytes that went on the wire.
fn drain(conn: &mut EchoServerConnection, counts: &[usize]) -> Vec<u8> {
    let mut wire: Vec<u8> = Vec::new();
    for &n in counts {
        let pending = conn.pending_bytes();
        assert!(n <= pending.len());
        wire.extend_from_slice(&pending[..n]);
        EchoServerHandler::handle_write(conn, WriteOutcome::Wrote(n));
    }
    wire
}

#[test]
fn echo_fidelity_one_write() {
    let mut conn = EchoServerConnection::new();
    absorb(&mut conn, &[b"hello, echo"]);
    let wire = drain(&mut conn, &[11]);
    assert_eq!(wire, b"hello, echo");
    assert_eq!(conn.pending_len(), 0);
    assert_eq!(conn.current_interest(), Interest::Read);
}

#[test]
fn echo_fidelity_many_fragments_and_counts() {
    let mut conn = EchoServerConnection::new();
    absorb(&mut conn, &[b"he", b"llo", b" ", b"wor", b"ld"]);
    let wire = drain(&mut conn, &[1, 4, 2, 4]);
    assert_eq!(wire, b"hello world");
    assert_eq!(conn.pending_len(), 0);
    assert_eq!(conn.current_interest(), Interest::Read);
}

#[test]
fn partial_reads_concatenate() {
    let mut conn = EchoServerConnection::new();
    absorb(&mut conn, &[b"ab", b"cde", b"f"]);
    assert_eq!(conn.pending_bytes(), b"abcdef");
}

#[test]
fn growable_buffer_large_payload() {
    // A payload well past the fixed chunk size must be captured whole.
    let payload: Vec<u8> = (0..5000u32).map(|i| (i % 251) as u8).collect();
    let mut conn = EchoServerConnection::new();
    for chunk in payload.chunks(CHUNK_SIZE) {
        let action = EchoServerHandler::handle_read(&mut conn, SocketRead::Data(chunk.to_vec()));
        assert_eq!(action, ReadAction::ReadAgain);
    }
    assert_eq!(conn.pending_len(), 5000);
    assert_eq!(conn.pending_bytes(), payload);
    let wire = drain(&mut conn, &[1024, 1024, 1024, 1024, 904]);
    assert_eq!(wire, payload);
    assert_eq!(conn.pending_len(), 0);
}

#[test]
fn zero_length_write_counts_as_full_flush() {
    let mut conn = EchoServerConnection::new();
    absorb(&mut conn, &[b"leftover"]);
    let action = EchoServerHandler::handle_write(&mut conn, WriteOutcome::Flushed);
    assert_eq!(action, WriteAction::AwaitReadable);
    assert_eq!(conn.pending_len(), 0);
    assert_eq!(conn.current_interest(), Interest::Read);
}

#[test]
fn would_block_write_keeps_pending_and_write_interest() {
    let mut conn = EchoServerConnection::new();
    absorb(&mut conn, &[b"abcdef"]);
    // Partially flushed, then the socket refuses more.
    let action = EchoServerHandler::handle_write(&mut conn, WriteOutcome::Wrote(2));
    assert_eq!(action, WriteAction::WriteAgain);
    let action = EchoServerHandler::handle_write(&mut conn, WriteOutcome::WouldBlock);
    assert_eq!(action, WriteAction::AwaitWritable);
    assert_eq!(conn.pending_bytes(), b"cdef");
    // Interest must stay on the write side until the buffer is empty,
    // or the unflushed remainder would be stranded.
    assert_eq!(conn.current_interest(), Interest::Write);
    // Once writability returns, the rest goes out.
    let wire = drain(&mut conn, &[3, 1]);
    assert_eq!(wire, b"cdef");
    assert_eq!(conn.current_interest(), Interest::Read);
}

#[test]
fn data_arriving_after_partial_flush_queues_behind_remainder() {
    let mut conn = EchoServerConnection::new();
    absorb(&mut conn, &[b"abc"]);
    let action = EchoServerHandler::handle_write(&mut conn, WriteOutcome::Wrote(1));
    assert_eq!(action, WriteAction::WriteAgain);
    let action = EchoServerHandler::handle_read(&mut conn, SocketRead::Data(b"de".to_vec()));
    assert_eq!(action, ReadAction::ReadAgain);
    assert_eq!(conn.pending_bytes(), b"bcde");
}

#[test]
fn orderly_shutdown_closes_without_echo() {
    let mut conn = EchoServerConnection::new();
    let action = EchoServerHandler::handle_read(&mut conn, SocketRead::Closed);
    assert_eq!(action, ReadAction::Close);
    assert_eq!(conn.pending_len(), 0);
}

#[test]
fn fatal_read_error_closes_connection() {
    let mut conn = EchoServerConnection::new();
    let action = EchoServerHandler::handle_read(&mut conn, SocketRead::Data(b"x".to_vec()));
    assert_eq!(action, ReadAction::ReadAgain);
    let action = EchoServerHandler::handle_read(&mut conn, SocketRead::Fatal);
    assert_eq!(action, ReadAction::Close);
}

#[test]
fn fatal_write_error_closes_connection() {
    let mut conn = EchoServerConnection::new();
    absorb(&mut conn, &[b"x"]);
    let action = EchoServerHandler::handle_write(&mut conn, WriteOutcome::Fatal);
    assert_eq!(action, WriteAction::Close);
}
