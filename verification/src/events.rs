//! Outcomes of individual non-blocking socket calls, and the sorting of
//! raw `std::io` results into them.
//!
//! The event loop performs each read or write call itself and hands the
//! result here; the handler then acts on the sorted outcome. A
//! would-block result is not an error: it only ends the current pass in
//! that direction. A zero-length read is an orderly shutdown of the
//! peer's write side. Every other error is fatal to that one
//! connection.

use vstd::prelude::*;

verus! {

/// What one non-blocking read call on a client socket produced.
pub enum SocketRead {
    /// Bytes actually received from the peer.
    Data(Vec<u8>),
    /// Zero-length read: the peer shut down its write side.
    Closed,
    /// No more data available right now; stop reading until the socket
    /// signals readability again.
    WouldBlock,
    /// A non-recoverable error on this socket.
    Fatal,
}

/// What one non-blocking write call on a client socket produced.
pub enum WriteOutcome {
    /// The call accepted this many bytes of the pending buffer.
    Wrote(usize),
    /// Zero-length write: treat the pending buffer as fully flushed.
    Flushed,
    /// The socket cannot accept bytes right now; stop writing until it
    /// signals writability again.
    WouldBlock,
    /// A non-recoverable error on this socket.
    Fatal,
}

/// What the event loop must do next after one read outcome is applied.
#[derive(Clone, Copy, PartialEq, Eq, Structural, Debug)]
pub enum ReadAction {
    /// More data may be waiting: issue another read call.
    ReadAgain,
    /// Drained to would-block: re-register for the connection's current
    /// interest and return to the poller.
    AwaitWritable,
    /// Tear the connection down: deregister, drop the socket, remove
    /// its state.
    Close,
}

/// What the event loop must do next after one write outcome is applied.
#[derive(Clone, Copy, PartialEq, Eq, Structural, Debug)]
pub enum WriteAction {
    /// Bytes remain pending: issue another write call.
    WriteAgain,
    /// Fully flushed: re-register for readability and return to the
    /// poller.
    AwaitReadable,
    /// The socket would block with bytes still pending: re-register for
    /// writability and return to the poller.
    AwaitWritable,
    /// Tear the connection down.
    Close,
}

/// Declares `std::io::Error`, the error type of raw socket calls, so
/// that results of such calls can be taken apart here. The value is
/// opaque; only `io_error_would_block` below asks it anything.
#[verifier::external_type_specification]
#[verifier::external_body]
pub struct ExIoError(std::io::Error);

/// Relies on `std::io::Error::kind`: tells the would-block kind apart
/// from every other kind of I/O error. Which answer comes back depends
/// on the opaque error value alone, so nothing more is promised of it.
#[verifier::external_body]
fn io_error_would_block(err: &std::io::Error) -> bool {
    err.kind() == std::io::ErrorKind::WouldBlock
}

/// Whether a non-blocking call failed only because it would block —
/// the expected pause that ends a read or write pass until readiness
/// is signalled again — rather than with a real error.
pub fn would_block(err: &std::io::Error) -> bool {
    io_error_would_block(err)
}

/// Sort the result of one socket read call: trim the scratch buffer to
/// the count actually received, recognise the zero-length read as an
/// orderly shutdown, and keep would-block apart from fatal errors.
pub fn classify_read(r: Result<usize, std::io::Error>, chunk: Vec<u8>) -> (s: SocketRead)
    requires
        r matches Ok(n) ==> n <= chunk.len(),
    ensures
        match r {
            Ok(n) => if n == 0 {
                s == SocketRead::Closed
            } else {
                s matches SocketRead::Data(d) && d@ == chunk@.take(n as int)
            },
            Err(_) => s == SocketRead::WouldBlock || s == SocketRead::Fatal,
        },
{
    match r {
        Ok(0) => SocketRead::Closed,
        Ok(n) => {
            let mut data = chunk;
            data.truncate(n);
            proof {
                assert(data@ =~= chunk@.take(n as int));
            }
            SocketRead::Data(data)
        },
        Err(e) => {
            if would_block(&e) {
                SocketRead::WouldBlock
            } else {
                SocketRead::Fatal
            }
        },
    }
}

/// Sort the result of one socket write call: recognise the zero-length
/// write as a full flush, and keep would-block apart from fatal errors.
pub fn classify_write(r: Result<usize, std::io::Error>) -> (w: WriteOutcome)
    ensures
        match r {
            Ok(n) => if n == 0 {
                w == WriteOutcome::Flushed
            } else {
                w == WriteOutcome::Wrote(n)
            },
            Err(_) => w == WriteOutcome::WouldBlock || w == WriteOutcome::Fatal,
        },
{
    match r {
        Ok(0) => WriteOutcome::Flushed,
        Ok(n) => WriteOutcome::Wrote(n),
        Err(e) => {
            if would_block(&e) {
                WriteOutcome::WouldBlock
            } else {
                WriteOutcome::Fatal
            }
        },
    }
}

} // verus!
