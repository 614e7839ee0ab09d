//! Core of a single-threaded, event-driven TCP echo server.
//!
//! The server reads whatever bytes a client sends and writes the same
//! bytes back, on non-blocking sockets multiplexed through a readiness
//! poller. This crate holds the part worth reasoning about: the
//! per-connection state machine that turns readiness notifications and
//! the outcomes of individual socket calls into correct partial-read /
//! partial-write handling, and the server bookkeeping that keys live
//! connections by identifier. The socket calls themselves (bind,
//! accept, read, write, poll) are performed by the embedding event
//! loop, which feeds each outcome back into these functions.

use vstd::prelude::*;

pub mod connection;
pub mod events;
pub mod handler;
pub mod laws;
pub mod server;

verus! {

/// Size, in bytes, of the scratch space offered to each socket read
/// call; a read pass grows the echo buffer by at most this much per
/// call.
pub const CHUNK_SIZE: usize = 1024;

} // verus!
