//! The connection handler: pure state-transition logic for one
//! readiness event.
//!
//! A readiness event may signal readability, writability, or both; the
//! read side is processed before the write side. Each side is a pass of
//! repeated socket calls. The event loop performs the call, sorts its
//! result (see `events`), and feeds the outcome here; the handler
//! mutates the connection and answers with the next action. Contracts
//! are stated against the spec-level transition functions below, which
//! the proofs in `laws` build on.

use vstd::prelude::*;

use crate::connection::{ConnView, EchoServerConnection, Interest};
use crate::events::{ReadAction, SocketRead, WriteAction, WriteOutcome};

verus! {

/// Pending bytes after data arrives: appended, nothing lost, nothing
/// reordered. The buffer grows on demand, so arbitrarily large
/// payloads accumulate without truncation.
pub open spec fn read_data_step(c: ConnView, d: Seq<u8>) -> ConnView {
    ConnView { pending: c.pending + d, interest: c.interest }
}

/// Connection state after one read outcome is applied. An orderly
/// shutdown or a fatal error drops the connection, so its pending
/// bytes are discarded rather than echoed; a would-block ends the read
/// pass and turns interest to the write side.
pub open spec fn read_step(c: ConnView, r: SocketRead) -> ConnView {
    match r {
        SocketRead::Data(d) => read_data_step(c, d@),
        SocketRead::WouldBlock => ConnView { pending: c.pending, interest: Interest::Write },
        SocketRead::Closed => ConnView { pending: Seq::empty(), interest: c.interest },
        SocketRead::Fatal => ConnView { pending: Seq::empty(), interest: c.interest },
    }
}

/// What the event loop must do next after one read outcome.
pub open spec fn read_action(r: SocketRead) -> ReadAction {
    match r {
        SocketRead::Data(_) => ReadAction::ReadAgain,
        SocketRead::WouldBlock => ReadAction::AwaitWritable,
        SocketRead::Closed => ReadAction::Close,
        SocketRead::Fatal => ReadAction::Close,
    }
}

/// Connection state after one write outcome is applied. A successful
/// write advances past exactly the bytes the socket accepted; interest
/// returns to the read side only once nothing is pending, and stays on
/// the write side otherwise, so unflushed bytes are never stranded
/// under a stale registration.
pub open spec fn write_step(c: ConnView, w: WriteOutcome) -> ConnView {
    match w {
        WriteOutcome::Wrote(n) => ConnView {
            pending: c.pending.skip(n as int),
            interest: if c.pending.len() == n {
                Interest::Read
            } else {
                Interest::Write
            },
        },
        WriteOutcome::Flushed => ConnView { pending: Seq::empty(), interest: Interest::Read },
        WriteOutcome::WouldBlock => ConnView {
            pending: c.pending,
            interest: if c.pending.len() == 0 {
                Interest::Read
            } else {
                Interest::Write
            },
        },
        WriteOutcome::Fatal => ConnView { pending: Seq::empty(), interest: c.interest },
    }
}

/// What the event loop must do next after one write outcome.
pub open spec fn write_action(c: ConnView, w: WriteOutcome) -> WriteAction {
    match w {
        WriteOutcome::Wrote(n) => if c.pending.len() == n {
            WriteAction::AwaitReadable
        } else {
            WriteAction::WriteAgain
        },
        WriteOutcome::Flushed => WriteAction::AwaitReadable,
        WriteOutcome::WouldBlock => if c.pending.len() == 0 {
            WriteAction::AwaitReadable
        } else {
            WriteAction::AwaitWritable
        },
        WriteOutcome::Fatal => WriteAction::Close,
    }
}

pub struct EchoServerHandler {}

impl EchoServerHandler {
    /// Read side of one readiness event: apply the outcome of one
    /// socket read call. Received bytes are appended to the pending
    /// buffer and another read follows; would-block ends the pass with
    /// everything accumulated and turns interest to the write side; an
    /// orderly shutdown or a fatal error closes the connection without
    /// echoing anything.
    pub fn handle_read(connection: &mut EchoServerConnection, r: SocketRead) -> (a: ReadAction)
        requires
            old(connection).wf(),
        ensures
            final(connection).wf(),
            final(connection)@ == read_step(old(connection)@, r),
            a == read_action(r),
    {
        match r {
            SocketRead::Data(d) => {
                let mut d = d;
                connection.buffer_to_echo.append(&mut d);
                proof {
                    assert(connection@.pending =~= read_step(old(connection)@, r).pending);
                }
                ReadAction::ReadAgain
            },
            SocketRead::WouldBlock => {
                connection.interest = Interest::Write;
                ReadAction::AwaitWritable
            },
            SocketRead::Closed => {
                connection.buffer_to_echo.clear();
                connection.bytes_written = 0;
                ReadAction::Close
            },
            SocketRead::Fatal => {
                connection.buffer_to_echo.clear();
                connection.bytes_written = 0;
                ReadAction::Close
            },
        }
    }

    /// Write side of one readiness event: apply the outcome of one
    /// socket write call on the pending buffer. The caller offers the
    /// pending bytes to the socket, so a successful count never exceeds
    /// what is pending.
    pub fn handle_write(connection: &mut EchoServerConnection, w: WriteOutcome) -> (a: WriteAction)
        requires
            old(connection).wf(),
            w matches WriteOutcome::Wrote(n) ==> n <= old(connection)@.pending.len(),
        ensures
            final(connection).wf(),
            final(connection)@ == write_step(old(connection)@, w),
            a == write_action(old(connection)@, w),
    {
        match w {
            WriteOutcome::Wrote(n) => {
                connection.bytes_written = connection.bytes_written + n;
                if connection.bytes_written == connection.buffer_to_echo.len() {
                    connection.buffer_to_echo.clear();
                    connection.bytes_written = 0;
                    connection.interest = Interest::Read;
                    proof {
                        assert(connection@.pending =~= write_step(old(connection)@, w).pending);
                    }
                    WriteAction::AwaitReadable
                } else {
                    connection.interest = Interest::Write;
                    proof {
                        assert(connection@.pending =~= write_step(old(connection)@, w).pending);
                    }
                    WriteAction::WriteAgain
                }
            },
            WriteOutcome::Flushed => {
                connection.buffer_to_echo.clear();
                connection.bytes_written = 0;
                connection.interest = Interest::Read;
                WriteAction::AwaitReadable
            },
            WriteOutcome::WouldBlock => {
                if connection.buffer_to_echo.len() == connection.bytes_written {
                    connection.interest = Interest::Read;
                    WriteAction::AwaitReadable
                } else {
                    connection.interest = Interest::Write;
                    WriteAction::AwaitWritable
                }
            },
            WriteOutcome::Fatal => {
                connection.buffer_to_echo.clear();
                connection.bytes_written = 0;
                WriteAction::Close
            },
        }
    }
}

} // verus!
