//! Per-client connection state: the bytes still owed back to the peer
//! and the readiness direction the poller registration must match.

use vstd::prelude::*;

verus! {

/// Readiness direction a socket is registered to be notified about.
/// A connection's registration must match its current interest after
/// every handler pass.
#[derive(Clone, Copy, PartialEq, Eq, Structural, Debug)]
pub enum Interest {
    Read,
    Write,
}

/// Mathematical state of one client connection: the bytes received but
/// not yet echoed back, and the readiness direction to watch next.
#[verifier::ext_equal]
pub ghost struct ConnView {
    pub pending: Seq<u8>,
    pub interest: Interest,
}

/// State a connection is created with: nothing pending, read interest.
pub open spec fn initial_conn() -> ConnView {
    ConnView { pending: Seq::empty(), interest: Interest::Read }
}

/// One client connection. The echo buffer accumulates everything read
/// from the peer; `bytes_written` is the cursor past its already-echoed
/// prefix. The socket handle itself is owned by the event loop that
/// performs the I/O.
pub struct EchoServerConnection {
    pub(crate) buffer_to_echo: Vec<u8>,
    pub(crate) bytes_written: usize,
    pub(crate) interest: Interest,
}

impl View for EchoServerConnection {
    type V = ConnView;

    open(crate) spec fn view(&self) -> ConnView {
        ConnView {
            pending: self.buffer_to_echo@.skip(self.bytes_written as int),
            interest: self.interest,
        }
    }
}

impl EchoServerConnection {
    /// The cursor never runs past the buffer it indexes into.
    pub open(crate) spec fn wf(self) -> bool {
        self.bytes_written <= self.buffer_to_echo.len()
    }

    /// A fresh connection, as registered at accept time: empty buffer,
    /// read interest.
    pub fn new() -> (c: Self)
        ensures
            c.wf(),
            c@ == initial_conn(),
    {
        EchoServerConnection {
            buffer_to_echo: Vec::new(),
            bytes_written: 0,
            interest: Interest::Read,
        }
    }

    /// The readiness direction this connection must be registered for.
    pub fn current_interest(&self) -> (i: Interest)
        ensures
            i == self@.interest,
    {
        self.interest
    }

    /// How many bytes are still owed back to the peer.
    pub fn pending_len(&self) -> (n: usize)
        requires
            self.wf(),
        ensures
            n == self@.pending.len(),
    {
        self.buffer_to_echo.len() - self.bytes_written
    }

    /// A copy of the bytes still owed back to the peer, in order.
    pub fn pending_bytes(&self) -> (v: Vec<u8>)
        requires
            self.wf(),
        ensures
            v@ == self@.pending,
    {
        let mut v: Vec<u8> = Vec::new();
        let mut i: usize = self.bytes_written;
        while i < self.buffer_to_echo.len()
            invariant
                self.bytes_written <= i <= self.buffer_to_echo.len(),
                v@ == self.buffer_to_echo@.subrange(self.bytes_written as int, i as int),
            decreases self.buffer_to_echo.len() - i,
        {
            v.push(self.buffer_to_echo[i]);
            proof {
                assert(v@ =~= self.buffer_to_echo@.subrange(
                    self.bytes_written as int,
                    i + 1 as int,
                ));
            }
            i = i + 1;
        }
        proof {
            assert(v@ =~= self@.pending);
        }
        v
    }
}

} // verus!
