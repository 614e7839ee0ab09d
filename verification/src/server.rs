//! Server bookkeeping: the collection of live connections keyed by
//! identifier, and the monotonic identifier counter.
//!
//! The listening socket and the poller live with the event loop; this
//! holds every decision the run loop makes. Each readiness event is
//! dispatched by its token: the reserved listener token triggers an
//! accept, a known client token is handled, an unknown one — a
//! connection already torn down — is ignored. A connection handled to
//! completion is removed; identifiers are never reused while a
//! connection holding one is registered, because the counter only ever
//! grows.

use std::collections::HashMap;

use vstd::prelude::*;

use crate::connection::{initial_conn, ConnView, EchoServerConnection, Interest};
use crate::events::{ReadAction, SocketRead, WriteAction, WriteOutcome};
use crate::handler::{read_action, read_step, write_action, write_step, EchoServerHandler};

verus! {

broadcast use vstd::std_specs::hash::group_hash_axioms;

/// Identifier reserved for the listening socket; client identifiers
/// start above it.
pub const LISTENER_TOKEN: usize = 0;

/// What the run loop must do with one readiness event, by its token.
#[derive(Clone, Copy, PartialEq, Eq, Structural, Debug)]
pub enum Dispatch {
    /// The listening socket is ready: accept a new client.
    AcceptNew,
    /// A live client connection is ready: invoke the handler.
    HandleClient,
    /// The token belongs to no live connection (already removed).
    Ignore,
}

/// The echo server's own state: live connections keyed by identifier,
/// and the next identifier to hand out. The listening socket is owned
/// by the event loop.
pub struct EchoServer {
    pub(crate) clients: HashMap<usize, EchoServerConnection>,
    pub(crate) token_counter: usize,
}

impl EchoServer {
    /// Identifier-to-state map of the live connections.
    pub open(crate) spec fn conns(self) -> Map<usize, ConnView> {
        self.clients@.map_values(|c: EchoServerConnection| c@)
    }

    /// The next identifier to be assigned.
    pub open(crate) spec fn counter(self) -> usize {
        self.token_counter
    }

    /// Every live identifier was assigned by the counter — above the
    /// reserved listener token and below the next one to hand out —
    /// and every connection's state is well formed.
    pub open(crate) spec fn wf(self) -> bool {
        &&& self.token_counter >= 1
        &&& forall|t: usize|
            #[trigger] self.clients@.contains_key(t) ==> LISTENER_TOKEN < t < self.token_counter
        &&& forall|t: usize| #[trigger] self.clients@.contains_key(t) ==> self.clients@[t].wf()
    }

    /// A server before any client has connected: no connections, and
    /// the first client will get identifier 1.
    pub fn new() -> (s: Self)
        ensures
            s.wf(),
            s.conns() == Map::<usize, ConnView>::empty(),
            s.counter() == 1,
    {
        let s = EchoServer { clients: HashMap::new(), token_counter: 1 };
        proof {
            assert(s.conns() =~= Map::<usize, ConnView>::empty());
        }
        s
    }

    /// Admit a newly accepted client: assign the next identifier,
    /// create its state — empty buffer, read interest — and record it.
    /// The identifier is fresh: no live connection already holds it.
    pub fn accept_client(&mut self) -> (token: usize)
        requires
            old(self).wf(),
            old(self).counter() < usize::MAX,
        ensures
            final(self).wf(),
            token == old(self).counter(),
            token != LISTENER_TOKEN,
            !old(self).conns().contains_key(token),
            final(self).conns() == old(self).conns().insert(token, initial_conn()),
            final(self).counter() == old(self).counter() + 1,
    {
        let token = self.token_counter;
        let client = EchoServerConnection::new();
        self.clients.insert(token, client);
        self.token_counter = self.token_counter + 1;
        proof {
            assert(self.conns() =~= old(self).conns().insert(token, initial_conn()));
        }
        token
    }

    /// Drop a client's state. Removing an identifier that is absent —
    /// one already torn down — leaves the server unchanged, so teardown
    /// is idempotent; the counter is untouched either way.
    pub fn remove_client(&mut self, token: usize)
        requires
            old(self).wf(),
        ensures
            final(self).wf(),
            final(self).conns() == old(self).conns().remove(token),
            final(self).counter() == old(self).counter(),
    {
        self.clients.remove(&token);
        proof {
            assert(self.conns() =~= old(self).conns().remove(token));
        }
    }

    /// Whether a connection with this identifier is live.
    pub fn contains_client(&self, token: usize) -> (r: bool)
        ensures
            r == self.conns().contains_key(token),
    {
        let r = self.clients.contains_key(&token);
        proof {
            assert(self.clients@.contains_key(token) == self.conns().contains_key(token));
        }
        r
    }

    /// The run loop's decision for one readiness event, by its token.
    pub fn dispatch(&self, token: usize) -> (d: Dispatch)
        ensures
            token == LISTENER_TOKEN ==> d == Dispatch::AcceptNew,
            token != LISTENER_TOKEN && self.conns().contains_key(token) ==> d
                == Dispatch::HandleClient,
            token != LISTENER_TOKEN && !self.conns().contains_key(token) ==> d == Dispatch::Ignore,
    {
        if token == LISTENER_TOKEN {
            Dispatch::AcceptNew
        } else if self.contains_client(token) {
            Dispatch::HandleClient
        } else {
            Dispatch::Ignore
        }
    }

    /// Apply one read outcome to the connection this identifier names,
    /// leaving every other connection and the counter untouched.
    pub fn on_read(&mut self, token: usize, r: SocketRead) -> (a: ReadAction)
        requires
            old(self).wf(),
            old(self).conns().contains_key(token),
        ensures
            final(self).wf(),
            final(self).conns() == old(self).conns().insert(
                token,
                read_step(old(self).conns()[token], r),
            ),
            final(self).counter() == old(self).counter(),
            a == read_action(r),
    {
        let client_opt = self.clients.remove(&token);
        let mut client = client_opt.unwrap();
        let a = EchoServerHandler::handle_read(&mut client, r);
        self.clients.insert(token, client);
        proof {
            assert(self.conns() =~= old(self).conns().insert(
                token,
                read_step(old(self).conns()[token], r),
            ));
        }
        a
    }

    /// Apply one write outcome to the connection this identifier
    /// names, leaving every other connection and the counter untouched.
    /// The event loop offers the connection's pending bytes to the
    /// socket, so a successful count never exceeds what is pending.
    pub fn on_write(&mut self, token: usize, w: WriteOutcome) -> (a: WriteAction)
        requires
            old(self).wf(),
            old(self).conns().contains_key(token),
            w matches WriteOutcome::Wrote(n) ==> n <= old(self).conns()[token].pending.len(),
        ensures
            final(self).wf(),
            final(self).conns() == old(self).conns().insert(
                token,
                write_step(old(self).conns()[token], w),
            ),
            final(self).counter() == old(self).counter(),
            a == write_action(old(self).conns()[token], w),
    {
        let client_opt = self.clients.remove(&token);
        let mut client = client_opt.unwrap();
        let a = EchoServerHandler::handle_write(&mut client, w);
        self.clients.insert(token, client);
        proof {
            assert(self.conns() =~= old(self).conns().insert(
                token,
                write_step(old(self).conns()[token], w),
            ));
        }
        a
    }

    /// The readiness direction the poller registration for this
    /// connection must be updated to after a handler pass.
    pub fn interest_of(&self, token: usize) -> (i: Interest)
        requires
            self.conns().contains_key(token),
        ensures
            i == self.conns()[token].interest,
    {
        let client = self.clients.get(&token).unwrap();
        client.current_interest()
    }

    /// A copy of the bytes still owed to this connection's peer: what
    /// the event loop offers to the socket on writability.
    pub fn pending_of(&self, token: usize) -> (v: Vec<u8>)
        requires
            self.wf(),
            self.conns().contains_key(token),
        ensures
            v@ == self.conns()[token].pending,
    {
        let client = self.clients.get(&token).unwrap();
        client.pending_bytes()
    }

    /// How many connections are live.
    pub fn client_count(&self) -> (n: usize)
        ensures
            n == self.conns().len(),
    {
        let n = self.clients.len();
        proof {
            assert(self.conns().dom() =~= self.clients@.dom());
        }
        n
    }

    /// The identifier the next accepted client will get.
    pub fn next_token(&self) -> (t: usize)
        ensures
            t == self.counter(),
    {
        self.token_counter
    }
}

/// Removing a connection never costs the listener its ability to admit
/// new ones with fresh identifiers: the next identifier to be assigned
/// is never that of a live connection.
pub proof fn lemma_fresh_identifier(s: EchoServer)
    requires
        s.wf(),
    ensures
        !s.conns().contains_key(s.counter()),
{
}

} // verus!
