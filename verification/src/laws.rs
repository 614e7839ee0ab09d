//! Laws of the echo state machine, proved over the spec-level
//! transitions that the handler's contracts are stated against.
//!
//! The read side is modelled by folding `read_data_step` over the
//! fragments a peer's payload happens to arrive in; the write side by
//! folding a take/skip drain over the counts the socket happens to
//! accept. The laws say that neither side loses, reorders, duplicates
//! or invents bytes, whatever the fragment boundaries and write counts,
//! and that connections never bleed into one another.

use vstd::prelude::*;

use crate::connection::{initial_conn, ConnView};
use crate::handler::read_data_step;

verus! {

/// Connection state after a whole read pass: each fragment, in arrival
/// order, appended by one `read_data_step`.
pub open spec fn absorb_fragments(c: ConnView, frags: Seq<Seq<u8>>) -> ConnView
    decreases frags.len(),
{
    if frags.len() == 0 {
        c
    } else {
        absorb_fragments(read_data_step(c, frags.first()), frags.drop_first())
    }
}

/// Partial reads lose nothing: however a payload is cut into
/// fragments — and however large it is — feeding them in one read at a
/// time accumulates exactly their concatenation, in order, after
/// whatever was already pending, and touches nothing else.
pub proof fn lemma_fragments_reassemble(c: ConnView, frags: Seq<Seq<u8>>)
    ensures
        absorb_fragments(c, frags).pending == c.pending + frags.flatten(),
        absorb_fragments(c, frags).interest == c.interest,
    decreases frags.len(),
{
    if frags.len() == 0 {
        assert(absorb_fragments(c, frags).pending =~= c.pending + frags.flatten());
    } else {
        lemma_fragments_reassemble(read_data_step(c, frags.first()), frags.drop_first());
        assert(absorb_fragments(c, frags).pending =~= c.pending + frags.flatten());
    }
}

/// Whether a series of write counts is feasible for a pending buffer:
/// each count is at most what is still pending at its turn, as a
/// socket can never accept more bytes than it is offered.
pub open spec fn counts_valid(p: Seq<u8>, counts: Seq<int>) -> bool
    decreases counts.len(),
{
    counts.len() == 0 || (0 <= counts.first() <= p.len() && counts_valid(
        p.skip(counts.first()),
        counts.drop_first(),
    ))
}

/// The bytes a series of write calls puts on the wire: each call sends
/// a prefix of what is then pending.
pub open spec fn echoed(p: Seq<u8>, counts: Seq<int>) -> Seq<u8>
    decreases counts.len(),
{
    if counts.len() == 0 {
        Seq::empty()
    } else {
        p.take(counts.first()) + echoed(p.skip(counts.first()), counts.drop_first())
    }
}

/// The bytes still pending after a series of write calls.
pub open spec fn remaining(p: Seq<u8>, counts: Seq<int>) -> Seq<u8>
    decreases counts.len(),
{
    if counts.len() == 0 {
        p
    } else {
        remaining(p.skip(counts.first()), counts.drop_first())
    }
}

/// Writes neither corrupt, reorder nor duplicate: what a series of
/// write calls has echoed, followed by what it left pending, is
/// exactly the buffer it started from.
pub proof fn lemma_echoed_plus_remaining(p: Seq<u8>, counts: Seq<int>)
    requires
        counts_valid(p, counts),
    ensures
        echoed(p, counts) + remaining(p, counts) == p,
    decreases counts.len(),
{
    if counts.len() == 0 {
        assert(echoed(p, counts) + remaining(p, counts) =~= p);
    } else {
        let n = counts.first();
        let rest = counts.drop_first();
        lemma_echoed_plus_remaining(p.skip(n), rest);
        assert(echoed(p, counts) + remaining(p, counts) =~= p.take(n) + (echoed(p.skip(n), rest)
            + remaining(p.skip(n), rest)));
        assert(p.take(n) + p.skip(n) =~= p);
    }
}

/// A write pass that drains the pending buffer echoes exactly its
/// bytes, byte for byte, in order.
pub proof fn lemma_drain_echoes_exactly(p: Seq<u8>, counts: Seq<int>)
    requires
        counts_valid(p, counts),
        remaining(p, counts).len() == 0,
    ensures
        echoed(p, counts) == p,
{
    lemma_echoed_plus_remaining(p, counts);
    assert(echoed(p, counts) =~= p);
}

/// Echo fidelity, end to end: whatever finite byte sequence a peer
/// sends, in however many writes, a fresh connection that absorbs the
/// fragments and is then drained by any feasible series of write calls
/// puts exactly that byte sequence back on the wire — no additions, no
/// omissions, in order.
pub proof fn lemma_echo_fidelity(frags: Seq<Seq<u8>>, counts: Seq<int>)
    requires
        counts_valid(frags.flatten(), counts),
        remaining(frags.flatten(), counts).len() == 0,
    ensures
        echoed(absorb_fragments(initial_conn(), frags).pending, counts) == frags.flatten(),
{
    lemma_fragments_reassemble(initial_conn(), frags);
    assert(absorb_fragments(initial_conn(), frags).pending =~= frags.flatten());
    lemma_drain_echoes_exactly(frags.flatten(), counts);
}

/// State of every connection after a series of arrivals, each event
/// appending its data to the connection its identifier names; events
/// naming no live connection are ignored, as the server ignores events
/// for connections already torn down.
pub open spec fn absorb_arrivals(
    m: Map<usize, ConnView>,
    evs: Seq<(usize, Seq<u8>)>,
) -> Map<usize, ConnView>
    decreases evs.len(),
{
    if evs.len() == 0 {
        m
    } else {
        let ev = evs.first();
        let m1 = if m.contains_key(ev.0) {
            m.insert(ev.0, read_data_step(m[ev.0], ev.1))
        } else {
            m
        };
        absorb_arrivals(m1, evs.drop_first())
    }
}

/// The fragments among a series of arrivals that belong to one
/// identifier, in arrival order.
pub open spec fn fragments_for(evs: Seq<(usize, Seq<u8>)>, t: usize) -> Seq<Seq<u8>>
    decreases evs.len(),
{
    if evs.len() == 0 {
        Seq::empty()
    } else if evs.first().0 == t {
        seq![evs.first().1] + fragments_for(evs.drop_first(), t)
    } else {
        fragments_for(evs.drop_first(), t)
    }
}

/// No cross-delivery: however arrivals for any number of connections
/// interleave, each live connection accumulates exactly its own
/// fragments, in order — nothing from any other connection.
pub proof fn lemma_no_cross_delivery(
    m: Map<usize, ConnView>,
    evs: Seq<(usize, Seq<u8>)>,
    t: usize,
)
    requires
        m.contains_key(t),
    ensures
        absorb_arrivals(m, evs).contains_key(t),
        absorb_arrivals(m, evs)[t].pending == m[t].pending + fragments_for(evs, t).flatten(),
        absorb_arrivals(m, evs)[t].interest == m[t].interest,
    decreases evs.len(),
{
    if evs.len() == 0 {
        assert(absorb_arrivals(m, evs)[t].pending =~= m[t].pending + fragments_for(
            evs,
            t,
        ).flatten());
    } else {
        let ev = evs.first();
        let m1 = if m.contains_key(ev.0) {
            m.insert(ev.0, read_data_step(m[ev.0], ev.1))
        } else {
            m
        };
        lemma_no_cross_delivery(m1, evs.drop_first(), t);
        if ev.0 == t {
            assert((seq![ev.1] + fragments_for(evs.drop_first(), t)).drop_first()
                =~= fragments_for(evs.drop_first(), t));
            assert(fragments_for(evs, t).flatten() == ev.1 + fragments_for(
                evs.drop_first(),
                t,
            ).flatten());
        }
        assert(absorb_arrivals(m, evs)[t].pending =~= m[t].pending + fragments_for(
            evs,
            t,
        ).flatten());
    }
}

/// Tearing the same connection down twice is the same as tearing it
/// down once: removal by identifier is idempotent, and the rest of the
/// server — every other connection, and with it the listener's ability
/// to go on accepting — is untouched.
pub proof fn lemma_remove_idempotent(m: Map<usize, ConnView>, t: usize)
    ensures
        m.remove(t).remove(t) == m.remove(t),
        forall|u: usize| u != t && m.contains_key(u) ==> #[trigger] m.remove(t)[u] == m[u],
{
    assert(m.remove(t).remove(t) =~= m.remove(t));
}

} // verus!
