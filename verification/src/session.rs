//! The shared session: one bridge behind an exclusive-access guard, so
//! that concurrent callers are serialized into strict write-then-read
//! round trips against the single underlying pipe pair.
//!
//! The guard itself is whatever mutual-exclusion primitive the embedding
//! runtime provides (ordering among waiters is whatever that primitive
//! gives — not necessarily FIFO); this module states what serialization
//! buys: the pipe transcript of any number of guarded rounds is free of
//! interleaving.

use vstd::prelude::*;

verus! {

/// One primitive operation observed on the bridge's pipes.
pub enum PipeOp {
    Write(Seq<char>),
    Read(Seq<char>),
}

/// The pipe operations of one guarded round trip: the request line is
/// written, then exactly one reply line is read, with the guard held
/// throughout.
pub open spec fn round_trace(payload: Seq<char>, reply: Seq<char>) -> Seq<PipeOp> {
    seq![PipeOp::Write(payload), PipeOp::Read(reply)]
}

/// The pipe transcript of a whole session: the guarded rounds laid end to
/// end, in the order the guard admitted them.
pub open spec fn session_trace(rounds: Seq<(Seq<char>, Seq<char>)>) -> Seq<PipeOp>
    decreases rounds.len(),
{
    if rounds.len() == 0 {
        Seq::empty()
    } else {
        round_trace(rounds[0].0, rounds[0].1) + session_trace(rounds.drop_first())
    }
}

pub open spec fn count_writes(t: Seq<PipeOp>) -> nat
    decreases t.len(),
{
    if t.len() == 0 {
        0
    } else {
        (if t[0] is Write {
            1nat
        } else {
            0nat
        }) + count_writes(t.drop_first())
    }
}

pub open spec fn count_reads(t: Seq<PipeOp>) -> nat
    decreases t.len(),
{
    if t.len() == 0 {
        0
    } else {
        (if t[0] is Read {
            1nat
        } else {
            0nat
        }) + count_reads(t.drop_first())
    }
}

/// Single-flight invariant: any number of guarded round trips against one
/// session produce exactly one write and one read per round on the
/// underlying pipe, and each write is immediately followed by its own
/// round's read before the next write begins — no interleaving.
pub proof fn lemma_single_flight(rounds: Seq<(Seq<char>, Seq<char>)>)
    ensures
        session_trace(rounds).len() == 2 * rounds.len(),
        count_writes(session_trace(rounds)) == rounds.len(),
        count_reads(session_trace(rounds)) == rounds.len(),
        forall|i: int|
            0 <= i < rounds.len() ==> session_trace(rounds)[2 * i] == PipeOp::Write(rounds[i].0),
        forall|i: int|
            0 <= i < rounds.len() ==> session_trace(rounds)[2 * i + 1] == PipeOp::Read(
                rounds[i].1,
            ),
    decreases rounds.len(),
{
    if rounds.len() == 0 {
    } else {
        let rest = rounds.drop_first();
        lemma_single_flight(rest);
        let t = session_trace(rounds);
        let t1 = session_trace(rest);
        let head = round_trace(rounds[0].0, rounds[0].1);
        assert(t == head + t1);
        let mid = seq![PipeOp::Read(rounds[0].1)] + t1;
        assert(t.drop_first() =~= mid);
        assert(mid.drop_first() =~= t1);
        assert(t[0] == PipeOp::Write(rounds[0].0));
        assert(mid[0] == PipeOp::Read(rounds[0].1));
        assert(count_writes(t) == 1 + count_writes(mid));
        assert(count_writes(mid) == count_writes(t1));
        assert(count_reads(t) == count_reads(mid));
        assert(count_reads(mid) == 1 + count_reads(t1));
        assert forall|i: int| 0 <= i < rounds.len() implies t[2 * i] == PipeOp::Write(rounds[i].0)
            && t[2 * i + 1] == PipeOp::Read(rounds[i].1) by {
            if i == 0 {
                assert(t[0] == head[0]);
                assert(t[1] == head[1]);
            } else {
                assert(t[2 * i] == t1[2 * (i - 1)]);
                assert(t[2 * i + 1] == t1[2 * (i - 1) + 1]);
                assert(rest[i - 1] == rounds[i]);
            }
        }
    }
}

} // verus!
