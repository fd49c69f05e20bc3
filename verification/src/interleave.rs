//! Two streams driven side by side.
//!
//! A scheduler that drives two streams pulls now one, now the other.  A pull
//! of one stream takes that stream alone by `&mut`, so it leaves the other as
//! it is.  This module states what follows: whatever the order of the pulls,
//! what each stream reports is a run of that stream by itself.
use crate::stream::{pulls, Stream};
use core::task::Poll;
use vstd::prelude::*;

verus! {

/// What one pull of a pair of streams reported: the report of the left stream
/// or the report of the right one.
pub enum Turn<L, R> {
    /// The left stream was pulled and reported this.
    Left(L),
    /// The right stream was pulled and reported this.
    Right(R),
}

/// A run of a pair of streams: `lefts` and `rights` are the successive values
/// of the two streams, and `turns[i]` says which of them was pulled between
/// step `i` and step `i + 1`, and what it reported.  The stream that was not
/// pulled keeps its value.
pub open spec fn interleaved<A: Stream, B: Stream>(
    lefts: Seq<A>,
    rights: Seq<B>,
    turns: Seq<Turn<Poll<Option<A::Item>>, Poll<Option<B::Item>>>>,
) -> bool {
    &&& lefts.len() == turns.len() + 1
    &&& rights.len() == turns.len() + 1
    &&& forall|i: int|
        #![trigger turns[i]]
        0 <= i < turns.len() ==> match turns[i] {
            Turn::Left(out) => A::pulled(lefts[i], lefts[i + 1], out) && rights[i + 1]
                == rights[i],
            Turn::Right(out) => B::pulled(rights[i], rights[i + 1], out) && lefts[i + 1]
                == lefts[i],
        }
}

/// The reports of the left stream among the turns, in order.
pub open spec fn left_outs<L, R>(turns: Seq<Turn<L, R>>) -> Seq<L>
    decreases turns.len(),
{
    if turns.len() == 0 {
        Seq::empty()
    } else {
        let before = left_outs(turns.drop_last());
        match turns.last() {
            Turn::Left(out) => before.push(out),
            Turn::Right(_) => before,
        }
    }
}

/// The reports of the right stream among the turns, in order.
pub open spec fn right_outs<L, R>(turns: Seq<Turn<L, R>>) -> Seq<R>
    decreases turns.len(),
{
    if turns.len() == 0 {
        Seq::empty()
    } else {
        let before = right_outs(turns.drop_last());
        match turns.last() {
            Turn::Left(_) => before,
            Turn::Right(out) => before.push(out),
        }
    }
}

/// The successive values of the left stream, counting its own pulls only: its
/// first value, and its value after each turn in which it was pulled.
pub open spec fn left_streams<S, L, R>(lefts: Seq<S>, turns: Seq<Turn<L, R>>) -> Seq<S>
    recommends
        lefts.len() == turns.len() + 1,
    decreases turns.len(),
{
    if turns.len() == 0 {
        seq![lefts.first()]
    } else {
        let before = left_streams(lefts.drop_last(), turns.drop_last());
        match turns.last() {
            Turn::Left(_) => before.push(lefts.last()),
            Turn::Right(_) => before,
        }
    }
}

/// The successive values of the right stream, counting its own pulls only.
pub open spec fn right_streams<S, L, R>(rights: Seq<S>, turns: Seq<Turn<L, R>>) -> Seq<S>
    recommends
        rights.len() == turns.len() + 1,
    decreases turns.len(),
{
    if turns.len() == 0 {
        seq![rights.first()]
    } else {
        let before = right_streams(rights.drop_last(), turns.drop_last());
        match turns.last() {
            Turn::Left(_) => before,
            Turn::Right(_) => before.push(rights.last()),
        }
    }
}

/// A run of a pair of streams is still one when its last turn is left out.
proof fn lemma_interleaved_before<A: Stream, B: Stream>(
    lefts: Seq<A>,
    rights: Seq<B>,
    turns: Seq<Turn<Poll<Option<A::Item>>, Poll<Option<B::Item>>>>,
)
    requires
        interleaved(lefts, rights, turns),
        turns.len() > 0,
    ensures
        interleaved(lefts.drop_last(), rights.drop_last(), turns.drop_last()),
{
    assert forall|i: int| 0 <= i < turns.len() - 1 implies match #[trigger] turns.drop_last()[i] {
        Turn::Left(out) => A::pulled(lefts.drop_last()[i], lefts.drop_last()[i + 1], out)
            && rights.drop_last()[i + 1] == rights.drop_last()[i],
        Turn::Right(out) => B::pulled(rights.drop_last()[i], rights.drop_last()[i + 1], out)
            && lefts.drop_last()[i + 1] == lefts.drop_last()[i],
    } by {
        assert(turns.drop_last()[i] == turns[i]);
    }
}

/// However the pulls of two streams are interleaved, the left stream's
/// reports, in the order in which they came, are a run of the left stream by
/// itself, from its first value to its last.  The right stream's pulls have no
/// part in it.
pub proof fn lemma_left_runs_by_itself<A: Stream, B: Stream>(
    lefts: Seq<A>,
    rights: Seq<B>,
    turns: Seq<Turn<Poll<Option<A::Item>>, Poll<Option<B::Item>>>>,
)
    requires
        interleaved(lefts, rights, turns),
    ensures
        pulls(left_streams(lefts, turns), left_outs(turns)),
        left_streams(lefts, turns).first() == lefts.first(),
        left_streams(lefts, turns).last() == lefts.last(),
    decreases turns.len(),
{
    if turns.len() > 0 {
        lemma_interleaved_before(lefts, rights, turns);
        lemma_left_runs_by_itself(lefts.drop_last(), rights.drop_last(), turns.drop_last());
        let streams = left_streams(lefts.drop_last(), turns.drop_last());
        let outs = left_outs(turns.drop_last());
        match turns.last() {
            Turn::Left(out) => {
                assert forall|i: int| 0 <= i < outs.len() + 1 implies A::pulled(
                    streams.push(lefts.last())[i],
                    streams.push(lefts.last())[i + 1],
                    #[trigger] outs.push(out)[i],
                ) by {}
            },
            Turn::Right(_) => {},
        }
    }
}

/// However the pulls of two streams are interleaved, the right stream's
/// reports, in the order in which they came, are a run of the right stream by
/// itself, from its first value to its last.  The left stream's pulls have no
/// part in it.
pub proof fn lemma_right_runs_by_itself<A: Stream, B: Stream>(
    lefts: Seq<A>,
    rights: Seq<B>,
    turns: Seq<Turn<Poll<Option<A::Item>>, Poll<Option<B::Item>>>>,
)
    requires
        interleaved(lefts, rights, turns),
    ensures
        pulls(right_streams(rights, turns), right_outs(turns)),
        right_streams(rights, turns).first() == rights.first(),
        right_streams(rights, turns).last() == rights.last(),
    decreases turns.len(),
{
    if turns.len() > 0 {
        lemma_interleaved_before(lefts, rights, turns);
        lemma_right_runs_by_itself(lefts.drop_last(), rights.drop_last(), turns.drop_last());
        let streams = right_streams(rights.drop_last(), turns.drop_last());
        let outs = right_outs(turns.drop_last());
        match turns.last() {
            Turn::Left(_) => {},
            Turn::Right(out) => {
                assert forall|i: int| 0 <= i < outs.len() + 1 implies B::pulled(
                    streams.push(rights.last())[i],
                    streams.push(rights.last())[i + 1],
                    #[trigger] outs.push(out)[i],
                ) by {}
            },
        }
    }
}

} // verus!
