//! What a stream is: a sequence that is pulled, one report at a time.
use core::task::{Context, Poll};
use vstd::prelude::*;

verus! {

/// A sequence of items that is pulled by polling.
///
/// A pull reports `Poll::Ready(Some(item))` for the next item, `Poll::Pending`
/// when the next item is not ready yet, and `Poll::Ready(None)` when the
/// sequence has ended.  After `Poll::Pending` the stream is pulled again once
/// the task has been woken through the context that the pull was given.
///
/// `pulled` is the stream's own account of its pulls, as
/// [`Generator::resumes`](crate::generator::Generator::resumes) is for a
/// generator.  Left as it is, it holds of everything.
pub trait Stream: Sized {
    /// What the stream hands out.
    type Item;

    /// Whether one pull can take the stream from `pre` to `post` and report
    /// `out`.
    open spec fn pulled(pre: Self, post: Self, out: Poll<Option<Self::Item>>) -> bool {
        true
    }

    /// Pulls the stream once, on behalf of the task whose context is `cx`.
    fn poll_next(&mut self, cx: &mut Context<'_>) -> (out: Poll<Option<Self::Item>>)
        ensures
            Self::pulled(*old(self), *final(self), out),
    ;
}

/// A run of pulls: `streams` are the stream's successive values, and `outs[i]`
/// is what the pull from `streams[i]` to `streams[i + 1]` reported.
pub open spec fn pulls<S: Stream>(streams: Seq<S>, outs: Seq<Poll<Option<S::Item>>>) -> bool {
    &&& streams.len() == outs.len() + 1
    &&& forall|i: int|
        #![trigger outs[i]]
        0 <= i < outs.len() ==> S::pulled(streams[i], streams[i + 1], outs[i])
}

/// The items that a run of pulls handed out, in the order of the run.
pub open spec fn items<I>(outs: Seq<Poll<Option<I>>>) -> Seq<I>
    decreases outs.len(),
{
    if outs.len() == 0 {
        Seq::empty()
    } else {
        let before = items(outs.drop_last());
        match outs.last() {
            Poll::Ready(Some(item)) => before.push(item),
            _ => before,
        }
    }
}

} // verus!
