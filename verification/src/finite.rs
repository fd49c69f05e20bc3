//! The stream of a generator that completes.
use crate::generator::{ready_values, runs, stays_complete, Generator, GeneratorState};
use crate::stream::{items, pulls, Stream};
use core::task::{Context, Poll};
use vstd::prelude::*;

verus! {

/// Simple generator-based stream.
///
/// Every pull resumes the generator once.  The stream keeps no record of the
/// generator having completed: a pull after the end resumes it again, and what
/// that reports is the generator's own affair.
///
/// The generator lives in a heap cell that the stream owns.  Nothing hands it
/// out again, so it stays where it was put for as long as the stream exists,
/// wherever the stream itself is moved.
pub struct GenStream<G> {
    inner: Box<G>,
}

impl<G> GenStream<G> {
    /// The generator that the stream drives.
    pub closed spec fn generator(self) -> G {
        *self.inner
    }
}

impl<G> vstd::std_specs::convert::FromSpecImpl<G> for GenStream<G> {
    open spec fn obeys_from_spec() -> bool {
        true
    }

    closed spec fn from_spec(inner: G) -> Self {
        GenStream { inner: Box::new(inner) }
    }
}

impl<G> From<G> for GenStream<G> {
    /// Wraps a generator, as it stands.
    fn from(inner: G) -> (out: Self)
        ensures
            out.generator() == inner,
    {
        GenStream { inner: Box::new(inner) }
    }
}

impl<G, Y> GenStream<G> where G: Generator<Yield = Poll<Y>, Return = ()> {
    /// What the stream reports for what a resumption handed back.
    pub open spec fn emitted(state: GeneratorState<Poll<Y>, ()>) -> Poll<Option<Y>> {
        match state {
            GeneratorState::Yielded(Poll::Ready(item)) => Poll::Ready(Some(item)),
            GeneratorState::Yielded(Poll::Pending) => Poll::Pending,
            GeneratorState::Complete(_) => Poll::Ready(None),
        }
    }

    /// Turns what a resumption handed back into the stream's report: a ready
    /// value becomes an item, a suspension "not ready yet", and completion the
    /// end of the stream.
    pub fn emit(state: GeneratorState<Poll<Y>, ()>) -> (out: Poll<Option<Y>>)
        ensures
            out == Self::emitted(state),
    {
        match state {
            GeneratorState::Yielded(Poll::Ready(item)) => Poll::Ready(Some(item)),
            GeneratorState::Yielded(Poll::Pending) => Poll::Pending,
            GeneratorState::Complete(_) => Poll::Ready(None),
        }
    }
}

impl<G, Y> Stream for GenStream<G> where G: Generator<Yield = Poll<Y>, Return = ()> {
    type Item = Y;

    /// A pull is one resumption of the generator, reported as `emitted` says.
    open spec fn pulled(pre: Self, post: Self, out: Poll<Option<Y>>) -> bool {
        exists|state: GeneratorState<Poll<Y>, ()>|
            #[trigger] G::resumes(pre.generator(), post.generator(), state) && out
                == Self::emitted(state)
    }

    /// Resumes the generator once, with `cx`, and reports what it handed back.
    fn poll_next(&mut self, cx: &mut Context<'_>) -> (out: Poll<Option<Y>>)
        ensures
            Self::pulled(*old(self), *final(self), out),
    {
        let state = self.inner.resume(cx);
        assert(G::resumes(old(self).generator(), self.generator(), state));
        Self::emit(state)
    }
}

impl<G, Y> GenStream<G> where G: Generator<Yield = Poll<Y>, Return = ()> {
    /// The generators of a run of streams.
    pub open spec fn generators(streams: Seq<Self>) -> Seq<G> {
        Seq::new(streams.len(), |i: int| streams[i].generator())
    }

    /// Every run of pulls goes along a run of the generator, resumption by
    /// resumption: the stream reports what `emitted` makes of each state, so
    /// its items are the values that the generator yielded as ready, in the
    /// same order, and it reports "not ready yet" exactly where the generator
    /// yielded a suspension.
    pub proof fn lemma_pulls_follow_generator(
        streams: Seq<Self>,
        outs: Seq<Poll<Option<Y>>>,
    ) -> (states: Seq<GeneratorState<Poll<Y>, ()>>)
        requires
            pulls(streams, outs),
        ensures
            runs(Self::generators(streams), states),
            states.len() == outs.len(),
            forall|i: int| 0 <= i < outs.len() ==> outs[i] == Self::emitted(#[trigger] states[i]),
            forall|i: int|
                0 <= i < outs.len() ==> (outs[i] is Pending <==> #[trigger] states[i]
                    == GeneratorState::<Poll<Y>, ()>::Yielded(Poll::Pending)),
            items(outs) == ready_values(states),
    {
        let states = Seq::new(
            outs.len(),
            |i: int|
                choose|state: GeneratorState<Poll<Y>, ()>|
                    #[trigger] G::resumes(
                        streams[i].generator(),
                        streams[i + 1].generator(),
                        state,
                    ) && outs[i] == Self::emitted(state),
        );
        let gens = Self::generators(streams);
        assert forall|i: int| 0 <= i < outs.len() implies G::resumes(
            gens[i],
            gens[i + 1],
            #[trigger] states[i],
        ) && outs[i] == Self::emitted(states[i]) by {
            assert(Self::pulled(streams[i], streams[i + 1], outs[i]));
        }
        Self::lemma_items_are_ready_values(states, outs);
        states
    }

    /// The stream does not remember that the generator completed; what it
    /// reports after its end is up to the generator.  Where the generator
    /// promises to stay complete (`done` holds of it once it has completed, and
    /// from then on it can only complete again), the stream stays at its end:
    /// after one report of the end, every later pull reports it too.
    pub proof fn lemma_end_lasts_while_generator_stays_complete(
        streams: Seq<Self>,
        outs: Seq<Poll<Option<Y>>>,
        done: spec_fn(G) -> bool,
        first: int,
        later: int,
    )
        requires
            pulls(streams, outs),
            stays_complete::<G>(done),
            0 <= first < later < outs.len(),
            outs[first] == Poll::<Option<Y>>::Ready(None),
        ensures
            outs[later] == Poll::<Option<Y>>::Ready(None),
            done(streams[later + 1].generator()),
        decreases later - first,
    {
        assert(Self::pulled(streams[first], streams[first + 1], outs[first]));
        if first + 1 < later {
            Self::lemma_end_lasts_while_generator_stays_complete(
                streams,
                outs,
                done,
                first,
                later - 1,
            );
        }
        assert(Self::pulled(streams[later], streams[later + 1], outs[later]));
    }

    /// The items among the reports of a sequence of states are the ready
    /// values among the states.
    proof fn lemma_items_are_ready_values(
        states: Seq<GeneratorState<Poll<Y>, ()>>,
        outs: Seq<Poll<Option<Y>>>,
    )
        requires
            states.len() == outs.len(),
            forall|i: int| 0 <= i < outs.len() ==> outs[i] == Self::emitted(#[trigger] states[i]),
        ensures
            items(outs) == ready_values(states),
        decreases outs.len(),
    {
        if outs.len() > 0 {
            Self::lemma_items_are_ready_values(states.drop_last(), outs.drop_last());
        }
    }
}

} // verus!
