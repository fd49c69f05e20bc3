//! The stream of a generator that never completes.
use crate::generator::{ready_values, runs, Generator, GeneratorState, Never};
use crate::stream::{items, pulls, Stream};
use core::task::{Context, Poll};
use vstd::prelude::*;

verus! {

/// Stream based on generator that never ends.
///
/// The generator's return type is [`Never`], of which there is no value, so
/// no resumption can report completion and the stream never reports its end.
///
/// The generator lives in a heap cell that the stream owns, as in
/// [`GenStream`](crate::finite::GenStream).
pub struct GenPerpetualStream<G> {
    inner: Box<G>,
}

impl<G> GenPerpetualStream<G> {
    /// The generator that the stream drives.
    pub closed spec fn generator(self) -> G {
        *self.inner
    }
}

impl<G> vstd::std_specs::convert::FromSpecImpl<G> for GenPerpetualStream<G> {
    open spec fn obeys_from_spec() -> bool {
        true
    }

    closed spec fn from_spec(inner: G) -> Self {
        GenPerpetualStream { inner: Box::new(inner) }
    }
}

impl<G> From<G> for GenPerpetualStream<G> {
    /// Wraps a generator, as it stands.
    fn from(inner: G) -> (out: Self)
        ensures
            out.generator() == inner,
    {
        GenPerpetualStream { inner: Box::new(inner) }
    }
}

impl<G, Y> GenPerpetualStream<G> where G: Generator<Yield = Poll<Y>, Return = Never> {
    /// What the stream reports for a value that the generator yielded.
    pub open spec fn emitted(value: Poll<Y>) -> Poll<Option<Y>> {
        match value {
            Poll::Ready(item) => Poll::Ready(Some(item)),
            Poll::Pending => Poll::Pending,
        }
    }

    /// Turns what a resumption handed back into the stream's report: a ready
    /// value becomes an item and a suspension "not ready yet".  A completion
    /// there cannot be, for want of a value that it could carry.
    pub fn emit(state: GeneratorState<Poll<Y>, Never>) -> (out: Poll<Option<Y>>)
        ensures
            state matches GeneratorState::Yielded(value) && out == Self::emitted(value),
    {
        match state.yielded() {
            Poll::Ready(item) => Poll::Ready(Some(item)),
            Poll::Pending => Poll::Pending,
        }
    }
}

impl<G, Y> Stream for GenPerpetualStream<G> where G: Generator<Yield = Poll<Y>, Return = Never> {
    type Item = Y;

    /// A pull is one resumption of the generator, in which it yielded,
    /// reported as `emitted` says.
    open spec fn pulled(pre: Self, post: Self, out: Poll<Option<Y>>) -> bool {
        exists|value: Poll<Y>|
            #[trigger] G::resumes(
                pre.generator(),
                post.generator(),
                GeneratorState::Yielded(value),
            ) && out == Self::emitted(value)
    }

    /// Resumes the generator once, with `cx`, and reports what it yielded.
    /// The report is never the end of the stream.
    fn poll_next(&mut self, cx: &mut Context<'_>) -> (out: Poll<Option<Y>>)
        ensures
            Self::pulled(*old(self), *final(self), out),
            out != Poll::<Option<Y>>::Ready(None),
    {
        let state = self.inner.resume(cx);
        assert(G::resumes(old(self).generator(), self.generator(), state));
        Self::emit(state)
    }
}

impl<G, Y> GenPerpetualStream<G> where G: Generator<Yield = Poll<Y>, Return = Never> {
    /// The generators of a run of streams.
    pub open spec fn generators(streams: Seq<Self>) -> Seq<G> {
        Seq::new(streams.len(), |i: int| streams[i].generator())
    }

    /// However often the stream is pulled, it never reports its end: every
    /// report is an item or "not ready yet".
    pub proof fn lemma_never_ends(streams: Seq<Self>, outs: Seq<Poll<Option<Y>>>)
        requires
            pulls(streams, outs),
        ensures
            forall|i: int|
                0 <= i < outs.len() ==> #[trigger] outs[i] != Poll::<Option<Y>>::Ready(None),
    {
        assert forall|i: int| 0 <= i < outs.len() implies #[trigger] outs[i] != Poll::<
            Option<Y>,
        >::Ready(None) by {
            assert(Self::pulled(streams[i], streams[i + 1], outs[i]));
        }
    }

    /// Every run of pulls goes along a run of the generator, resumption by
    /// resumption, in which the generator only ever yields: the stream
    /// reports what `emitted` makes of each yielded value, so its items are
    /// the values that the generator yielded as ready, in the same order, and
    /// it reports "not ready yet" exactly where the generator yielded a
    /// suspension.
    pub proof fn lemma_pulls_follow_generator(
        streams: Seq<Self>,
        outs: Seq<Poll<Option<Y>>>,
    ) -> (states: Seq<GeneratorState<Poll<Y>, Never>>)
        requires
            pulls(streams, outs),
        ensures
            runs(Self::generators(streams), states),
            states.len() == outs.len(),
            forall|i: int|
                0 <= i < outs.len() ==> (#[trigger] states[i] matches GeneratorState::Yielded(
                    value,
                ) && outs[i] == Self::emitted(value)),
            forall|i: int|
                0 <= i < outs.len() ==> (outs[i] is Pending <==> #[trigger] states[i]
                    == GeneratorState::<Poll<Y>, Never>::Yielded(Poll::Pending)),
            items(outs) == ready_values(states),
    {
        let states = Seq::new(
            outs.len(),
            |i: int|
                GeneratorState::<Poll<Y>, Never>::Yielded(
                    choose|value: Poll<Y>|
                        #[trigger] G::resumes(
                            streams[i].generator(),
                            streams[i + 1].generator(),
                            GeneratorState::Yielded(value),
                        ) && outs[i] == Self::emitted(value),
                ),
        );
        let gens = Self::generators(streams);
        assert forall|i: int| 0 <= i < outs.len() implies G::resumes(
            gens[i],
            gens[i + 1],
            #[trigger] states[i],
        ) && (states[i] matches GeneratorState::Yielded(value) && outs[i] == Self::emitted(
            value,
        )) by {
            assert(Self::pulled(streams[i], streams[i + 1], outs[i]));
        }
        Self::lemma_items_are_ready_values(states, outs);
        states
    }

    /// The items among the reports of a sequence of yielded values are the
    /// ready values among them.
    proof fn lemma_items_are_ready_values(
        states: Seq<GeneratorState<Poll<Y>, Never>>,
        outs: Seq<Poll<Option<Y>>>,
    )
        requires
            states.len() == outs.len(),
            forall|i: int|
                0 <= i < outs.len() ==> (#[trigger] states[i] matches GeneratorState::Yielded(
                    value,
                ) && outs[i] == Self::emitted(value)),
        ensures
            items(outs) == ready_values(states),
        decreases outs.len(),
    {
        if outs.len() > 0 {
            Self::lemma_items_are_ready_values(states.drop_last(), outs.drop_last());
        }
    }
}

} // verus!
