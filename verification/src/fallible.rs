//! The stream of a generator that may complete with a failure.
use crate::generator::{ready_values, runs, Generator, GeneratorState};
use crate::stream::{items, pulls, Stream};
use core::task::{Context, Poll};
use vstd::prelude::*;

verus! {

/// Stream based on generator that may fail.
///
/// The generator yields the stream's values and returns `Ok(())` or a failure.
/// A failure is handed out as the stream's last item, through the same channel
/// as the values.  Once the generator has completed, the stream is finished:
/// it never resumes the generator again and reports its end on every pull.
///
/// The generator lives in a heap cell that the stream owns, as in
/// [`GenStream`](crate::finite::GenStream).
pub struct GenTryStream<G> {
    inner: Box<G>,
    finished: bool,
}

impl<G> GenTryStream<G> {
    /// The generator that the stream drives.
    pub closed spec fn generator(self) -> G {
        *self.inner
    }

    /// Whether the generator has completed.
    pub closed spec fn finished(self) -> bool {
        self.finished
    }
}

impl<G> vstd::std_specs::convert::FromSpecImpl<G> for GenTryStream<G> {
    open spec fn obeys_from_spec() -> bool {
        true
    }

    closed spec fn from_spec(inner: G) -> Self {
        GenTryStream { inner: Box::new(inner), finished: false }
    }
}

impl<G> From<G> for GenTryStream<G> {
    /// Wraps a generator, as it stands, in a stream that is not finished.
    fn from(inner: G) -> (out: Self)
        ensures
            out.generator() == inner,
            !out.finished(),
    {
        GenTryStream { inner: Box::new(inner), finished: false }
    }
}

impl<G, T, E> GenTryStream<G> where G: Generator<Yield = Poll<T>, Return = Result<(), E>> {
    /// What the stream reports for what a resumption handed back.
    pub open spec fn emitted(state: GeneratorState<Poll<T>, Result<(), E>>) -> Poll<
        Option<Result<T, E>>,
    > {
        match state {
            GeneratorState::Yielded(Poll::Ready(value)) => Poll::Ready(Some(Ok(value))),
            GeneratorState::Yielded(Poll::Pending) => Poll::Pending,
            GeneratorState::Complete(Ok(_)) => Poll::Ready(None),
            GeneratorState::Complete(Err(failure)) => Poll::Ready(Some(Err(failure))),
        }
    }

    /// Turns what a resumption handed back into the stream's report: a ready
    /// value becomes a successful item, a suspension "not ready yet", a
    /// completion without failure the end of the stream, and a completion with
    /// a failure one last item that carries the failure.
    pub fn emit(state: GeneratorState<Poll<T>, Result<(), E>>) -> (out: Poll<
        Option<Result<T, E>>,
    >)
        ensures
            out == Self::emitted(state),
    {
        match state {
            GeneratorState::Yielded(Poll::Ready(value)) => Poll::Ready(Some(Ok(value))),
            GeneratorState::Yielded(Poll::Pending) => Poll::Pending,
            GeneratorState::Complete(Ok(_)) => Poll::Ready(None),
            GeneratorState::Complete(Err(failure)) => Poll::Ready(Some(Err(failure))),
        }
    }
}

impl<G, T, E> Stream for GenTryStream<G> where
    G: Generator<Yield = Poll<T>, Return = Result<(), E>>,
 {
    type Item = Result<T, E>;

    /// A pull of a finished stream reports the end and changes nothing.  A
    /// pull of any other is one resumption of the generator, reported as
    /// `emitted` says; it finishes the stream exactly if the generator
    /// completed.
    open spec fn pulled(pre: Self, post: Self, out: Poll<Option<Result<T, E>>>) -> bool {
        if pre.finished() {
            post == pre && out == Poll::<Option<Result<T, E>>>::Ready(None)
        } else {
            exists|state: GeneratorState<Poll<T>, Result<(), E>>|
                #[trigger] G::resumes(pre.generator(), post.generator(), state)
                    && post.finished() == (state is Complete)
                    && out == Self::emitted(state)
        }
    }

    /// Reports the end if the stream is finished.  Otherwise resumes the
    /// generator once, with `cx`, notes whether it completed, and reports what
    /// it handed back.
    fn poll_next(&mut self, cx: &mut Context<'_>) -> (out: Poll<Option<Result<T, E>>>)
        ensures
            Self::pulled(*old(self), *final(self), out),
    {
        if self.finished {
            return Poll::Ready(None);
        }
        let state = self.inner.resume(cx);
        if let GeneratorState::Complete(_) = state {
            self.finished = true;
        }
        assert(G::resumes(old(self).generator(), self.generator(), state));
        Self::emit(state)
    }
}

/// The values among a sequence of items, in order, with the failures left out.
pub open spec fn successes<T, E>(results: Seq<Result<T, E>>) -> Seq<T>
    decreases results.len(),
{
    if results.len() == 0 {
        Seq::empty()
    } else {
        let before = successes(results.drop_last());
        match results.last() {
            Ok(value) => before.push(value),
            Err(_) => before,
        }
    }
}

/// The failures among a sequence of items, in order, with the values left out.
pub open spec fn failures<T, E>(results: Seq<Result<T, E>>) -> Seq<E>
    decreases results.len(),
{
    if results.len() == 0 {
        Seq::empty()
    } else {
        let before = failures(results.drop_last());
        match results.last() {
            Ok(_) => before,
            Err(failure) => before.push(failure),
        }
    }
}

/// The failure with which a run of a generator ended, if it ended with one.
pub open spec fn final_failure<Y, E>(states: Seq<GeneratorState<Y, Result<(), E>>>) -> Seq<E> {
    if states.len() == 0 {
        Seq::empty()
    } else {
        match states.last() {
            GeneratorState::Complete(Err(failure)) => seq![failure],
            _ => Seq::empty(),
        }
    }
}

impl<G, T, E> GenTryStream<G> where G: Generator<Yield = Poll<T>, Return = Result<(), E>> {
    /// The generators of a run of streams.
    pub open spec fn generators(streams: Seq<Self>) -> Seq<G> {
        Seq::new(streams.len(), |i: int| streams[i].generator())
    }

    /// Whether a report ends the stream: the end itself, or the failure that
    /// is its last item.
    pub open spec fn terminal(out: Poll<Option<Result<T, E>>>) -> bool {
        out matches Poll::Ready(ended) && !(ended matches Some(Ok(_)))
    }

    /// A pull leaves the stream finished exactly if it found it finished or
    /// its report ends the stream: a value or "not ready yet" never finishes
    /// a stream, and the end or a failure always does.
    pub proof fn lemma_terminal_report_finishes(
        pre: Self,
        post: Self,
        out: Poll<Option<Result<T, E>>>,
    )
        requires
            Self::pulled(pre, post, out),
        ensures
            post.finished() <==> pre.finished() || Self::terminal(out),
    {
    }

    /// A finished stream stays as it is, whatever number of times it is
    /// pulled, and every one of those pulls reports the end.
    pub proof fn lemma_finished_is_final(
        streams: Seq<Self>,
        outs: Seq<Poll<Option<Result<T, E>>>>,
        start: int,
        at: int,
    )
        requires
            pulls(streams, outs),
            0 <= start <= at < outs.len(),
            streams[start].finished(),
        ensures
            outs[at] == Poll::<Option<Result<T, E>>>::Ready(None),
            streams[at + 1] == streams[start],
        decreases at - start,
    {
        if start < at {
            Self::lemma_finished_is_final(streams, outs, start, at - 1);
        }
        assert(Self::pulled(streams[at], streams[at + 1], outs[at]));
    }

    /// After the stream has handed out a failure, or reported its end, every
    /// later pull reports the end and leaves the stream as it is: at most one
    /// failure is ever handed out, and nothing comes after it.
    pub proof fn lemma_nothing_after_the_end(
        streams: Seq<Self>,
        outs: Seq<Poll<Option<Result<T, E>>>>,
        ended: int,
        later: int,
    )
        requires
            pulls(streams, outs),
            0 <= ended < later < outs.len(),
            Self::terminal(outs[ended]),
        ensures
            outs[later] == Poll::<Option<Result<T, E>>>::Ready(None),
            streams[later + 1] == streams[ended + 1],
    {
        assert(Self::pulled(streams[ended], streams[ended + 1], outs[ended]));
        Self::lemma_terminal_report_finishes(streams[ended], streams[ended + 1], outs[ended]);
        Self::lemma_finished_is_final(streams, outs, ended + 1, later);
    }

    /// Every run of pulls of a stream that starts unfinished goes along a run
    /// of the generator for its first `states.len()` pulls, and is at its end
    /// from then on.
    ///
    /// While it goes along, the stream reports what `emitted` makes of each
    /// state, and only the last of these resumptions can be a completion.  The
    /// pulls after them find the stream finished: they report the end and
    /// leave the generator alone.  So the values among the stream's items are
    /// the values that the generator yielded as ready, in the same order, and
    /// the only failure among them is the one with which the generator
    /// completed, if it did.
    pub proof fn lemma_pulls_follow_generator(
        streams: Seq<Self>,
        outs: Seq<Poll<Option<Result<T, E>>>>,
    ) -> (states: Seq<GeneratorState<Poll<T>, Result<(), E>>>)
        requires
            pulls(streams, outs),
            !streams[0].finished(),
        ensures
            states.len() <= outs.len(),
            runs(Self::generators(streams.take(states.len() as int + 1)), states),
            forall|i: int|
                0 <= i < states.len() ==> outs[i] == Self::emitted(#[trigger] states[i]),
            forall|i: int| 0 <= i < states.len() - 1 ==> #[trigger] states[i] is Yielded,
            streams[states.len() as int].finished() <==> states.len() > 0
                && states.last() is Complete,
            states.len() < outs.len() ==> streams[states.len() as int].finished(),
            forall|i: int|
                states.len() <= i < outs.len() ==> #[trigger] outs[i] == Poll::<
                    Option<Result<T, E>>,
                >::Ready(None) && streams[i + 1] == streams[states.len() as int],
            successes(items(outs)) == ready_values(states),
            failures(items(outs)) == final_failure(states),
        decreases outs.len(),
    {
        if outs.len() == 0 {
            Seq::empty()
        } else {
            let last = outs.len() - 1;
            let before = Self::lemma_pulls_follow_generator(
                streams.drop_last(),
                outs.drop_last(),
            );
            let made = before.len() as int;
            assert(Self::pulled(streams[last], streams[last + 1], outs[last]));
            if streams[last].finished() {
                // One more pull after the end: the run of the generator is
                // the one that led there.
                assert forall|i: int| made <= i < outs.len() implies #[trigger] outs[i]
                    == Poll::<Option<Result<T, E>>>::Ready(None) && streams[i + 1]
                    == streams[made] by {
                    if i < last {
                        assert(outs.drop_last()[i] == outs[i]);
                    }
                }
                before
            } else {
                // The stream is not finished yet, so every pull before this
                // one resumed the generator, and this one does too.
                let state = choose|state: GeneratorState<Poll<T>, Result<(), E>>|
                    #[trigger] G::resumes(
                        streams[last].generator(),
                        streams[last + 1].generator(),
                        state,
                    ) && streams[last + 1].finished() == (state is Complete) && outs[last]
                        == Self::emitted(state);
                let states = before.push(state);
                let gens = Self::generators(streams.take(states.len() as int + 1));
                assert forall|i: int| 0 <= i < states.len() implies G::resumes(
                    gens[i],
                    gens[i + 1],
                    #[trigger] states[i],
                ) by {}
                assert forall|i: int| 0 <= i < states.len() - 1 implies #[trigger] states[i]
                    is Yielded by {}
                assert(states.drop_last() == before);
                let handed = items(outs.drop_last());
                match state {
                    GeneratorState::Yielded(Poll::Ready(value)) => {
                        assert(handed.push(Ok(value)).drop_last() == handed);
                    },
                    GeneratorState::Complete(Err(failure)) => {
                        assert(handed.push(Err(failure)).drop_last() == handed);
                    },
                    _ => {},
                }
                states
            }
        }
    }
}

} // verus!
