//! What a generator is: state that is resumed, one step at a time.
use core::convert::Infallible;
use core::task::{Context, Poll};
use vstd::prelude::*;

verus! {

/// What one resumption of a generator hands back.
#[derive(Clone, Copy, Debug, PartialEq, Eq, Hash)]
pub enum GeneratorState<Y, R> {
    /// The generator stopped at a suspension point and yielded a value.
    Yielded(Y),
    /// The generator ran to its end and returned a value.
    Complete(R),
}

/// The return type of a generator that never completes.
///
/// No value of this type can be built, so a generator whose `Return` is
/// `Never` can only ever yield.
pub struct Never {
    void: Infallible,
}

impl Never {
    /// Holds of no value: to build a `Never` one would have to have an
    /// `Infallible` first.
    #[verifier::type_invariant]
    spec fn uninhabited(self) -> bool {
        false
    }
}

impl<Y> GeneratorState<Y, Never> {
    /// What a generator that never completes handed back: always a yielded
    /// value, since a completion would carry a [`Never`].
    pub fn yielded(self) -> (value: Y)
        ensures
            self == GeneratorState::<Y, Never>::Yielded(value),
    {
        match self {
            GeneratorState::Yielded(value) => value,
            GeneratorState::Complete(never) => {
                proof {
                    use_type_invariant(&never);
                }
                vstd::pervasive::unreached()
            },
        }
    }
}

/// A computation that is driven by resuming it.
///
/// The streams of this crate drive generators that yield `Poll` values: a
/// generator that has a value for its consumer yields it as `Poll::Ready`, and
/// one that waits on something yields `Poll::Pending`, a suspension, and
/// expects to be resumed once the task has been woken.
///
/// `resumes` is the generator's own account of its steps: it relates the
/// generator before a resumption, the generator after it, and what the
/// resumption handed back.  A generator whose steps depend on the outside
/// world relates one starting point to many outcomes.  Left as it is, the
/// relation holds of everything, and the generator promises nothing.
pub trait Generator: Sized {
    /// What the generator yields at a suspension point.
    type Yield;

    /// What the generator returns when it completes.
    type Return;

    /// Whether one resumption can take the generator from `pre` to `post`
    /// and hand back `state`.
    open spec fn resumes(
        pre: Self,
        post: Self,
        state: GeneratorState<Self::Yield, Self::Return>,
    ) -> bool {
        true
    }

    /// Runs the generator up to its next suspension point or to its end.
    ///
    /// `cx` is the context of the task that drives the generator.  The body
    /// polls the operations that it waits on with it, at whatever depth, and
    /// hands each result to [`gen_await`](crate::suspend::gen_await).
    fn resume(&mut self, cx: &mut Context<'_>) -> (state: GeneratorState<
        Self::Yield,
        Self::Return,
    >)
        ensures
            Self::resumes(*old(self), *final(self), state),
    ;
}

/// A run of a generator: `gens` are the generator's successive values, and
/// `states[i]` is what the resumption from `gens[i]` to `gens[i + 1]` handed
/// back.
pub open spec fn runs<G: Generator>(
    gens: Seq<G>,
    states: Seq<GeneratorState<G::Yield, G::Return>>,
) -> bool {
    &&& gens.len() == states.len() + 1
    &&& forall|i: int|
        #![trigger states[i]]
        0 <= i < states.len() ==> G::resumes(gens[i], gens[i + 1], states[i])
}

/// A generator's promise to stay complete: `done` holds of the generator once
/// it has completed, and a generator of which `done` holds can only complete
/// again.
pub open spec fn stays_complete<G: Generator>(done: spec_fn(G) -> bool) -> bool {
    forall|pre: G, post: G, state: GeneratorState<G::Yield, G::Return>|
        #[trigger] G::resumes(pre, post, state) ==> {
            &&& state is Complete ==> done(post)
            &&& done(pre) ==> state is Complete
        }
}

/// The values that a run yielded as ready, in the order of the run.
pub open spec fn ready_values<Y, R>(states: Seq<GeneratorState<Poll<Y>, R>>) -> Seq<Y>
    decreases states.len(),
{
    if states.len() == 0 {
        Seq::empty()
    } else {
        let before = ready_values(states.drop_last());
        match states.last() {
            GeneratorState::Yielded(Poll::Ready(value)) => before.push(value),
            _ => before,
        }
    }
}

} // verus!
