//! The suspension point of a generator body.
use crate::generator::GeneratorState;
use core::task::Poll;
use vstd::prelude::*;

verus! {

/// What a generator body does with the result of polling an operation that it
/// waits on: go on with the value, or yield a suspension.
pub open spec fn awaited<X, Y, R>(polled: Poll<X>) -> Result<X, GeneratorState<Poll<Y>, R>> {
    match polled {
        Poll::Ready(value) => Ok(value),
        Poll::Pending => Err(GeneratorState::Yielded(Poll::Pending)),
    }
}

/// Like `await`, but for a hand-written generator.
///
/// A body that waits on an operation polls it with the context that
/// `resume` was given and hands the result to `gen_await`.  `Ok(value)` is the
/// operation's value, with which the body goes on.  `Err(suspended)` is what
/// the body returns from this resumption; resumed again, it polls the
/// operation again:
///
/// ```text
/// let value = match gen_await(operation.poll(cx)) {
///     Ok(value) => value,
///     Err(suspended) => return suspended,
/// };
/// ```
///
/// Polling an operation means something only while a task drives the
/// generator, so this belongs in the body of `resume` and nowhere else.
pub fn gen_await<X, Y, R>(polled: Poll<X>) -> (out: Result<X, GeneratorState<Poll<Y>, R>>)
    ensures
        out == awaited::<X, Y, R>(polled),
{
    match polled {
        Poll::Ready(value) => Ok(value),
        Poll::Pending => Err(GeneratorState::Yielded(Poll::Pending)),
    }
}

/// A wait on an operation that is pending `pending` times and then ready
/// suspends the generator exactly `pending` times, once for each of those
/// polls, and then goes on with the operation's value.
pub proof fn lemma_suspends_while_pending<X, Y, R>(polls: Seq<Poll<X>>, pending: nat, value: X)
    requires
        polls.len() == pending + 1,
        forall|i: int| 0 <= i < pending ==> polls[i] == Poll::<X>::Pending,
        polls[pending as int] == Poll::Ready(value),
    ensures
        forall|i: int|
            0 <= i < pending ==> awaited::<X, Y, R>(#[trigger] polls[i]) == Err::<
                X,
                GeneratorState<Poll<Y>, R>,
            >(GeneratorState::Yielded(Poll::Pending)),
        awaited::<X, Y, R>(polls[pending as int]) == Ok::<X, GeneratorState<Poll<Y>, R>>(value),
{
}

} // verus!
