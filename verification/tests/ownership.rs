use core::marker::PhantomPinned;
use core::task::{Context, Poll, Waker};
use gen_stream::{
    GenPerpetualStream, GenStream, GenTryStream, Generator, GeneratorState, Never, Stream,
};
use std::cell::RefCell;
use std::rc::Rc;

/// Notes where it stands in memory each time it is resumed, and yields the
/// number of times it has been resumed.  It must not be moved once it has
/// been resumed, and says so by not being `Unpin`.
struct Rooted<R> {
    resumed: u32,
    places: Rc<RefCell<Vec<String>>>,
    _returns: core::marker::PhantomData<R>,
    _pinned: PhantomPinned,
}

impl<R> Rooted<R> {
    fn new(places: Rc<RefCell<Vec<String>>>) -> Self {
        Rooted { resumed: 0, places, _returns: core::marker::PhantomData, _pinned: PhantomPinned }
    }
}

impl<R> Generator for Rooted<R> {
    type Yield = Poll<u32>;
    type Return = R;

    fn resume(&mut self, _cx: &mut Context<'_>) -> GeneratorState<Poll<u32>, R> {
        let place = format!("{:p}", self);
        self.places.borrow_mut().push(place);
        self.resumed += 1;
        GeneratorState::Yielded(Poll::Ready(self.resumed))
    }
}

/// Notes when it is dropped.
struct Noting {
    dropped: Rc<RefCell<bool>>,
}

impl Drop for Noting {
    fn drop(&mut self) {
        *self.dropped.borrow_mut() = true;
    }
}

impl Generator for Noting {
    type Yield = Poll<u32>;
    type Return = ();

    fn resume(&mut self, _cx: &mut Context<'_>) -> GeneratorState<Poll<u32>, ()> {
        GeneratorState::Yielded(Poll::Pending)
    }
}

/// Pulls any stream a number of times and collects what it reported.
fn drain<S: Stream>(stream: &mut S, pulls: usize) -> Vec<Poll<Option<S::Item>>> {
    let mut cx = Context::from_waker(Waker::noop());
    let mut outs: Vec<Poll<Option<S::Item>>> = Vec::new();
    for _ in 0..pulls {
        outs.push(stream.poll_next(&mut cx));
    }
    outs
}

fn all_the_same(places: &Rc<RefCell<Vec<String>>>, expected: usize) -> bool {
    let places = places.borrow();
    places.len() == expected && places.iter().all(|place| *place == places[0])
}

fn is_unpin<T: Unpin>(_value: &T) -> bool {
    true
}

#[test]
fn ownership_generator_stays_put_while_the_stream_moves() {
    let mut cx = Context::from_waker(Waker::noop());
    let places = Rc::new(RefCell::new(Vec::new()));
    let mut stream = GenStream::from(Rooted::<()>::new(places.clone()));
    assert_eq!(stream.poll_next(&mut cx), Poll::Ready(Some(1)));
    let mut boxed = Box::new(stream);
    assert_eq!(boxed.poll_next(&mut cx), Poll::Ready(Some(2)));
    let mut held = vec![*boxed];
    assert_eq!(held[0].poll_next(&mut cx), Poll::Ready(Some(3)));
    held.reserve(1024);
    assert_eq!(held[0].poll_next(&mut cx), Poll::Ready(Some(4)));
    let mut last = held.pop().unwrap();
    assert_eq!(last.poll_next(&mut cx), Poll::Ready(Some(5)));
    assert!(all_the_same(&places, 5));
}

#[test]
fn ownership_perpetual_generator_stays_put_while_the_stream_moves() {
    let mut cx = Context::from_waker(Waker::noop());
    let places = Rc::new(RefCell::new(Vec::new()));
    let mut stream = GenPerpetualStream::from(Rooted::<Never>::new(places.clone()));
    assert_eq!(stream.poll_next(&mut cx), Poll::Ready(Some(1)));
    let mut moved = Some(stream);
    assert_eq!(moved.as_mut().unwrap().poll_next(&mut cx), Poll::Ready(Some(2)));
    let mut taken = moved.take().unwrap();
    assert_eq!(taken.poll_next(&mut cx), Poll::Ready(Some(3)));
    assert!(all_the_same(&places, 3));
}

#[test]
fn ownership_fallible_generator_stays_put_while_the_stream_moves() {
    let mut cx = Context::from_waker(Waker::noop());
    let places = Rc::new(RefCell::new(Vec::new()));
    let mut stream = GenTryStream::from(Rooted::<Result<(), u8>>::new(places.clone()));
    assert_eq!(stream.poll_next(&mut cx), Poll::Ready(Some(Ok(1))));
    let mut pair = (stream, 0u8);
    assert_eq!(pair.0.poll_next(&mut cx), Poll::Ready(Some(Ok(2))));
    let mut boxed = Box::new(pair.0);
    assert_eq!(boxed.poll_next(&mut cx), Poll::Ready(Some(Ok(3))));
    assert!(all_the_same(&places, 3));
}

#[test]
fn ownership_streams_may_move_whatever_the_generator() {
    let places = Rc::new(RefCell::new(Vec::new()));
    let finite = GenStream::from(Rooted::<()>::new(places.clone()));
    let perpetual = GenPerpetualStream::from(Rooted::<Never>::new(places.clone()));
    let fallible = GenTryStream::from(Rooted::<Result<(), u8>>::new(places.clone()));
    assert!(is_unpin(&finite));
    assert!(is_unpin(&perpetual));
    assert!(is_unpin(&fallible));
}

#[test]
fn ownership_dropping_the_stream_drops_the_generator() {
    let mut cx = Context::from_waker(Waker::noop());
    let dropped = Rc::new(RefCell::new(false));
    let mut stream = GenStream::from(Noting { dropped: dropped.clone() });
    assert_eq!(stream.poll_next(&mut cx), Poll::Pending);
    assert!(!*dropped.borrow());
    drop(stream);
    assert!(*dropped.borrow());
}

#[test]
fn ownership_streams_are_pulled_alike_through_the_trait() {
    let places = Rc::new(RefCell::new(Vec::new()));
    let mut finite = GenStream::from(Rooted::<()>::new(places.clone()));
    let mut perpetual = GenPerpetualStream::from(Rooted::<Never>::new(places.clone()));
    let mut fallible = GenTryStream::from(Rooted::<Result<(), u8>>::new(places.clone()));
    assert_eq!(drain(&mut finite, 2), vec![Poll::Ready(Some(1)), Poll::Ready(Some(2))]);
    assert_eq!(drain(&mut perpetual, 2), vec![Poll::Ready(Some(1)), Poll::Ready(Some(2))]);
    assert_eq!(drain(&mut fallible, 2), vec![Poll::Ready(Some(Ok(1))), Poll::Ready(Some(Ok(2)))]);
}
