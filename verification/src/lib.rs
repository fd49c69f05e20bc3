//! Generator-based streams.
//!
//! A generator is a piece of state that is resumed again and again; each
//! resumption either yields a value or completes.  The adapters of this crate
//! own such a generator and present it as a poll-based stream: every pull
//! resumes the generator once and reports an item, "not ready yet", or the end
//! of the stream.
//!
//! Three adapters cover the three ways in which a generator can end:
//!
//! - [`GenStream`] for a generator that simply completes,
//! - [`GenPerpetualStream`] for one that never does, and
//! - [`GenTryStream`] for one that may complete with a failure.
//!
//! [`gen_await`] is the suspension point of a generator body: it lets the body
//! wait on an operation by yielding until the operation is ready.
//!
//! The task context travels as an argument of [`Generator::resume`], from the
//! pull to the body and on to every operation that the body polls, so that no
//! ambient state is needed to reach it.
//!
//! Each adapter states, over the generator's own account of its steps, what a
//! pull does ([`Stream::pulled`]), and proves what follows for whole runs:
//! that the items of a stream are the values its generator yielded, in order;
//! that a perpetual stream never ends; that nothing follows the failure of a
//! fallible one; and ([`interleave`]) that two streams driven side by side do
//! not touch each other.
pub mod fallible;
pub mod finite;
pub mod generator;
pub mod interleave;
pub mod perpetual;
pub mod stream;
pub mod suspend;
pub mod task;

pub use fallible::GenTryStream;
pub use finite::GenStream;
pub use generator::{Generator, GeneratorState, Never};
pub use perpetual::GenPerpetualStream;
pub use stream::Stream;
pub use suspend::gen_await;
