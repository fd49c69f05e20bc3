//! The two types of `core::task` that the crate's signatures mention.
use vstd::prelude::*;

verus! {

/// `core::task::Poll`, with its two variants `Ready` and `Pending` as `core`
/// defines them.  Nothing is claimed of it beyond its shape.
#[verifier::external_type_specification]
#[verifier::reject_recursive_types(T)]
pub struct ExPoll<T>(core::task::Poll<T>);

/// `core::task::Context`, the handle through which a suspended task asks to be
/// woken.  It is carried through to the generator and never looked into.
#[verifier::external_type_specification]
#[verifier::external_body]
pub struct ExContext<'a>(core::task::Context<'a>);

} // verus!
