//! The asynchronous-computation handle that a method call returns.
//!
//! A handler's work is represented by a future from the `futures` crate.
//! Every computation this crate builds is a leaf future that is ready at
//! once: `futures::future::result` wraps the outcome the handler produced,
//! and whatever drives the future to completion — `futures::Future::wait`,
//! or any executor — receives exactly that outcome. The spec function
//! [`resolved_outcome`] names, for a given ready future, the outcome it
//! resolves to; the contracts of the handler traits speak of the returned
//! computation through that name.

use futures::future::FutureResult;
use vstd::prelude::*;

use crate::values::{Error, Value};

verus! {

/// Declares `futures::future::FutureResult`, the crate's leaf future that is
/// ready at once, so that values of it can stand in signatures; the value is
/// opaque here and is read only through [`resolved_outcome`].
#[verifier::external_type_specification]
#[verifier::external_body]
#[verifier::reject_recursive_types(T)]
#[verifier::reject_recursive_types(E)]
pub struct ExFutureResult<T, E>(FutureResult<T, E>);

/// The outcome that a ready computation resolves to: the value it was built
/// from, handed out exactly once to whoever drives it to completion.
pub uninterp spec fn resolved_outcome(c: FutureResult<Value, Error>) -> Result<Value, Error>;

/// Relies on `futures::future::result`: the returned leaf future stores the
/// given outcome and resolves to it, immediately and exactly once.
#[verifier::external_body]
pub(crate) fn ready_computation(outcome: Result<Value, Error>) -> (c: FutureResult<Value, Error>)
    ensures
        resolved_outcome(c) == outcome,
{
    futures::future::result(outcome)
}

} // verus!
