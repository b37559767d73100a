//! The three-layer result envelope of one dispatched work item, and its
//! collapse into a single discriminated result.
//!
//! Layer one: was the item delivered to a worker at all? Layer two: did that
//! worker obtain a connection? Layer three: what did the caller's closure
//! return? [`collapse`] folds the three layers into `Result<R, AsyncError<E>>`
//! exactly as the caller's suspension point resumes with it.

use vstd::prelude::*;

use crate::error::AsyncError;
use crate::error::CheckoutError;
use crate::error::DeliveryError;

verus! {

/// The raw outcome of one dispatch: delivery, then checkout, then execution.
pub type Envelope<R, E> = Result<Result<Result<R, E>, CheckoutError>, DeliveryError>;

/// What [`collapse`] returns for a given envelope.
pub open spec fn collapse_spec<R, E>(env: Envelope<R, E>) -> Result<R, AsyncError<E>> {
    match env {
        Result::Ok(Result::Ok(Result::Ok(value))) => Result::Ok(value),
        Result::Ok(Result::Ok(Result::Err(err))) => Result::Err(AsyncError::Execute(err)),
        Result::Ok(Result::Err(err)) => Result::Err(AsyncError::Timeout(err)),
        Result::Err(err) => Result::Err(AsyncError::Delivery(err)),
    }
}

/// Folds the three-layer envelope into the single result handed back to the
/// caller: the closure's value, its own error, a checkout failure, or a
/// delivery failure — whichever the envelope holds.
pub fn collapse<R, E>(env: Envelope<R, E>) -> (r: Result<R, AsyncError<E>>)
    ensures
        r == collapse_spec(env),
{
    match env {
        Ok(res) => match res {
            Ok(res) => match res {
                Ok(value) => Ok(value),
                Err(err) => Err(AsyncError::Execute(err)),
            },
            Err(err) => Err(AsyncError::Timeout(err)),
        },
        Err(err) => Err(AsyncError::Delivery(err)),
    }
}

/// Every dispatched work item resolves to exactly one of the four outcomes:
/// success, delivery failure, checkout failure, or execution failure. For
/// every envelope, precisely one of the four holds of the collapsed result —
/// never zero, never more than one.
pub proof fn lemma_exactly_one_response<R, E>(env: Envelope<R, E>)
    ensures
        ({
            let r = collapse_spec(env);
            let outcomes: int = (if r is Ok { 1int } else { 0int })
                + (if r matches Result::Err(e) && e.is_delivery() { 1int } else { 0int })
                + (if r matches Result::Err(e) && e.is_timeout() { 1int } else { 0int })
                + (if r matches Result::Err(e) && e.is_execute() { 1int } else { 0int });
            outcomes == 1
        }),
{
}

} // verus!
