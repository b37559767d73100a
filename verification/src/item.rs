//! The lifecycle of one work item, as a state machine.
//!
//! An item is queued, then either never delivered (the pool was torn down)
//! or dispatched to exactly one worker; a dispatched item either fails its
//! checkout or runs to an execution result; every path ends in `Completed`,
//! which carries the item's single outcome and has no outgoing transition.

use vstd::prelude::*;

use crate::envelope::collapse_spec;
use crate::envelope::Envelope;
use crate::error::AsyncError;
use crate::error::CheckoutError;

verus! {

/// Where one work item stands in its lifecycle.
pub enum ItemState<R, E> {
    /// Created by the caller, not yet handed to the worker pool.
    Queued,
    /// Accepted by exactly one worker.
    Dispatched,
    /// The worker holds a checked-out connection for it.
    CheckedOut,
    /// The closure ran to this result on the checked-out connection.
    Executed(Result<R, E>),
    /// The worker could not obtain a connection within policy.
    CheckoutFailed,
    /// Terminal: the one response delivered for this item.
    Completed(Result<R, AsyncError<E>>),
}

/// The allowed transitions of one work item. A queued item that cannot be
/// delivered completes with a delivery failure; a dispatched one either
/// checks a connection out or completes with a checkout failure; an executed
/// one completes with its closure's own result.
pub open spec fn item_step<R, E>(pre: ItemState<R, E>, post: ItemState<R, E>) -> bool {
    match (pre, post) {
        (ItemState::Queued, ItemState::Dispatched) => true,
        (ItemState::Queued, ItemState::Completed(r)) => r matches Result::Err(e)
            && e.is_delivery(),
        (ItemState::Dispatched, ItemState::CheckedOut) => true,
        (ItemState::Dispatched, ItemState::CheckoutFailed) => true,
        (ItemState::CheckedOut, ItemState::Executed(_)) => true,
        (ItemState::Executed(res), ItemState::Completed(r)) => r == collapse_spec(
            Result::<Result<Result<R, E>, CheckoutError>, crate::error::DeliveryError>::Ok(
                Result::Ok(res),
            ),
        ),
        (ItemState::CheckoutFailed, ItemState::Completed(r)) => r matches Result::Err(e)
            && e.is_timeout(),
        _ => false,
    }
}

/// A run of one item's lifecycle: adjacent states are related by
/// [`item_step`].
pub open spec fn valid_trace<R, E>(trace: Seq<ItemState<R, E>>) -> bool {
    forall|i: int|
        0 <= i < trace.len() - 1 ==> #[trigger] item_step(trace[i], trace[i + 1])
}

/// `Completed` is terminal: no transition leaves it, so no item delivers a
/// second response.
pub proof fn lemma_completed_terminal<R, E>(
    outcome: Result<R, AsyncError<E>>,
    post: ItemState<R, E>,
)
    ensures
        !item_step(ItemState::Completed(outcome), post),
{
}

/// Every three-layer envelope is the end of some run of the state machine:
/// a run from `Queued` to `Completed` carrying exactly the envelope's
/// collapsed outcome.
pub proof fn lemma_envelope_reachable<R, E>(env: Envelope<R, E>)
    ensures
        exists|trace: Seq<ItemState<R, E>>|
            {
                &&& #[trigger] valid_trace(trace)
                &&& trace.len() > 0
                &&& trace.first() == ItemState::<R, E>::Queued
                &&& trace.last() == ItemState::<R, E>::Completed(collapse_spec(env))
            },
{
    match env {
        Result::Ok(Result::Ok(res)) => {
            let trace = seq![
                ItemState::<R, E>::Queued,
                ItemState::<R, E>::Dispatched,
                ItemState::<R, E>::CheckedOut,
                ItemState::<R, E>::Executed(res),
                ItemState::<R, E>::Completed(collapse_spec(env)),
            ];
            assert(item_step(trace[0], trace[1]));
            assert(item_step(trace[1], trace[2]));
            assert(item_step(trace[2], trace[3]));
            assert(item_step(trace[3], trace[4]));
            assert(valid_trace(trace));
        },
        Result::Ok(Result::Err(_)) => {
            let trace = seq![
                ItemState::<R, E>::Queued,
                ItemState::<R, E>::Dispatched,
                ItemState::<R, E>::CheckoutFailed,
                ItemState::<R, E>::Completed(collapse_spec(env)),
            ];
            assert(item_step(trace[0], trace[1]));
            assert(item_step(trace[1], trace[2]));
            assert(item_step(trace[2], trace[3]));
            assert(valid_trace(trace));
        },
        Result::Err(_) => {
            let trace = seq![
                ItemState::<R, E>::Queued,
                ItemState::<R, E>::Completed(collapse_spec(env)),
            ];
            assert(item_step(trace[0], trace[1]));
            assert(valid_trace(trace));
        },
    }
}

} // verus!
