//! The layered error taxonomy of the bridge.
//!
//! A dispatched work item ends in exactly one of four ways: the item never
//! reached a worker, a worker could not check a connection out, the caller's
//! closure itself failed, or the closure succeeded. The first three are the
//! variants of [`AsyncError`]; the fourth is the `Ok` arm of the result that
//! carries it.

use vstd::prelude::*;

verus! {

/// Why a work item could not be handed to any worker: the dispatch channel
/// was already torn down, or the handoff itself timed out.
#[derive(Clone, Copy, Debug, PartialEq, Eq, Structural)]
pub enum DeliveryError {
    /// The worker pool was shut down before the item could be delivered.
    Closed,
    /// Delivery did not complete within the dispatch deadline.
    Timeout,
}

/// Why a worker that accepted an item could not obtain a connection: the
/// pool was exhausted and no connection became free within policy.
#[derive(Clone, Copy, Debug, PartialEq, Eq, Structural)]
pub enum CheckoutError {
    /// All connections stayed busy past the checkout deadline.
    Exhausted,
}

/// The discriminated failure of one dispatched work item.
///
/// The bridge performs no retries and no translation beyond this wrapping:
/// each variant is terminal for the originating item, and the caller's own
/// error type `E` passes through `Execute` unchanged.
#[derive(Debug)]
pub enum AsyncError<E> {
    /// The work item could not be handed to any worker.
    Delivery(DeliveryError),
    /// A worker accepted the item but no connection could be checked out
    /// within policy.
    Timeout(CheckoutError),
    /// A connection was obtained and the caller's closure returned this
    /// error.
    Execute(E),
}

impl<E> From<DeliveryError> for AsyncError<E> {
    /// Wraps the dispatch collaborator's failure kind; no translation.
    fn from(err: DeliveryError) -> (r: Self)
        ensures
            r == AsyncError::<E>::Delivery(err),
    {
        AsyncError::Delivery(err)
    }
}

impl<E> vstd::std_specs::convert::FromSpecImpl<DeliveryError> for AsyncError<E> {
    open spec fn obeys_from_spec() -> bool {
        true
    }

    open spec fn from_spec(err: DeliveryError) -> Self {
        AsyncError::Delivery(err)
    }
}

impl<E> From<CheckoutError> for AsyncError<E> {
    /// Wraps the pool collaborator's native failure kind; no translation.
    fn from(err: CheckoutError) -> (r: Self)
        ensures
            r == AsyncError::<E>::Timeout(err),
    {
        AsyncError::Timeout(err)
    }
}

impl<E> vstd::std_specs::convert::FromSpecImpl<CheckoutError> for AsyncError<E> {
    open spec fn obeys_from_spec() -> bool {
        true
    }

    open spec fn from_spec(err: CheckoutError) -> Self {
        AsyncError::Timeout(err)
    }
}

impl<E> AsyncError<E> {
    /// Holds when the item never reached a worker.
    pub open spec fn is_delivery(self) -> bool {
        self matches AsyncError::Delivery(_)
    }

    /// Holds when a worker got the item but no connection could be had.
    pub open spec fn is_timeout(self) -> bool {
        self matches AsyncError::Timeout(_)
    }

    /// Holds when the caller's closure itself failed.
    pub open spec fn is_execute(self) -> bool {
        self matches AsyncError::Execute(_)
    }

    /// Returns the caller's own error, if the failure was the closure's.
    pub fn into_execute(self) -> (r: Option<E>)
        ensures
            self is Execute ==> r == Option::Some(self->Execute_0),
            !self.is_execute() ==> r is None,
    {
        match self {
            AsyncError::Execute(e) => Some(e),
            _ => None,
        }
    }
}

} // verus!
