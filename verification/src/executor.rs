//! The worker's execution step for one accepted work item.
//!
//! A worker that receives an item checks a connection out; on failure it
//! answers with a checkout failure and touches the pool no further. On
//! success it runs the caller's closure with exclusive ownership of the
//! connection, and returns the connection to the pool on every exit path —
//! a worker that kept a connection would starve the pool.

use vstd::prelude::*;

use crate::error::CheckoutError;
use crate::pool::ResourcePool;

verus! {

/// Runs one work item against the pool: one checkout attempt, then — only if
/// a connection was obtained — one closure run and exactly one return.
///
/// The closure consumes the connection and hands it back alongside its own
/// result, mirroring the exclusive ownership a worker holds during execution.
pub fn execute_work<Conn, R, E, F: FnOnce(Conn) -> (Conn, Result<R, E>)>(
    pool: &mut ResourcePool<Conn>,
    f: F,
) -> (r: Result<Result<R, E>, CheckoutError>)
    requires
        old(pool).wf(),
        old(pool).idle_spec().len() > 0 ==> call_requires(f, (old(pool).idle_spec().last(),)),
    ensures
        final(pool).wf(),
        old(pool).idle_spec().len() == 0 ==> {
            &&& r == Result::<Result<R, E>, CheckoutError>::Err(CheckoutError::Exhausted)
            &&& *final(pool) == *old(pool)
        },
        old(pool).idle_spec().len() > 0 ==> {
            &&& final(pool).max_size_spec() == old(pool).max_size_spec()
            &&& final(pool).out_spec() == old(pool).out_spec()
            &&& final(pool).checkout_count() == old(pool).checkout_count() + 1
            &&& final(pool).return_count() == old(pool).return_count() + 1
            &&& exists|given_back: Conn, res: Result<R, E>|
                {
                    &&& #[trigger] call_ensures(
                        f,
                        (old(pool).idle_spec().last(),),
                        (given_back, res),
                    )
                    &&& final(pool).idle_spec() == old(pool).idle_spec().drop_last().push(
                        given_back,
                    )
                    &&& r == Result::<Result<R, E>, CheckoutError>::Ok(res)
                }
        },
{
    let connection = match pool.try_checkout() {
        Some(connection) => connection,
        None => {
            return Err(CheckoutError::Exhausted);
        },
    };
    let (connection, outcome) = f(connection);
    pool.put_back(connection);
    Ok(outcome)
}

} // verus!
