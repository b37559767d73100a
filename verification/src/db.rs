//! The bridge handle: dispatch of one work item, transaction bracketing,
//! and the lazily constructed worker pool.
//!
//! `get` is the system's one suspension point: ensure the worker pool
//! exists, hand the item over, and resume the caller with the collapsed
//! three-layer outcome. `transaction` is one `get` whose closure is
//! bracketed: the candidate state is committed on `Ok` and discarded on
//! `Err`.

use vstd::prelude::*;

use crate::builder::Builder;
use crate::envelope::collapse;
use crate::envelope::collapse_spec;
use crate::error::AsyncError;
use crate::error::CheckoutError;
use crate::error::DeliveryError;
use crate::executor::execute_work;
use crate::lazy::LazyInit;
use crate::pool::ResourcePool;

verus! {

/// The fixed set of worker threads that execute work items. In the model it
/// is the published fact of its construction: how many workers serve the
/// lineage.
pub struct WorkerPool {
    /// Number of worker threads serving this lineage.
    pub workers: usize,
}

/// A handle on the bridge: pool configuration, the stocked connection pool,
/// and the construct-once worker-pool cell every clone of a lineage shares.
pub struct Database<Conn> {
    pub(crate) settings: Builder,
    pub(crate) cell: LazyInit<WorkerPool>,
    pub(crate) pool: ResourcePool<Conn>,
    pub(crate) closed: bool,
}

impl<Conn> Database<Conn> {
    /// The configuration this handle was opened with.
    pub closed spec fn settings_spec(self) -> Builder {
        self.settings
    }

    /// The construct-once cell holding the worker pool.
    pub closed spec fn workers_cell(self) -> LazyInit<WorkerPool> {
        self.cell
    }

    /// The connection pool's model state.
    pub closed spec fn pool_spec(self) -> ResourcePool<Conn> {
        self.pool
    }

    /// Whether the dispatch channel has been torn down.
    pub closed spec fn closed_spec(self) -> bool {
        self.closed
    }

    /// The handle's invariant: cell and pool are well formed, the pool is
    /// bounded by the configured maximum, and a constructed worker pool has
    /// at least one worker.
    pub open spec fn wf(self) -> bool {
        &&& self.workers_cell().wf()
        &&& self.pool_spec().wf()
        &&& self.pool_spec().max_size_spec() == self.settings_spec().effective_max_size()
        &&& self.workers_cell().is_initialized() ==> self.workers_cell().value().workers >= 1
    }

    /// A fresh configuration with nothing recorded.
    pub fn builder() -> (b: Builder)
        ensures
            b.pool_max_size is None,
            b.pool_min_idle is None,
            b.pool_max_lifetime is None,
    {
        Builder { pool_max_size: None, pool_min_idle: None, pool_max_lifetime: None }
    }

    /// Opens a handle under the default configuration; equivalent to
    /// `Database::builder().open(connections)`.
    pub fn open(connections: Vec<Conn>) -> (db: Database<Conn>)
        requires
            connections@.len() <= crate::builder::DEFAULT_POOL_MAX_SIZE,
        ensures
            db.wf(),
            !db.closed_spec(),
            db.settings_spec().pool_max_size is None,
            db.settings_spec().pool_min_idle is None,
            db.settings_spec().pool_max_lifetime is None,
            !db.workers_cell().is_initialized(),
            db.pool_spec().idle_spec() == connections@,
            db.pool_spec().max_size_spec() == crate::builder::DEFAULT_POOL_MAX_SIZE as int,
            db.pool_spec().out_spec() == 0,
            db.pool_spec().checkout_count() == 0,
            db.pool_spec().return_count() == 0,
    {
        Self::builder().open(connections)
    }

    pub(crate) fn from_parts(settings: Builder, pool: ResourcePool<Conn>) -> (db: Self)
        requires
            pool.wf(),
            pool.max_size_spec() == settings.effective_max_size(),
        ensures
            db.wf(),
            !db.closed_spec(),
            db.settings_spec() == settings,
            !db.workers_cell().is_initialized(),
            db.workers_cell().constructions() == 0,
            db.pool_spec() == pool,
    {
        Database { settings, cell: LazyInit::new(), pool, closed: false }
    }

    /// Tears the dispatch channel down: every later dispatch on this handle
    /// answers with a delivery failure and reaches no worker.
    pub fn close(&mut self)
        requires
            old(self).wf(),
        ensures
            final(self).wf(),
            final(self).closed_spec(),
            final(self).settings_spec() == old(self).settings_spec(),
            final(self).workers_cell() == old(self).workers_cell(),
            final(self).pool_spec() == old(self).pool_spec(),
    {
        self.closed = true;
    }

    /// Whether the dispatch channel has been torn down.
    pub fn is_closed(&self) -> (b: bool)
        ensures
            b == self.closed_spec(),
    {
        self.closed
    }

    /// How many workers serve this lineage, once the worker pool exists.
    pub fn worker_count(&self) -> (r: Option<usize>)
        ensures
            self.workers_cell().is_initialized() ==> r == Option::Some(
                self.workers_cell().value().workers,
            ),
            !self.workers_cell().is_initialized() ==> r is None,
    {
        match self.cell.borrow() {
            Some(pool) => Some(pool.workers),
            None => None,
        }
    }

    /// How many connections sit idle in the pool right now.
    pub fn idle_connections(&self) -> (r: usize)
        ensures
            r == self.pool_spec().idle_spec().len(),
    {
        self.pool.idle_count()
    }

    /// How many connections are checked out right now.
    pub fn checked_out_connections(&self) -> (r: u32)
        ensures
            r == self.pool_spec().out_spec(),
    {
        self.pool.checked_out()
    }

    /// Dispatches one work item and resumes with the collapsed outcome.
    ///
    /// The worker pool is constructed on the first dispatch of the lineage
    /// and only then; a handle already torn down answers with a delivery
    /// failure and touches neither cell nor pool. Otherwise exactly one
    /// checkout/return cycle runs — unless no connection was free, which
    /// answers with a checkout failure and leaves the pool as it was.
    pub fn get<R, E, F: FnOnce(Conn) -> (Conn, Result<R, E>)>(&mut self, f: F) -> (r: Result<
        R,
        AsyncError<E>,
    >)
        requires
            old(self).wf(),
            !old(self).closed_spec() && old(self).pool_spec().idle_spec().len() > 0
                ==> call_requires(f, (old(self).pool_spec().idle_spec().last(),)),
        ensures
            final(self).wf(),
            final(self).closed_spec() == old(self).closed_spec(),
            final(self).settings_spec() == old(self).settings_spec(),
            old(self).closed_spec() ==> {
                &&& r == Result::<R, AsyncError<E>>::Err(
                    AsyncError::Delivery(DeliveryError::Closed),
                )
                &&& *final(self) == *old(self)
            },
            !old(self).closed_spec() ==> {
                &&& final(self).workers_cell().is_initialized()
                &&& final(self).workers_cell().constructions() == 1
                &&& old(self).workers_cell().is_initialized() ==> final(self).workers_cell()
                    == old(self).workers_cell()
                &&& final(self).pool_spec().max_size_spec()
                    == old(self).pool_spec().max_size_spec()
            },
            !old(self).closed_spec() && old(self).pool_spec().idle_spec().len() == 0 ==> {
                &&& r == Result::<R, AsyncError<E>>::Err(
                    AsyncError::Timeout(CheckoutError::Exhausted),
                )
                &&& final(self).pool_spec() == old(self).pool_spec()
            },
            !old(self).closed_spec() && old(self).pool_spec().idle_spec().len() > 0 ==> {
                &&& final(self).pool_spec().out_spec() == old(self).pool_spec().out_spec()
                &&& final(self).pool_spec().checkout_count() == old(
                    self,
                ).pool_spec().checkout_count() + 1
                &&& final(self).pool_spec().return_count() == old(
                    self,
                ).pool_spec().return_count() + 1
                &&& exists|given_back: Conn, res: Result<R, E>|
                    {
                        &&& #[trigger] call_ensures(
                            f,
                            (old(self).pool_spec().idle_spec().last(),),
                            (given_back, res),
                        )
                        &&& final(self).pool_spec().idle_spec() == old(
                            self,
                        ).pool_spec().idle_spec().drop_last().push(given_back)
                        &&& r == collapse_spec(
                            Result::<Result<Result<R, E>, CheckoutError>, DeliveryError>::Ok(
                                Result::Ok(res),
                            ),
                        )
                    }
            },
    {
        if self.closed {
            return Err(AsyncError::Delivery(DeliveryError::Closed));
        }
        let threads = worker_threads_hint();
        let make_pool = || -> (w: WorkerPool)
            ensures
                w.workers >= 1,
            {
                WorkerPool { workers: threads }
            };
        self.cell.get_or_init(make_pool);
        let outcome = execute_work(&mut self.pool, f);
        collapse(Ok(outcome))
    }

    /// Runs one work item inside a transaction bracket — literally one
    /// [`Database::get`] whose closure brackets the caller's: the caller's
    /// closure reads the checked-out connection's state and proposes a
    /// candidate next state with its result. `Ok` commits the candidate;
    /// `Err` rolls back, leaving the externally observable state exactly as
    /// it was. Delivery and checkout behave as in [`Database::get`].
    pub fn transaction<R, E, F: FnOnce(&Conn) -> (Conn, Result<R, E>)>(&mut self, f: F) -> (r:
        Result<R, AsyncError<E>>)
        requires
            old(self).wf(),
            !old(self).closed_spec() && old(self).pool_spec().idle_spec().len() > 0
                ==> call_requires(f, (&old(self).pool_spec().idle_spec().last(),)),
        ensures
            final(self).wf(),
            final(self).closed_spec() == old(self).closed_spec(),
            final(self).settings_spec() == old(self).settings_spec(),
            old(self).closed_spec() ==> {
                &&& r == Result::<R, AsyncError<E>>::Err(
                    AsyncError::Delivery(DeliveryError::Closed),
                )
                &&& *final(self) == *old(self)
            },
            !old(self).closed_spec() ==> {
                &&& final(self).workers_cell().is_initialized()
                &&& final(self).workers_cell().constructions() == 1
                &&& old(self).workers_cell().is_initialized() ==> final(self).workers_cell()
                    == old(self).workers_cell()
                &&& final(self).pool_spec().max_size_spec()
                    == old(self).pool_spec().max_size_spec()
            },
            !old(self).closed_spec() && old(self).pool_spec().idle_spec().len() == 0 ==> {
                &&& r == Result::<R, AsyncError<E>>::Err(
                    AsyncError::Timeout(CheckoutError::Exhausted),
                )
                &&& final(self).pool_spec() == old(self).pool_spec()
            },
            !old(self).closed_spec() && old(self).pool_spec().idle_spec().len() > 0 ==> {
                &&& final(self).pool_spec().out_spec() == old(self).pool_spec().out_spec()
                &&& final(self).pool_spec().checkout_count() == old(
                    self,
                ).pool_spec().checkout_count() + 1
                &&& final(self).pool_spec().return_count() == old(
                    self,
                ).pool_spec().return_count() + 1
                &&& exists|candidate: Conn, res: Result<R, E>|
                    {
                        &&& #[trigger] call_ensures(
                            f,
                            (&old(self).pool_spec().idle_spec().last(),),
                            (candidate, res),
                        )
                        &&& (res is Ok ==> final(self).pool_spec().idle_spec() == old(
                            self,
                        ).pool_spec().idle_spec().drop_last().push(candidate) && r
                            == Result::<R, AsyncError<E>>::Ok(res->Ok_0))
                        &&& (res is Err ==> final(self).pool_spec().idle_spec() == old(
                            self,
                        ).pool_spec().idle_spec() && r == Result::<R, AsyncError<E>>::Err(
                            AsyncError::Execute(res->Err_0),
                        ))
                    }
            },
    {
        let bracket = move |connection: Conn| -> (out: (Conn, Result<R, E>))
            requires
                call_requires(f, (&connection,)),
            ensures
                exists|candidate: Conn|
                    {
                        &&& #[trigger] call_ensures(f, (&connection,), (candidate, out.1))
                        &&& (out.1 is Ok ==> out.0 == candidate)
                        &&& (out.1 is Err ==> out.0 == connection)
                    },
            {
                let (candidate, outcome) = f(&connection);
                if outcome.is_ok() {
                    let committed = (candidate, outcome);
                    proof {
                        assert(call_ensures(f, (&connection,), (candidate, committed.1)));
                    }
                    committed
                } else {
                    let rolled_back = (connection, outcome);
                    proof {
                        assert(call_ensures(f, (&connection,), (candidate, rolled_back.1)));
                    }
                    rolled_back
                }
            };
        let r = self.get(bracket);
        proof {
            if !old(self).closed_spec() && old(self).pool_spec().idle_spec().len() > 0 {
                assert(old(self).pool_spec().idle_spec().drop_last().push(
                    old(self).pool_spec().idle_spec().last(),
                ) =~= old(self).pool_spec().idle_spec());
            }
        }
        r
    }
}

/// Relies on `num_cpus::get`: the number of available logical CPUs, which
/// its documentation promises is always at least one. The worker pool is
/// sized one worker per CPU.
#[verifier::external_body]
fn worker_threads_hint() -> (n: usize)
    ensures
        n >= 1,
{
    num_cpus::get()
}

} // verus!
