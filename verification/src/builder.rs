//! Pool configuration: pure, chainable setters and the `open` step that
//! applies them.
//!
//! Every setter only records a value; nothing happens until [`Builder::open`],
//! which computes the effective pool bound (a configured maximum, or the
//! default) and hands a stocked pool to a fresh handle whose worker pool is
//! not yet constructed.

use vstd::prelude::*;

use crate::db::Database;
use crate::pool::ResourcePool;

verus! {

/// The pool bound `open` applies when none was configured.
pub const DEFAULT_POOL_MAX_SIZE: u32 = 10;

/// Recorded pool configuration. Each field is `None` until its setter runs;
/// an unset field leaves the matching pool policy at the pool's own default.
pub struct Builder {
    /// Maximum number of connections managed by the pool.
    pub pool_max_size: Option<u32>,
    /// Minimum idle connection count maintained by the pool.
    pub pool_min_idle: Option<Option<u32>>,
    /// Maximum lifetime of connections in the pool.
    pub pool_max_lifetime: Option<Option<std::time::Duration>>,
}

impl Builder {
    /// The bound `open` will hand the pool: the configured maximum, or
    /// [`DEFAULT_POOL_MAX_SIZE`] when none was set.
    pub open spec fn effective_max_size(self) -> int {
        if self.pool_max_size is Some {
            self.pool_max_size->0 as int
        } else {
            DEFAULT_POOL_MAX_SIZE as int
        }
    }

    /// Records the maximum number of pooled connections; no other field
    /// moves, no side effect.
    pub fn pool_max_size(self, max_size: u32) -> (r: Self)
        ensures
            r.pool_max_size == Option::Some(max_size),
            r.pool_min_idle == self.pool_min_idle,
            r.pool_max_lifetime == self.pool_max_lifetime,
    {
        Builder { pool_max_size: Some(max_size), ..self }
    }

    /// Records the minimum idle connection count; no other field moves, no
    /// side effect.
    pub fn pool_min_idle(self, min_idle: Option<u32>) -> (r: Self)
        ensures
            r.pool_min_idle == Option::Some(min_idle),
            r.pool_max_size == self.pool_max_size,
            r.pool_max_lifetime == self.pool_max_lifetime,
    {
        Builder { pool_min_idle: Some(min_idle), ..self }
    }

    /// Records the maximum connection lifetime; no other field moves, no
    /// side effect.
    pub fn pool_max_lifetime(self, max_lifetime: Option<std::time::Duration>) -> (r: Self)
        ensures
            r.pool_max_lifetime == Option::Some(max_lifetime),
            r.pool_max_size == self.pool_max_size,
            r.pool_min_idle == self.pool_min_idle,
    {
        Builder { pool_max_lifetime: Some(max_lifetime), ..self }
    }

    /// Applies the recorded configuration: builds a pool bounded by the
    /// effective maximum, stocked with the given connections, and returns a
    /// handle whose worker pool is not yet constructed. Construction of the
    /// worker pool is deferred to the first dispatch.
    pub fn open<Conn>(self, connections: Vec<Conn>) -> (db: Database<Conn>)
        requires
            connections@.len() <= self.effective_max_size(),
        ensures
            db.wf(),
            !db.closed_spec(),
            db.settings_spec() == self,
            !db.workers_cell().is_initialized(),
            db.workers_cell().constructions() == 0,
            db.pool_spec().idle_spec() == connections@,
            db.pool_spec().max_size_spec() == self.effective_max_size(),
            db.pool_spec().out_spec() == 0,
            db.pool_spec().checkout_count() == 0,
            db.pool_spec().return_count() == 0,
    {
        let max_size = match self.pool_max_size {
            Some(n) => n,
            None => DEFAULT_POOL_MAX_SIZE,
        };
        let pool = ResourcePool::new(max_size, connections);
        Database::from_parts(self, pool)
    }
}

} // verus!
