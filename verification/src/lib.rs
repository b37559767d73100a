//! An async-bridging core: lets a caller on a cooperative scheduler run
//! blocking resource operations (canonically, database queries through a
//! synchronous connection pool) without stalling that scheduler.
//!
//! This crate verifies the bridge's own logic: the pool configuration
//! builder, the layered error taxonomy, the collapse of the three-layer
//! dispatch outcome, the worker execution step with its return-on-all-paths
//! guarantee, and the construct-once worker-pool cell. The runtime shell
//! (threads, channels, the concrete connection type) lives outside and
//! consumes these pieces.

mod builder;
mod db;
mod envelope;
mod error;
mod executor;
mod item;
mod lazy;
mod pool;

pub use builder::Builder;
pub use builder::DEFAULT_POOL_MAX_SIZE;
pub use db::Database;
pub use db::WorkerPool;

pub use envelope::collapse;
pub use envelope::collapse_spec;
pub use envelope::lemma_exactly_one_response;
pub use envelope::Envelope;
pub use error::AsyncError;
pub use error::AsyncError as Error;
pub use error::CheckoutError;
pub use error::DeliveryError;
pub use executor::execute_work;
pub use item::item_step;
pub use item::lemma_completed_terminal;
pub use item::lemma_envelope_reachable;
pub use item::valid_trace;
pub use item::ItemState;
pub use lazy::LazyInit;
pub use pool::ResourcePool;
