use async_bridge::AsyncError;
use async_bridge::CheckoutError;
use async_bridge::Database;
use async_bridge::DeliveryError;
use async_bridge::DEFAULT_POOL_MAX_SIZE;

#[test]
fn get_runs_closure_against_checked_out_connection() {
    let mut db = Database::<u64>::open(vec![7]);
    let r = db.get(|c: u64| (c + 5, Ok::<u64, u8>(c + 5)));
    assert!(matches!(r, Ok(12)));
    assert_eq!(db.idle_connections(), 1);
    assert_eq!(db.checked_out_connections(), 0);
}

#[test]
fn get_passes_execution_error_through_unchanged() {
    let mut db = Database::<u64>::open(vec![7]);
    let r = db.get(|c: u64| (c, Err::<u64, &str>("domain failure")));
    assert!(matches!(r, Err(AsyncError::Execute("domain failure"))));
    // The connection is returned even though the closure failed.
    assert_eq!(db.idle_connections(), 1);
}

#[test]
fn get_on_exhausted_pool_is_checkout_failure() {
    let mut db = Database::<u64>::open(vec![]);
    let r = db.get(|c: u64| (c, Ok::<u64, u8>(c)));
    assert!(matches!(r, Err(AsyncError::Timeout(CheckoutError::Exhausted))));
}

#[test]
fn get_on_closed_handle_is_delivery_failure() {
    let mut db = Database::<u64>::open(vec![7]);
    db.close();
    assert!(db.is_closed());
    let r = db.get(|c: u64| (c, Ok::<u64, u8>(c)));
    assert!(matches!(r, Err(AsyncError::Delivery(DeliveryError::Closed))));
    // A delivery failure reaches no worker: no checkout cycle happened.
    assert_eq!(db.idle_connections(), 1);
    assert_eq!(db.checked_out_connections(), 0);
}

#[test]
fn worker_pool_is_constructed_on_first_dispatch_only() {
    let mut db = Database::<u64>::open(vec![1]);
    assert_eq!(db.worker_count(), None);
    let _ = db.get(|c: u64| (c, Ok::<u64, u8>(c)));
    let first = db.worker_count();
    assert!(first.is_some());
    assert!(first.unwrap() >= 1);
    let _ = db.get(|c: u64| (c, Ok::<u64, u8>(c)));
    let _ = db.get(|c: u64| (c, Err::<u64, u8>(3)));
    // Later dispatches observe the value the first dispatch published.
    assert_eq!(db.worker_count(), first);
}

#[test]
fn serialized_increments_lose_no_update() {
    // One connection, two read-then-write increments: connections are never
    // shared, so the final counter is 2.
    let mut db = Database::<u64>::builder().pool_max_size(1).open(vec![0u64]);
    let r1 = db.get(|c: u64| (c + 1, Ok::<u64, u8>(c + 1)));
    let r2 = db.get(|c: u64| (c + 1, Ok::<u64, u8>(c + 1)));
    assert!(matches!(r1, Ok(1)));
    assert!(matches!(r2, Ok(2)));
    let read = db.get(|c: u64| (c, Ok::<u64, u8>(c)));
    assert!(matches!(read, Ok(2)));
}

#[test]
fn transaction_commits_on_ok() {
    let mut db = Database::<u64>::open(vec![10]);
    let r = db.transaction(|c: &u64| (*c + 32, Ok::<u64, u8>(*c + 32)));
    assert!(matches!(r, Ok(42)));
    let read = db.get(|c: u64| (c, Ok::<u64, u8>(c)));
    assert!(matches!(read, Ok(42)));
}

#[test]
fn transaction_rolls_back_on_err() {
    let mut db = Database::<u64>::open(vec![10]);
    let r = db.transaction(|c: &u64| (*c + 32, Err::<u64, u8>(9)));
    assert!(matches!(r, Err(AsyncError::Execute(9))));
    // Read-after-write on the same handle: the state is unchanged.
    let read = db.get(|c: u64| (c, Ok::<u64, u8>(c)));
    assert!(matches!(read, Ok(10)));
    assert_eq!(db.idle_connections(), 1);
}

#[test]
fn transaction_on_closed_handle_is_delivery_failure() {
    let mut db = Database::<u64>::open(vec![10]);
    db.close();
    let r = db.transaction(|c: &u64| (*c, Ok::<u64, u8>(*c)));
    assert!(matches!(r, Err(AsyncError::Delivery(DeliveryError::Closed))));
}

#[test]
fn transaction_on_exhausted_pool_is_checkout_failure() {
    let mut db = Database::<u64>::open(vec![]);
    let r = db.transaction(|c: &u64| (*c, Ok::<u64, u8>(*c)));
    assert!(matches!(r, Err(AsyncError::Timeout(CheckoutError::Exhausted))));
}

#[test]
fn default_pool_bound_is_ten() {
    assert_eq!(DEFAULT_POOL_MAX_SIZE, 10);
}

#[test]
fn into_execute_keeps_only_the_closure_error() {
    let e: AsyncError<&str> = AsyncError::Execute("boom");
    assert_eq!(e.into_execute(), Some("boom"));
    let d: AsyncError<&str> = AsyncError::Delivery(DeliveryError::Closed);
    assert_eq!(d.into_execute(), None);
    let t: AsyncError<&str> = AsyncError::Timeout(CheckoutError::Exhausted);
    assert_eq!(t.into_execute(), None);
}

#[test]
fn collaborator_failures_convert_into_the_taxonomy() {
    let d: AsyncError<u8> = AsyncError::from(DeliveryError::Timeout);
    assert!(matches!(d, AsyncError::Delivery(DeliveryError::Timeout)));
    let c: AsyncError<u8> = AsyncError::from(CheckoutError::Exhausted);
    assert!(matches!(c, AsyncError::Timeout(CheckoutError::Exhausted)));
}
