use async_bridge::collapse;
use async_bridge::execute_work;
use async_bridge::AsyncError;
use async_bridge::CheckoutError;
use async_bridge::Database;
use async_bridge::DeliveryError;
use async_bridge::LazyInit;
use async_bridge::ResourcePool;

#[test]
fn collapse_maps_each_layer_to_its_outcome() {
    let ok: Result<Result<Result<u8, u8>, CheckoutError>, DeliveryError> = Ok(Ok(Ok(5)));
    assert!(matches!(collapse(ok), Ok(5)));

    let exec: Result<Result<Result<u8, u8>, CheckoutError>, DeliveryError> = Ok(Ok(Err(7)));
    assert!(matches!(collapse(exec), Err(AsyncError::Execute(7))));

    let checkout: Result<Result<Result<u8, u8>, CheckoutError>, DeliveryError> =
        Ok(Err(CheckoutError::Exhausted));
    assert!(matches!(
        collapse(checkout),
        Err(AsyncError::Timeout(CheckoutError::Exhausted))
    ));

    let delivery: Result<Result<Result<u8, u8>, CheckoutError>, DeliveryError> =
        Err(DeliveryError::Timeout);
    assert!(matches!(
        collapse(delivery),
        Err(AsyncError::Delivery(DeliveryError::Timeout))
    ));
}

#[test]
fn checkout_timeout_under_contention() {
    // Bound of one connection; the first caller holds it past the second
    // caller's checkout deadline: one call succeeds, the other reports a
    // checkout failure, and nothing leaks.
    let mut pool = ResourcePool::new(1, vec![0u64]);
    let held = pool.try_checkout().unwrap();
    assert_eq!(pool.checked_out(), 1);

    let second = execute_work(&mut pool, |c: u64| (c, Ok::<u64, u8>(c)));
    assert!(matches!(second, Err(CheckoutError::Exhausted)));

    pool.put_back(held + 1);
    let first = execute_work(&mut pool, |c: u64| (c, Ok::<u64, u8>(c)));
    assert!(matches!(first, Ok(Ok(1))));
    assert_eq!(pool.checked_out(), 0);
    assert_eq!(pool.idle_count(), 1);
}

#[test]
fn every_exit_path_returns_the_connection() {
    let mut pool = ResourcePool::new(2, vec![1u64, 2u64]);
    let _ = execute_work(&mut pool, |c: u64| (c, Ok::<u64, u8>(c)));
    let _ = execute_work(&mut pool, |c: u64| (c, Err::<u64, u8>(0)));
    let _ = execute_work(&mut pool, |c: u64| (c, Ok::<u64, u8>(c)));
    // Quiescence: every checkout was matched by a return.
    assert_eq!(pool.checked_out(), 0);
    assert_eq!(pool.idle_count(), 2);
}

#[test]
fn lazy_cell_constructs_at_most_once() {
    let mut cell: LazyInit<u32> = LazyInit::new();
    assert!(!cell.initialized());
    assert_eq!(cell.borrow(), None);

    let first = *cell.get_or_init(|| 41 + 1);
    assert_eq!(first, 42);
    assert!(cell.initialized());

    // A second first-time caller does not construct again: it reads the
    // published value, and the competing constructor never runs.
    let second = *cell.get_or_init(|| unreachable!());
    assert_eq!(second, 42);
    assert_eq!(cell.borrow(), Some(&42));
}

#[test]
fn builder_records_each_setting_and_nothing_else() {
    let b = Database::<u64>::builder()
        .pool_max_size(3)
        .pool_min_idle(Some(0))
        .pool_max_lifetime(Some(std::time::Duration::from_secs(30 * 60)));
    assert_eq!(b.pool_max_size, Some(3));
    assert_eq!(b.pool_min_idle, Some(Some(0)));
    assert_eq!(
        b.pool_max_lifetime,
        Some(Some(std::time::Duration::from_secs(1800)))
    );

    let b2 = Database::<u64>::builder().pool_min_idle(None);
    assert_eq!(b2.pool_max_size, None);
    assert_eq!(b2.pool_min_idle, Some(None));
    assert_eq!(b2.pool_max_lifetime, None);
}

#[test]
fn open_applies_the_configured_bound() {
    let mut db = Database::<u64>::builder().pool_max_size(2).open(vec![5u64, 6u64]);
    assert_eq!(db.idle_connections(), 2);
    let r = db.get(|c: u64| (c, Ok::<u64, u8>(c)));
    // Checkout takes the most recently stocked connection first.
    assert!(matches!(r, Ok(6)));
}
