use header_filter::codec::Direction;
use header_filter::store::{ContextStore, TransactionContext};

#[test]
fn store_insert_then_take_consumes_the_context() {
    let mut store = ContextStore::new();
    assert!(!store.contains(5));
    store.insert(
        5,
        TransactionContext {
            direction: Direction::RequestPath,
        },
    );
    assert!(store.contains(5));
    assert_eq!(
        store.take(5),
        Some(TransactionContext {
            direction: Direction::RequestPath,
        })
    );
    assert!(!store.contains(5));
    assert_eq!(store.take(5), None);
}

#[test]
fn store_holds_one_call_per_direction() {
    let mut store = ContextStore::new();
    store.insert(
        5,
        TransactionContext {
            direction: Direction::RequestPath,
        },
    );
    store.insert(
        6,
        TransactionContext {
            direction: Direction::ResponsePath,
        },
    );
    assert_eq!(
        store.take(6),
        Some(TransactionContext {
            direction: Direction::ResponsePath,
        })
    );
    assert_eq!(
        store.take(5),
        Some(TransactionContext {
            direction: Direction::RequestPath,
        })
    );
    assert_eq!(store.take(6), None);
}
