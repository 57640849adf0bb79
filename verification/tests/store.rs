use wasm_obs::store::PendingMap;

#[test]
fn store_pairs_entry_with_matching_exit() {
    let mut p = PendingMap::new();
    p.insert(7, 100);
    assert!(p.contains(7));
    assert_eq!(p.len(), 1);
    assert_eq!(p.take(7), Some(100));
    assert!(!p.contains(7));
    assert_eq!(p.len(), 0);
}

#[test]
fn store_take_without_entry_is_a_miss() {
    let mut p = PendingMap::new();
    assert_eq!(p.take(42), None);
    p.insert(1, 5);
    assert_eq!(p.take(2), None);
    assert_eq!(p.take(1), Some(5));
    assert_eq!(p.take(1), None, "an exit consumes the entry; a second one misses");
}

#[test]
fn store_keeps_concurrent_calls_apart() {
    let mut p = PendingMap::new();
    p.insert(10, 1_000);
    p.insert(11, 2_000);
    p.insert(12, 3_000);
    assert_eq!(p.len(), 3);
    assert_eq!(p.take(11), Some(2_000));
    assert_eq!(p.take(10), Some(1_000));
    assert_eq!(p.take(12), Some(3_000));
}

#[test]
fn store_colliding_identifier_overwrites_stale_entry() {
    let mut p = PendingMap::new();
    p.insert(9, 100);
    p.insert(9, 200);
    assert_eq!(p.len(), 1);
    assert_eq!(p.take(9), Some(200));
    assert_eq!(p.take(9), None);
}
