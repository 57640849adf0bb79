use wasm_obs::cache::FuncCache;

#[test]
fn get_func_cache_returns_same_slot_and_never_rewraps() {
    let mut c = FuncCache::new();
    let (slot1, fresh1) = c.get_or_insert("add");
    assert!(fresh1);
    assert_eq!(slot1, 0);
    let (slot2, fresh2) = c.get_or_insert("add");
    assert!(!fresh2, "a second lookup must reuse the cached wrapper");
    assert_eq!(slot2, slot1);
    assert_eq!(c.len(), 1);
}

#[test]
fn cache_assigns_distinct_slots_per_name() {
    let mut c = FuncCache::new();
    let (slot_a, fresh_a) = c.get_or_insert("alpha");
    let (slot_b, fresh_b) = c.get_or_insert("beta");
    assert!(fresh_a && fresh_b);
    assert_eq!(slot_a, 0);
    assert_eq!(slot_b, 1);
    assert_eq!(c.lookup("alpha"), Some(0));
    assert_eq!(c.lookup("beta"), Some(1));
    assert_eq!(c.len(), 2);
}

#[test]
fn cache_lookup_of_unknown_export_misses() {
    let mut c = FuncCache::new();
    assert_eq!(c.lookup("missing"), None);
    let _ = c.get_or_insert("present");
    assert_eq!(c.lookup("missing"), None);
}

#[test]
fn cache_empty_name_is_a_name_like_any_other() {
    let mut c = FuncCache::new();
    let (slot, fresh) = c.get_or_insert("");
    assert!(fresh);
    assert_eq!(slot, 0);
    assert_eq!(c.lookup(""), Some(0));
}
