use garbage_collector::SharedCollector;

#[test]
fn shared_register_through_shared_reference() {
    let c: SharedCollector<String> = SharedCollector::new();
    let h = c.register(String::from("hello"));
    assert_eq!(h, 0);
    assert_eq!(c.len(), 1);
    assert_eq!(c.get_clone(h), Some(String::from("hello")));
}

#[test]
fn shared_new_is_empty() {
    let c: SharedCollector<u32> = SharedCollector::new();
    assert!(c.is_empty());
    assert_eq!(c.len(), 0);
    assert!(c.snapshot().is_empty());
}

#[test]
fn shared_snapshot_keeps_insertion_order() {
    let c: SharedCollector<String> = SharedCollector::new();
    c.register(String::from("a"));
    c.register(String::from("b"));
    c.register(String::from("c"));
    let snap = c.snapshot();
    assert_eq!(snap, ["a", "b", "c"]);
}

#[test]
fn shared_dedup_converges() {
    let c: SharedCollector<i32> = SharedCollector::new();
    let h1 = c.register_dedup(5);
    let h2 = c.register_dedup(5);
    assert_eq!(h1, h2);
    assert_eq!(c.len(), 1);
}

#[test]
fn shared_clean_empties_and_store_stays_usable() {
    let c: SharedCollector<u32> = SharedCollector::new();
    let h = c.register(1);
    c.clean();
    assert_eq!(c.len(), 0);
    assert_eq!(c.get_clone(h), None);
    let h2 = c.register(2);
    assert_eq!(h2, 0);
    assert_eq!(c.get_clone(h2), Some(2));
}

#[test]
fn shared_get_clone_rejects_stale_handles() {
    let c: SharedCollector<u8> = SharedCollector::new();
    assert_eq!(c.get_clone(0), None);
    let h = c.register(9);
    assert_eq!(c.get_clone(h), Some(9));
    assert_eq!(c.get_clone(h + 1), None);
}
