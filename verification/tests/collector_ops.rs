use garbage_collector::GarbageCollector;

#[test]
fn register_hello_and_read_it_back() {
    let mut c: GarbageCollector<String> = GarbageCollector::new();
    let h = c.register(String::from("hello"));
    assert_eq!(c.get(h), "hello");
}

#[test]
fn new_collector_is_empty() {
    let c: GarbageCollector<u32> = GarbageCollector::new();
    assert!(c.is_empty());
    assert_eq!(c.len(), 0);
    assert!(c.entries().is_empty());
}

#[test]
fn register_returns_consecutive_handles() {
    let mut c: GarbageCollector<u32> = GarbageCollector::new();
    assert_eq!(c.register(10), 0);
    assert_eq!(c.register(20), 1);
    assert_eq!(c.register(30), 2);
    assert_eq!(c.len(), 3);
    assert!(!c.is_empty());
}

#[test]
fn identity_persists_across_later_registrations() {
    let mut c: GarbageCollector<String> = GarbageCollector::new();
    let h = c.register(String::from("kept"));
    for i in 0..100 {
        c.register(format!("later-{i}"));
    }
    c.register_dedup(String::from("kept"));
    c.register_dedup(String::from("unseen"));
    assert_eq!(c.get(h), "kept");
    assert_eq!(c.len(), 102);
}

#[test]
fn snapshot_lists_entries_in_insertion_order() {
    let mut c: GarbageCollector<String> = GarbageCollector::new();
    c.register(String::from("a"));
    c.register(String::from("b"));
    c.register(String::from("c"));
    let entries: Vec<&str> = c.entries().iter().map(|s| s.as_str()).collect();
    assert_eq!(entries, ["a", "b", "c"]);
}

#[test]
fn dedup_stores_one_entry_for_equal_values() {
    let mut c: GarbageCollector<i32> = GarbageCollector::new();
    let h1 = c.register_dedup(5);
    let h2 = c.register_dedup(5);
    assert_eq!(c.len(), 1);
    assert_eq!(h1, h2);
    assert!(std::ptr::eq(c.get(h1), c.get(h2)));
}

#[test]
fn dedup_appends_when_nothing_matches() {
    let mut c: GarbageCollector<i32> = GarbageCollector::new();
    let h1 = c.register_dedup(5);
    let h2 = c.register_dedup(6);
    assert_eq!(c.len(), 2);
    assert_eq!(h1, 0);
    assert_eq!(h2, 1);
    assert_eq!(*c.get(h2), 6);
}

#[test]
fn dedup_converges_on_first_match_in_insertion_order() {
    let mut c: GarbageCollector<u64> = GarbageCollector::new();
    c.register(7);
    c.register(9);
    c.register(7);
    let h = c.register_dedup(7);
    assert_eq!(h, 0);
    assert_eq!(c.len(), 3);
}

#[test]
fn dedup_counts_each_class_once() {
    let mut c: GarbageCollector<String> = GarbageCollector::new();
    for _ in 0..3 {
        c.register_dedup(String::from("x"));
        c.register_dedup(String::from("y"));
    }
    assert_eq!(c.len(), 2);
    let entries: Vec<&str> = c.entries().iter().map(|s| s.as_str()).collect();
    assert_eq!(entries, ["x", "y"]);
}

#[test]
fn debug_rendering_shows_entries_in_insertion_order() {
    let mut c: GarbageCollector<String> = GarbageCollector::new();
    c.register(String::from("a"));
    c.register(String::from("b"));
    c.register(String::from("c"));
    assert_eq!(format!("{c:?}"), r#"GarbageCollector { data: ["a", "b", "c"] }"#);
}

#[test]
fn clean_discards_every_entry() {
    let mut c: GarbageCollector<String> = GarbageCollector::new();
    c.register(String::from("one"));
    c.register(String::from("two"));
    assert_eq!(c.len(), 2);
    c.clean();
    assert_eq!(c.len(), 0);
    assert!(c.entries().is_empty());
}

#[test]
fn collector_is_usable_again_after_clean() {
    let mut c: GarbageCollector<u32> = GarbageCollector::new();
    let h = c.register(1);
    assert_eq!(h, 0);
    c.clean();
    let h2 = c.register(2);
    assert_eq!(h2, 0);
    assert_eq!(c.len(), 1);
    assert_eq!(*c.get(h2), 2);
}

#[test]
fn clean_on_empty_collector_is_harmless() {
    let mut c: GarbageCollector<u8> = GarbageCollector::new();
    c.clean();
    assert!(c.is_empty());
}

#[test]
fn get_borrows_live_as_long_as_the_collector_borrow() {
    let mut c: GarbageCollector<String> = GarbageCollector::new();
    let h;
    {
        let local = String::from("short-lived scope");
        h = c.register(local);
    }
    let r = c.get(h);
    assert_eq!(r, "short-lived scope");
}
