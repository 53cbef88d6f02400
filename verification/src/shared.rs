use vstd::prelude::*;
use vstd::rwlock::RwLock;
use vstd::rwlock::RwLockPredicate;

use crate::GarbageCollector;

verus! {

/// The lock predicate of [`SharedCollector`]: every collector state may be
/// stored. The collector needs no structural invariant of its own — any entry
/// sequence is a valid state — so the lock guards only against torn access.
pub struct AnyCollector;

impl<T> RwLockPredicate<GarbageCollector<T>> for AnyCollector {
    open spec fn inv(self, c: GarbageCollector<T>) -> bool {
        true
    }
}

/// A collector behind a verified mutual-exclusion lock, for sharing one
/// store between threads through `&self` alone.
///
/// Every operation below acquires the lock, runs exactly one operation of
/// [`GarbageCollector`] on the stored state, and releases the lock; the
/// lock strictly serializes these critical sections, so concurrent calls
/// behave as if run one after the other in some order. What each serialized
/// step does to the entry sequence is stated on the [`GarbageCollector`]
/// operation it runs; no contract here can speak of the state before or
/// after a call, because another thread may run between any two calls.
///
/// Handles work as they do on [`GarbageCollector`], with one difference a
/// caller must plan for: another thread may `clean` the store, so a handle
/// is only as fresh as the last lookup that checked it.
///
/// The lock has no poisoned state to recover from: it is released only by
/// the explicit release call at the end of each operation here, so a thread
/// that dies inside a critical section keeps the lock and no other thread
/// ever observes a half-finished store.
pub struct SharedCollector<T> {
    lock: RwLock<GarbageCollector<T>, AnyCollector>,
}

impl<T> SharedCollector<T> {
    /// Produces an empty shared collector.
    pub fn new() -> Self {
        SharedCollector { lock: RwLock::new(GarbageCollector::new(), Ghost(AnyCollector)) }
    }

    /// Moves `obj` into the store and returns its handle, under the lock.
    /// The serialized step is [`GarbageCollector::register`].
    pub fn register(&self, obj: T) -> usize {
        let (mut c, write_handle) = self.lock.acquire_write();
        let h = c.register(obj);
        write_handle.release_write(c);
        h
    }

    /// Releases every entry at once, under the lock; the store is empty the
    /// moment the lock is dropped. The serialized step is
    /// [`GarbageCollector::clean`].
    pub fn clean(&self) {
        let (mut c, write_handle) = self.lock.acquire_write();
        c.clean();
        write_handle.release_write(c);
    }

    /// The number of entries at the moment the lock was held.
    pub fn len(&self) -> usize {
        let read_handle = self.lock.acquire_read();
        let n = read_handle.borrow().len();
        read_handle.release_read();
        n
    }

    /// True exactly when the store held no entry at the moment the lock was
    /// held.
    pub fn is_empty(&self) -> bool {
        let read_handle = self.lock.acquire_read();
        let b = read_handle.borrow().is_empty();
        read_handle.release_read();
        b
    }
}

impl<T: PartialEq> SharedCollector<T> {
    /// Registers `obj` unless an equal entry is already stored, under one
    /// lock acquisition covering both the scan and the append. The
    /// serialized step is [`GarbageCollector::register_dedup`].
    pub fn register_dedup(&self, obj: T) -> usize {
        let (mut c, write_handle) = self.lock.acquire_write();
        let h = c.register_dedup(obj);
        write_handle.release_write(c);
        h
    }
}

impl<T: Clone> SharedCollector<T> {
    /// A snapshot of the entries, cloned in insertion order under a single
    /// lock acquisition, so a teardown racing with the inspection can never
    /// be observed half-done.
    pub fn snapshot(&self) -> Vec<T> {
        let read_handle = self.lock.acquire_read();
        let entries = read_handle.borrow().entries().clone();
        read_handle.release_read();
        entries
    }

    /// A clone of the entry a handle denotes, or `None` for a handle that no
    /// longer (or never) denotes one. The check and the lookup happen under
    /// one lock acquisition.
    pub fn get_clone(&self, h: usize) -> Option<T> {
        let read_handle = self.lock.acquire_read();
        let c = read_handle.borrow();
        let r = if h < c.len() {
            Some(c.get(h).clone())
        } else {
            None
        };
        read_handle.release_read();
        r
    }
}

} // verus!
