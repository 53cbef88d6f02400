use vstd::prelude::*;
use vstd::std_specs::cmp::PartialEqSpec;

verus! {

/// True when position `i` of `s` holds an entry that `==` accepts as equal
/// to `v` (in terms of the specification `eq_spec` of `T`'s `PartialEq`).
pub open spec fn matches_at<T: PartialEq>(s: Seq<T>, v: T, i: int) -> bool {
    0 <= i < s.len() && s[i].eq_spec(&v)
}

/// True when some entry of `s` is equal to `v`.
pub open spec fn has_match<T: PartialEq>(s: Seq<T>, v: T) -> bool {
    exists|i: int| matches_at(s, v, i)
}

/// True when `i` is the earliest position of `s` holding an entry equal to
/// `v`: deduplication always converges on the first representative, in
/// insertion order.
pub open spec fn is_first_match<T: PartialEq>(s: Seq<T>, v: T, i: int) -> bool {
    matches_at(s, v, i) && (forall|j: int| 0 <= j < i ==> !matches_at(s, v, j))
}

/// The entry sequence after a deduplicating registration of `v`: unchanged
/// when a representative of `v` is already stored, extended by `v` otherwise.
pub open spec fn dedup_register<T: PartialEq>(s: Seq<T>, v: T) -> Seq<T> {
    if has_match(s, v) {
        s
    } else {
        s.push(v)
    }
}

/// The handle a deduplicating registration of `v` returns from state `s`:
/// the first matching position when one exists, the append position
/// otherwise.
pub open spec fn dedup_outcome<T: PartialEq>(s: Seq<T>, v: T, h: int) -> bool {
    if has_match(s, v) {
        is_first_match(s, v, h)
    } else {
        h == s.len()
    }
}

/// True when no two entries of `s` are equal: at most one representative of
/// each equivalence class is stored.
pub open spec fn duplicate_free<T: PartialEq>(s: Seq<T>) -> bool {
    forall|i: int, j: int| 0 <= i < j < s.len() ==> !(#[trigger] s[i].eq_spec(&s[j]))
}

/// An unbounded, append-only registry of owned values.
///
/// Registration moves a value into the collector and returns a handle: the
/// position the value was appended at. Entries are never moved, replaced or
/// mutated by the collector's own operations, so a handle keeps denoting the
/// same value until the whole store is drained. Reclamation is all-or-nothing:
/// either the collector is dropped, or [`GarbageCollector::clean`] releases
/// every entry at once and the collector starts over empty.
///
/// The abstract state of a collector is the sequence of its entries, in
/// insertion order; every contract below is stated over that sequence.
#[derive(Debug)]
pub struct GarbageCollector<T> {
    data: Vec<T>,
}

impl<T> View for GarbageCollector<T> {
    type V = Seq<T>;

    closed spec fn view(&self) -> Seq<T> {
        self.data@
    }
}

impl<T> GarbageCollector<T> {
    /// Produces an empty collector. No entry exists yet and nothing is
    /// allocated for entries until the first registration.
    pub fn new() -> (c: Self)
        ensures
            c@ == Seq::<T>::empty(),
    {
        GarbageCollector { data: Vec::new() }
    }

    /// Moves `obj` into the collector and returns its handle.
    ///
    /// The new entry is appended behind all existing ones, which stay exactly
    /// as they were; the handle is the entry's position, and stays good until
    /// the collector is dropped or cleaned.
    pub fn register(&mut self, obj: T) -> (h: usize)
        ensures
            final(self)@ == old(self)@.push(obj),
            h == old(self)@.len(),
            final(self)@[h as int] == obj,
    {
        let h: usize = self.data.len();
        self.data.push(obj);
        h
    }

    /// Borrows the entry a handle denotes. The reference lives as long as the
    /// borrow of the collector does, regardless of what happened to the
    /// binding that originally owned the value.
    pub fn get(&self, h: usize) -> (r: &T)
        requires
            h < self@.len(),
        ensures
            *r == self@[h as int],
    {
        &self.data[h]
    }

    /// The number of entries currently stored.
    pub fn len(&self) -> (n: usize)
        ensures
            n == self@.len(),
    {
        self.data.len()
    }

    /// True exactly when no entry is stored.
    pub fn is_empty(&self) -> (b: bool)
        ensures
            b == (self@.len() == 0),
    {
        self.data.len() == 0
    }

    /// A snapshot of all live entries, in insertion order.
    pub fn entries(&self) -> (r: &Vec<T>)
        ensures
            r@ == self@,
    {
        &self.data
    }

    /// Releases every entry at once, leaving the collector empty and ready
    /// for further registrations.
    ///
    /// Every handle handed out so far goes stale: the sequence is empty
    /// afterwards, so no stale handle satisfies the precondition of
    /// [`GarbageCollector::get`] until new registrations reoccupy those
    /// positions. Dropping the collector releases the entries the same way.
    pub fn clean(&mut self)
        ensures
            final(self)@ == Seq::<T>::empty(),
    {
        self.data.clear();
    }
}

impl<T: PartialEq> GarbageCollector<T> {
    /// Registers `obj` unless an equal entry is already stored.
    ///
    /// Existing entries are scanned in insertion order; the handle of the
    /// first one that compares equal to `obj` is returned and `obj` itself is
    /// discarded. Only when no entry compares equal does this behave like
    /// [`GarbageCollector::register`] and append `obj`. Either way the
    /// returned handle denotes an entry equal to `obj`.
    ///
    /// The exact clauses below hold whenever `T`'s `==` obeys its
    /// specification `eq_spec`; for any `T` at all, the sequence is either
    /// untouched or extended by exactly `obj`.
    pub fn register_dedup(&mut self, obj: T) -> (h: usize)
        ensures
            final(self)@ == old(self)@ || final(self)@ == old(self)@.push(obj),
            h < final(self)@.len(),
            T::obeys_eq_spec() ==> final(self)@ == dedup_register(old(self)@, obj),
            T::obeys_eq_spec() ==> dedup_outcome(old(self)@, obj, h as int),
    {
        let n: usize = self.data.len();
        let mut i: usize = 0;
        while i < n
            invariant
                self@ == old(self)@,
                n == self@.len(),
                i <= n,
                T::obeys_eq_spec() ==> forall|j: int| 0 <= j < i ==> !matches_at(self@, obj, j),
            decreases n - i,
        {
            if self.data[i] == obj {
                proof {
                    if T::obeys_eq_spec() {
                        assert(matches_at(self@, obj, i as int));
                    }
                }
                return i;
            }
            i += 1;
        }
        self.register(obj)
    }
}

} // verus!
