use vstd::prelude::*;
use vstd::std_specs::cmp::PartialEqSpec;

use crate::collector::dedup_register;
use crate::collector::dedup_outcome;
use crate::collector::duplicate_free;
use crate::collector::has_match;
use crate::collector::is_first_match;
use crate::collector::matches_at;

verus! {

/// One registration step against a collector: the two operations that ever
/// add entries. Teardown is deliberately absent — the persistence law below
/// speaks of the time between an entry's registration and the next teardown.
pub enum CollectorOp<T> {
    Register(T),
    RegisterDedup(T),
}

/// The entry sequence after one registration step, as the contracts of
/// `GarbageCollector::register` and `GarbageCollector::register_dedup`
/// describe it.
pub open spec fn apply_op<T: PartialEq>(s: Seq<T>, op: CollectorOp<T>) -> Seq<T> {
    match op {
        CollectorOp::Register(v) => s.push(v),
        CollectorOp::RegisterDedup(v) => dedup_register(s, v),
    }
}

/// The entry sequence after a whole run of registration steps, applied in
/// order.
pub open spec fn apply_ops<T: PartialEq>(s: Seq<T>, ops: Seq<CollectorOp<T>>) -> Seq<T>
    decreases ops.len(),
{
    if ops.len() == 0 {
        s
    } else {
        apply_ops(apply_op(s, ops[0]), ops.subrange(1, ops.len() as int))
    }
}

/// Identity persistence: once stored, an entry is never disturbed by later
/// registrations of either kind. Whatever run of operations follows, the
/// store only grows, and the handle `h` keeps denoting exactly the value it
/// denoted when it was handed out.
pub proof fn lemma_identity_persistence<T: PartialEq>(s: Seq<T>, ops: Seq<CollectorOp<T>>, h: int)
    requires
        0 <= h < s.len(),
    ensures
        s.len() <= apply_ops(s, ops).len(),
        apply_ops(s, ops)[h] == s[h],
    decreases ops.len(),
{
    if ops.len() > 0 {
        let s1 = apply_op(s, ops[0]);
        assert(s.len() <= s1.len() && s1[h] == s[h]);
        lemma_identity_persistence(s1, ops.subrange(1, ops.len() as int), h);
    }
}

/// The entry sequence after plainly registering every value of `vs`, one
/// after the other, starting from state `s`.
pub open spec fn register_all<T>(s: Seq<T>, vs: Seq<T>) -> Seq<T>
    decreases vs.len(),
{
    if vs.len() == 0 {
        s
    } else {
        register_all(s.push(vs[0]), vs.subrange(1, vs.len() as int))
    }
}

/// Insertion order: registering the values of `vs` one by one appends them
/// behind the existing entries, in exactly the order they were registered.
/// An inspection snapshot taken afterwards therefore lists them in that
/// order.
pub proof fn lemma_insertion_order<T>(s: Seq<T>, vs: Seq<T>)
    ensures
        register_all(s, vs) == s + vs,
    decreases vs.len(),
{
    if vs.len() == 0 {
        assert(s + vs =~= s);
    } else {
        let rest = vs.subrange(1, vs.len() as int);
        lemma_insertion_order(s.push(vs[0]), rest);
        assert(s.push(vs[0]) + rest =~= s + vs);
    }
}

/// Insertion order for a fresh collector: after registering the values of
/// `vs` into an empty collector, the entries are exactly `vs`.
pub proof fn lemma_insertion_order_from_empty<T>(vs: Seq<T>)
    ensures
        register_all(Seq::<T>::empty(), vs) == vs,
{
    lemma_insertion_order(Seq::<T>::empty(), vs);
    assert(Seq::<T>::empty() + vs =~= vs);
}

/// Deduplication convergence: two deduplicating registrations of equal
/// values converge on one stored representative. With `h1` the handle the
/// first call returns from state `s` and `h2` the handle the second call
/// returns afterwards, the second call stores nothing new, both handles are
/// identical, and the two calls together have grown the store by at most one
/// entry — by exactly one when no equal entry was stored before.
pub proof fn lemma_dedup_convergence<T: PartialEq>(s: Seq<T>, v1: T, v2: T, h1: int, h2: int)
    requires
        vstd::laws_eq::obeys_eq::<T>(),
        v1.eq_spec(&v2),
        dedup_outcome(s, v1, h1),
        dedup_outcome(dedup_register(s, v1), v2, h2),
    ensures
        dedup_register(dedup_register(s, v1), v2) == dedup_register(s, v1),
        h2 == h1,
        s.len() <= dedup_register(s, v1).len() <= s.len() + 1,
        !has_match(s, v1) ==> dedup_register(s, v1).len() == s.len() + 1,
{
    reveal(vstd::laws_eq::obeys_eq_spec_properties);
    let s1 = dedup_register(s, v1);
    if has_match(s, v1) {
        assert(s1 == s);
        assert(matches_at(s, v2, h1));
        assert(has_match(s, v2));
        assert(is_first_match(s, v2, h2));
        assert(matches_at(s, v1, h2));
        assert(h1 <= h2);
        assert(h2 <= h1);
    } else {
        assert(h1 == s.len());
        assert(s1 == s.push(v1));
        assert(s1[s.len() as int].eq_spec(&v2));
        assert(matches_at(s1, v2, s.len() as int));
        assert(has_match(s1, v2));
        assert(is_first_match(s1, v2, h2));
        if h2 < s.len() {
            assert(s1[h2] == s[h2]);
            assert(matches_at(s, v1, h2));
            assert(false);
        }
        assert(h2 == s.len());
    }
}

/// Deduplication never creates a duplicate: if no two stored entries are
/// equal, that is still so after a deduplicating registration, whatever
/// value arrives.
pub proof fn lemma_dedup_keeps_duplicate_free<T: PartialEq>(s: Seq<T>, v: T)
    requires
        duplicate_free(s),
    ensures
        duplicate_free(dedup_register(s, v)),
{
    if !has_match(s, v) {
        let s1 = s.push(v);
        assert forall|i: int, j: int| 0 <= i < j < s1.len() implies !(s1[i].eq_spec(&s1[j])) by {
            if j == s.len() {
                if s1[i].eq_spec(&s1[j]) {
                    assert(matches_at(s, v, i));
                }
            }
        }
    }
}

} // verus!
