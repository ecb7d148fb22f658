//! A concurrent table of named counters, kept in a `DashMap` of atomic counts.
//! The profilers count allocations, surviving references and exceptions in it.

use vstd::prelude::*;

use dashmap::DashMap;
use itertools::Itertools;
use std::sync::atomic::AtomicIsize;
use std::sync::atomic::Ordering;

verus! {

#[verifier::external_type_specification]
#[verifier::external_body]
#[verifier::reject_recursive_types(K)]
#[verifier::reject_recursive_types(V)]
#[verifier::reject_recursive_types(S)]
pub struct ExDashMap<K, V, S>(DashMap<K, V, S>);

/// The counts that a table holds: each key's current count.
pub uninterp spec fn dashmap_counts(m: DashMap<String, AtomicIsize>) -> Map<Seq<char>, isize>;

/// `DashMap::new`: an empty table.
#[verifier::external_body]
fn dashmap_new() -> (r: DashMap<String, AtomicIsize>)
    ensures
        dashmap_counts(r).is_empty(),
{
    DashMap::new()
}

/// `DashMap::insert` with a new atomic count: the key's count becomes `value`,
/// whether or not the key was there.
#[verifier::external_body]
fn dashmap_insert(m: &mut DashMap<String, AtomicIsize>, key: String, value: isize)
    ensures
        dashmap_counts(*final(m)) == dashmap_counts(*old(m)).insert(key@, value),
{
    m.insert(key, AtomicIsize::new(value));
}

/// `DashMap::get_mut`, then `AtomicIsize::fetch_add` on the entry found: adds
/// `delta`, wrapping around on overflow, to the count of a key that is there,
/// and tells whether it was there.
#[verifier::external_body]
fn dashmap_fetch_add(m: &mut DashMap<String, AtomicIsize>, key: &String, delta: isize) -> (found: bool)
    ensures
        found == dashmap_counts(*old(m)).contains_key(key@),
        found ==> dashmap_counts(*final(m)) == dashmap_counts(*old(m)).insert(key@, wrapping_add_isize(dashmap_counts(*old(m))[key@], delta)),
        !found ==> dashmap_counts(*final(m)) == dashmap_counts(*old(m)),
{
    match m.get_mut(key) {
        Some(pair) => {
            pair.value().fetch_add(delta, Ordering::Relaxed);
            true
        },
        None => false,
    }
}

/// `DashMap::get`, the entry found read as its count: the count of `key`, if
/// it is there.
#[verifier::external_body]
fn dashmap_get(m: &DashMap<String, AtomicIsize>, key: &String) -> (r: Option<isize>)
    ensures
        r == (if dashmap_counts(*m).contains_key(key@) { Some(dashmap_counts(*m)[key@]) } else { None::<isize> }),
{
    match m.get(key) {
        Some(entry) => Some(entry.value().load(Ordering::Relaxed)),
        None => None,
    }
}

/// `DashMap::len`: the number of keys.
#[verifier::external_body]
fn dashmap_len(m: &DashMap<String, AtomicIsize>) -> (r: usize)
    ensures
        r == dashmap_counts(*m).len(),
{
    m.len()
}

/// `DashMap::iter`, each entry read as its key and its count. The order of
/// the entries is that of the map's shards and is not stated.
#[verifier::external_body]
fn dashmap_entries(m: &DashMap<String, AtomicIsize>) -> (r: Vec<(String, isize)>)
    ensures
        r@.len() == dashmap_counts(*m).len(),
        forall|k: Seq<char>| #[trigger] dashmap_counts(*m).contains_key(k) ==> exists|i: int| 0 <= i < r@.len() && (#[trigger] r@[i]).0@ == k,
        forall|i: int| 0 <= i < r@.len() ==> dashmap_counts(*m).contains_key((#[trigger] r@[i]).0@)
            && dashmap_counts(*m)[r@[i].0@] == r@[i].1,
        forall|i: int, j: int| 0 <= i < j < r@.len() ==> (#[trigger] r@[i]).0@ != (#[trigger] r@[j]).0@,
{
    m.iter().map(|entry| (entry.key().clone(), entry.value().load(Ordering::Relaxed))).collect()
}

/// The key by which entries are sorted: the negated count (the count's
/// negation wraps at `isize::MIN`).
pub open spec fn count_key(count: isize) -> int {
    if count == isize::MIN { isize::MIN as int } else { -count }
}

/// Whether `entries` lists the counts `m`: each key of `m` exactly once, with
/// its count, by descending count (see [`count_key`]).
pub open spec fn is_listing(m: Map<Seq<char>, isize>, entries: Seq<(String, isize)>) -> bool {
    &&& entries.len() == m.len()
    &&& forall|i: int| 0 <= i < entries.len() ==> m.contains_key((#[trigger] entries[i]).0@) && m[entries[i].0@] == entries[i].1
    &&& forall|k: Seq<char>| #[trigger] m.contains_key(k) ==> exists|i: int| 0 <= i < entries.len() && (#[trigger] entries[i]).0@ == k
    &&& forall|i: int, j: int| 0 <= i < j < entries.len() ==> (#[trigger] entries[i]).0@ != (#[trigger] entries[j]).0@
    &&& forall|i: int, j: int| 0 <= i <= j < entries.len() ==> count_key((#[trigger] entries[i]).1) <= count_key((#[trigger] entries[j]).1)
}

/// The sort key strictly decreases as the count grows, for every count but
/// `isize::MIN` (whose negation wraps back to itself and sorts first).
pub proof fn lemma_count_key_decreasing(a: isize, b: isize)
    requires
        a != isize::MIN,
        b != isize::MIN,
    ensures
        a < b <==> count_key(a) > count_key(b),
        count_key(a) == -(a as int),
{
}

/// A listing puts larger counts first: for two entries in order, neither of
/// them `isize::MIN`, the first count is at least the second.
pub proof fn lemma_listing_descending(m: Map<Seq<char>, isize>, entries: Seq<(String, isize)>, i: int, j: int)
    requires
        is_listing(m, entries),
        0 <= i <= j < entries.len(),
        entries[i].1 != isize::MIN,
        entries[j].1 != isize::MIN,
    ensures
        entries[i].1 >= entries[j].1,
{
    assert(count_key(entries[i].1) <= count_key(entries[j].1));
}

/// Sort key of an entry: its negated count.
pub fn entry_sort_key(entry: &(String, isize)) -> (r: isize)
    ensures
        r == count_key(entry.1),
{
    if entry.1 == isize::MIN { isize::MIN } else { -entry.1 }
}

/// `Itertools::sorted_by_key` with [`entry_sort_key`]: the same entries,
/// rearranged by ascending key, that is by descending count.
#[verifier::external_body]
fn sorted_by_count(entries: Vec<(String, isize)>) -> (r: Vec<(String, isize)>)
    ensures
        r@.to_multiset() == entries@.to_multiset(),
        forall|i: int, j: int| 0 <= i <= j < r@.len() ==> count_key((#[trigger] r@[i]).1) <= count_key((#[trigger] r@[j]).1),
{
    entries.into_iter().sorted_by_key(|e| entry_sort_key(e)).collect()
}

/// A table of named counts.
pub struct CounterTable {
    counts: DashMap<String, AtomicIsize>,
}

impl View for CounterTable {
    type V = Map<Seq<char>, isize>;

    closed spec fn view(&self) -> Map<Seq<char>, isize> {
        dashmap_counts(self.counts)
    }
}

/// `a + b`, wrapping around on overflow.
pub open spec fn wrapping_add_isize(a: isize, b: isize) -> isize {
    (a + b) as isize
}

/// A count after one more event, wrapping around from `isize::MAX` to
/// `isize::MIN` as an atomic counter does.
pub open spec fn next_count(c: isize) -> isize {
    if c == isize::MAX { isize::MIN } else { (c + 1) as isize }
}

/// One more event adds exactly one to a count below `isize::MAX`; only the
/// largest count wraps around, to the smallest.
pub proof fn lemma_next_count(c: isize)
    ensures
        c < isize::MAX ==> next_count(c) == c + 1,
        c == isize::MAX ==> next_count(c) == isize::MIN,
{
}

/// `n` events counted from zero give `n`, for any `n` up to `isize::MAX`.
pub proof fn lemma_next_count_repeated(n: nat)
    requires
        n <= isize::MAX,
    ensures
        repeat_next_count(n) == n,
    decreases n,
{
    if n > 0 {
        lemma_next_count_repeated((n - 1) as nat);
    }
}

/// The count after `n` events counted from zero.
pub open spec fn repeat_next_count(n: nat) -> isize
    decreases n,
{
    if n == 0 { 0 } else { next_count(repeat_next_count((n - 1) as nat)) }
}

/// One more event.
pub fn increment(c: isize) -> (r: isize)
    ensures
        r == next_count(c),
{
    if c == isize::MAX { isize::MIN } else { c + 1 }
}

/// The count of `key` after adding `delta` to it in `m` (a key that is not
/// there starts from `delta`); counts wrap around on overflow.
pub open spec fn spec_add(m: Map<Seq<char>, isize>, key: Seq<char>, delta: isize) -> Map<Seq<char>, isize> {
    if m.contains_key(key) {
        m.insert(key, wrapping_add_isize(m[key], delta))
    } else {
        m.insert(key, delta)
    }
}

/// The counts after adding `deltas[i]` to the count of `keys[i]`, for each `i`
/// in order.
pub open spec fn spec_add_all(m: Map<Seq<char>, isize>, keys: Seq<Seq<char>>, deltas: Seq<isize>) -> Map<Seq<char>, isize>
    decreases keys.len(),
{
    if keys.len() == 0 {
        m
    } else {
        spec_add(spec_add_all(m, keys.drop_last(), deltas), keys.last(), deltas[keys.len() - 1])
    }
}

/// Adding to one key leaves the others as they were, and the key's count grows
/// by the amount added (a key that was absent counts the amount).
pub proof fn lemma_add_then_read(m: Map<Seq<char>, isize>, key: Seq<char>, delta: isize, other: Seq<char>)
    ensures
        spec_add(m, key, delta).contains_key(key),
        spec_add(m, key, delta)[key] == (if m.contains_key(key) { wrapping_add_isize(m[key], delta) } else { delta }),
        other != key ==> spec_add(m, key, delta).contains_key(other) == m.contains_key(other),
        other != key && m.contains_key(other) ==> spec_add(m, key, delta)[other] == m[other],
{
}

/// A sum that fits is the sum itself; only an overflowing sum wraps.
pub proof fn lemma_wrapping_add_exact(a: isize, b: isize)
    ensures
        isize::MIN <= a + b <= isize::MAX ==> wrapping_add_isize(a, b) == a + b,
{
}

/// Adding a batch with one more key is adding the batch, then that key's
/// delta: every key of the batch is counted, in order.
pub proof fn lemma_add_all_push(m: Map<Seq<char>, isize>, keys: Seq<Seq<char>>, key: Seq<char>, deltas: Seq<isize>)
    requires
        deltas.len() > keys.len(),
    ensures
        spec_add_all(m, keys.push(key), deltas) == spec_add(spec_add_all(m, keys, deltas), key, deltas[keys.len() as int]),
{
    assert(keys.push(key).drop_last() =~= keys);
}

/// A key that the batch does not mention keeps its count (or stays absent).
pub proof fn lemma_add_all_other(m: Map<Seq<char>, isize>, keys: Seq<Seq<char>>, deltas: Seq<isize>, other: Seq<char>)
    requires
        !keys.contains(other),
    ensures
        spec_add_all(m, keys, deltas).contains_key(other) == m.contains_key(other),
        m.contains_key(other) ==> spec_add_all(m, keys, deltas)[other] == m[other],
    decreases keys.len(),
{
    if keys.len() > 0 {
        let rest = keys.drop_last();
        assert(!rest.contains(other)) by {
            if rest.contains(other) {
                let j = choose|j: int| 0 <= j < rest.len() && rest[j] == other;
                assert(keys[j] == other);
            }
        }
        lemma_add_all_other(m, rest, deltas, other);
        assert(keys.last() == keys[keys.len() - 1]);
        assert(keys.last() != other);
    }
}

/// Every key of a batch is in the table afterwards.
pub proof fn lemma_add_all_contains(m: Map<Seq<char>, isize>, keys: Seq<Seq<char>>, deltas: Seq<isize>, i: int)
    requires
        0 <= i < keys.len(),
    ensures
        spec_add_all(m, keys, deltas).contains_key(keys[i]),
    decreases keys.len(),
{
    if i < keys.len() - 1 {
        lemma_add_all_contains(m, keys.drop_last(), deltas, i);
        assert(keys.drop_last()[i] == keys[i]);
    }
}

impl CounterTable {
    /// An empty table.
    pub fn new() -> (r: CounterTable)
        ensures
            r@.is_empty(),
    {
        CounterTable { counts: dashmap_new() }
    }

    /// Sets the count of `key` to `value`.
    pub fn insert(&mut self, key: String, value: isize)
        ensures
            final(self)@ == old(self)@.insert(key@, value),
    {
        dashmap_insert(&mut self.counts, key, value);
    }

    /// Adds `delta` to the count of `key`; a key that is not there yet starts
    /// at `delta`.
    pub fn add(&mut self, key: String, delta: isize)
        ensures
            final(self)@ == spec_add(old(self)@, key@, delta),
    {
        let found = dashmap_fetch_add(&mut self.counts, &key, delta);
        if !found {
            dashmap_insert(&mut self.counts, key, delta);
        }
    }

    /// Adds `deltas[i]` to the count of `keys[i]`, for each `i` in order.
    pub fn add_all(&mut self, keys: &Vec<String>, deltas: &Vec<isize>)
        requires
            deltas@.len() >= keys@.len(),
        ensures
            final(self)@ == spec_add_all(old(self)@, keys@.map_values(|k: String| k@), deltas@),
    {
        let ghost views = keys@.map_values(|k: String| k@);
        let mut i: usize = 0;
        while i < keys.len()
            invariant
                views == keys@.map_values(|k: String| k@),
                i <= keys@.len(),
                deltas@.len() >= keys@.len(),
                self@ == spec_add_all(old(self)@, views.take(i as int), deltas@),
            decreases keys@.len() - i,
        {
            let key = keys[i].clone();
            proof {
                assert(views.take(i + 1).drop_last() =~= views.take(i as int));
                assert(views.take(i + 1).last() == key@);
            }
            self.add(key, deltas[i]);
            i = i + 1;
        }
        assert(views.take(keys@.len() as int) =~= views);
    }

    /// The count of `key`, if it is there.
    pub fn get(&self, key: &String) -> (r: Option<isize>)
        ensures
            r == (if self@.contains_key(key@) { Some(self@[key@]) } else { None }),
    {
        dashmap_get(&self.counts, key)
    }

    /// Number of keys.
    pub fn len(&self) -> (r: usize)
        ensures
            r == self@.len(),
    {
        dashmap_len(&self.counts)
    }

    /// All entries, by descending count: each key once, with its count.
    pub fn sorted_entries(&self) -> (r: Vec<(String, isize)>)
        ensures
            is_listing(self@, r@),
    {
        let entries = dashmap_entries(&self.counts);
        let ghost before = entries@;
        let r = sorted_by_count(entries);
        proof {
            broadcast use vstd::seq_lib::group_to_multiset_ensures;
            assert(before.no_duplicates()) by {
                assert forall|i: int, j: int| 0 <= i < before.len() && 0 <= j < before.len() && i != j implies before[i] != before[j] by {
                    if i < j {
                        assert(before[i].0@ != before[j].0@);
                    } else {
                        assert(before[j].0@ != before[i].0@);
                    }
                }
            }
            before.lemma_multiset_has_no_duplicates();
            r@.lemma_multiset_has_no_duplicates_conv();
            assert(r@.len() == before.len()) by {
                assert(r@.to_multiset().len() == before.to_multiset().len());
            }
            assert forall|i: int| 0 <= i < r@.len() implies exists|a: int| 0 <= a < before.len() && before[a] == #[trigger] r@[i] by {
                assert(r@.contains(r@[i]));
                assert(r@.to_multiset().count(r@[i]) > 0);
                assert(before.contains(r@[i]));
            }
            assert forall|i: int| 0 <= i < r@.len() implies self@.contains_key((#[trigger] r@[i]).0@) && self@[r@[i].0@] == r@[i].1 by {
                let a = choose|a: int| 0 <= a < before.len() && before[a] == r@[i];
                assert(before[a] == r@[i]);
            }
            assert forall|k: Seq<char>| #[trigger] self@.contains_key(k) implies exists|i: int| 0 <= i < r@.len() && (#[trigger] r@[i]).0@ == k by {
                let a = choose|a: int| 0 <= a < before.len() && (#[trigger] before[a]).0@ == k;
                assert(before.contains(before[a]));
                assert(before.to_multiset().count(before[a]) > 0);
                assert(r@.contains(before[a]));
            }
            assert forall|i: int, j: int| 0 <= i < j < r@.len() implies (#[trigger] r@[i]).0@ != (#[trigger] r@[j]).0@ by {
                let a = choose|a: int| 0 <= a < before.len() && before[a] == r@[i];
                let b = choose|b: int| 0 <= b < before.len() && before[b] == r@[j];
                assert(before[a] == r@[i]);
                assert(before[b] == r@[j]);
                assert(r@[i] != r@[j]);
                if a < b {
                    assert(before[a].0@ != before[b].0@);
                } else if b < a {
                    assert(before[b].0@ != before[a].0@);
                }
            }
        }
        r
    }
}

/// String equality by content.
fn string_eq(a: &String, b: &String) -> (r: bool)
    ensures
        r == (a@ == b@),
{
    a.eq(b)
}

} // verus!
