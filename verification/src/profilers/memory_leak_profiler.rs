//! Counts the references that survive garbage collections, by class, and the
//! garbage collections themselves.

use vstd::prelude::*;

use crate::api::hresult::HRESULT;
use crate::api::traits::CorProfilerInfo;
use crate::api::event_mask::{COR_PRF_HIGH_MONITOR_NONE, COR_PRF_MONITOR_GC};
use crate::profilers::counter_table::{increment, is_listing, next_count, spec_add_all, CounterTable};
use crate::profilers::names::{is_object_class_name_answer, object_class_name};

verus! {

/// What the memory leak profiler records between attach and detach.
pub struct MemoryLeakProfiler {
    /// Session the report belongs to (a UUID as a 128-bit value).
    pub session_id: u128,
    /// Surviving references, by class name.
    pub surviving_references: CounterTable,
    /// Number of garbage collections started.
    pub collections: isize,
}

/// The figures reported when the profiler detaches.
pub struct MemoryLeakReport {
    /// Number of garbage collections started.
    pub collections: isize,
    /// Surviving references of each class, by descending count.
    pub surviving_references: Vec<(String, isize)>,
}

/// A count of one for each of `n` objects.
pub open spec fn ones(n: nat) -> Seq<isize> {
    Seq::new(n, |i: int| 1isize)
}

/// The range lengths as signed counts.
pub open spec fn signed_lengths(lengths: Seq<usize>) -> Seq<isize> {
    lengths.map_values(|n: usize| n as isize)
}

/// Each of the `n` counts is exactly one, so a batch of `n` ranges adds `n`
/// references in all.
pub proof fn lemma_ones(n: nat)
    ensures
        ones(n).len() == n,
        forall|i: int| 0 <= i < n ==> #[trigger] ones(n)[i] == 1,
{
}

/// Each signed count is the range length itself, whenever the length fits in
/// a signed count.
pub proof fn lemma_signed_lengths(lengths: Seq<usize>)
    ensures
        signed_lengths(lengths).len() == lengths.len(),
        forall|i: int| 0 <= i < lengths.len() && lengths[i] <= isize::MAX
            ==> #[trigger] signed_lengths(lengths)[i] == lengths[i] as int,
{
}

impl MemoryLeakProfiler {
    /// A profiler that has counted nothing yet.
    pub fn new() -> (r: Self)
        ensures
            r.session_id == 0,
            r.surviving_references@.is_empty(),
            r.collections == 0,
    {
        MemoryLeakProfiler { session_id: 0, surviving_references: CounterTable::new(), collections: 0 }
    }

    /// Counts one surviving reference for each class name in `names`.
    pub fn record_surviving(&mut self, names: &Vec<String>)
        ensures
            final(self).surviving_references@ == spec_add_all(old(self).surviving_references@, names@.map_values(|k: String| k@), ones(names@.len())),
            final(self).session_id == old(self).session_id,
            final(self).collections == old(self).collections,
    {
        let mut counts: Vec<isize> = Vec::new();
        let mut i: usize = 0;
        while i < names.len()
            invariant
                i <= names@.len(),
                counts@ == ones(i as nat),
            decreases names@.len() - i,
        {
            counts.push(1);
            i = i + 1;
            proof { assert(counts@ =~= ones(i as nat)); }
        }
        self.surviving_references.add_all(names, &counts);
    }

    /// Adds `lengths[i]` surviving references for the class name `names[i]`.
    pub fn record_surviving_ranges(&mut self, names: &Vec<String>, lengths: &[usize])
        requires
            lengths@.len() >= names@.len(),
        ensures
            final(self).surviving_references@ == spec_add_all(old(self).surviving_references@, names@.map_values(|k: String| k@), signed_lengths(lengths@)),
            final(self).session_id == old(self).session_id,
            final(self).collections == old(self).collections,
    {
        let mut counts: Vec<isize> = Vec::new();
        let mut i: usize = 0;
        while i < lengths.len()
            invariant
                i <= lengths@.len(),
                counts@ == signed_lengths(lengths@.take(i as int)),
            decreases lengths@.len() - i,
        {
            counts.push(lengths[i] as isize);
            i = i + 1;
            proof { assert(counts@ =~= signed_lengths(lengths@.take(i as int))); }
        }
        assert(lengths@.take(lengths@.len() as int) =~= lengths@);
        self.surviving_references.add_all(names, &counts);
    }

    /// The runtime reports the object ranges that survived a collection: one
    /// reference is counted for the class of the first object of each range.
    pub fn surviving_references<P: CorProfilerInfo>(&mut self, pinfo: &P, object_id_range_start: &[usize], object_id_range_length: &[u32]) -> (r: Result<(), HRESULT>)
        ensures
            r == Ok::<(), HRESULT>(()),
            exists|names: Seq<Seq<char>>| names.len() == object_id_range_start@.len()
                && (forall|i: int| 0 <= i < names.len() ==> is_object_class_name_answer(pinfo, object_id_range_start@[i], #[trigger] names[i]))
                && final(self).surviving_references@ == spec_add_all(old(self).surviving_references@, names, ones(names.len())),
            final(self).session_id == old(self).session_id,
            final(self).collections == old(self).collections,
    {
        let names = object_names(pinfo, object_id_range_start);
        self.record_surviving(&names);
        proof {
            let views = names@.map_values(|k: String| k@);
            assert forall|j: int| 0 <= j < views.len() implies is_object_class_name_answer(pinfo, object_id_range_start@[j], #[trigger] views[j]) by {
                assert(views[j] == names@[j]@);
            }
        }
        Ok(())
    }

    /// The runtime reports the object ranges that survived a collection, with
    /// their lengths: each range's length is counted for the class of its
    /// first object.
    pub fn surviving_references_2<P: CorProfilerInfo>(&mut self, pinfo: &P, object_id_range_start: &[usize], c_object_id_range_length: &[usize]) -> (r: Result<(), HRESULT>)
        requires
            c_object_id_range_length@.len() >= object_id_range_start@.len(),
        ensures
            r == Ok::<(), HRESULT>(()),
            exists|names: Seq<Seq<char>>| names.len() == object_id_range_start@.len()
                && (forall|i: int| 0 <= i < names.len() ==> is_object_class_name_answer(pinfo, object_id_range_start@[i], #[trigger] names[i]))
                && final(self).surviving_references@ == spec_add_all(old(self).surviving_references@, names, signed_lengths(c_object_id_range_length@)),
            final(self).session_id == old(self).session_id,
            final(self).collections == old(self).collections,
    {
        let names = object_names(pinfo, object_id_range_start);
        self.record_surviving_ranges(&names, c_object_id_range_length);
        proof {
            let views = names@.map_values(|k: String| k@);
            assert forall|j: int| 0 <= j < views.len() implies is_object_class_name_answer(pinfo, object_id_range_start@[j], #[trigger] views[j]) by {
                assert(views[j] == names@[j]@);
            }
        }
        Ok(())
    }

    /// The profiler attaches for the session `session_id`: it asks for garbage
    /// collection events (a refusal is not fatal) and joins the session.
    pub fn initialize_for_attach<P: CorProfilerInfo>(&mut self, pinfo: &P, session_id: u128) -> (r: Result<(), HRESULT>)
        ensures
            r == Ok::<(), HRESULT>(()),
            exists|answer: Result<(), HRESULT>| #[trigger] pinfo.event_mask_2_answer(COR_PRF_MONITOR_GC, COR_PRF_HIGH_MONITOR_NONE, answer),
            final(self).session_id == session_id,
            final(self).surviving_references@ == old(self).surviving_references@,
            final(self).collections == old(self).collections,
    {
        let answer = pinfo.set_event_mask_2(COR_PRF_MONITOR_GC, COR_PRF_HIGH_MONITOR_NONE);
        assert(pinfo.event_mask_2_answer(COR_PRF_MONITOR_GC, COR_PRF_HIGH_MONITOR_NONE, answer));
        self.session_id = session_id;
        Ok(())
    }

    /// A garbage collection started.
    pub fn garbage_collection_started(&mut self) -> (r: Result<(), HRESULT>)
        ensures
            r == Ok::<(), HRESULT>(()),
            final(self).collections == next_count(old(self).collections),
            final(self).surviving_references@ == old(self).surviving_references@,
            final(self).session_id == old(self).session_id,
    {
        self.collections = increment(self.collections);
        Ok(())
    }

    /// The figures of the report: collections, and the surviving references of
    /// each class by descending count.
    pub fn profiler_detach_succeeded(&self) -> (r: MemoryLeakReport)
        ensures
            r.collections == self.collections,
            is_listing(self.surviving_references@, r.surviving_references@),
    {
        MemoryLeakReport { collections: self.collections, surviving_references: self.surviving_references.sorted_entries() }
    }
}

/// Class names of the objects, in order.
fn object_names<P: CorProfilerInfo>(pinfo: &P, object_ids: &[usize]) -> (r: Vec<String>)
    ensures
        r@.len() == object_ids@.len(),
        forall|i: int| 0 <= i < r@.len() ==> is_object_class_name_answer(pinfo, object_ids@[i], (#[trigger] r@[i])@),
{
    let mut names: Vec<String> = Vec::new();
    let mut i: usize = 0;
    while i < object_ids.len()
        invariant
            i <= object_ids@.len(),
            names@.len() == i,
            forall|j: int| 0 <= j < i ==> is_object_class_name_answer(pinfo, object_ids@[j], (#[trigger] names@[j])@),
        decreases object_ids@.len() - i,
    {
        let name = object_class_name(pinfo, object_ids[i]);
        names.push(name);
        i = i + 1;
    }
    names
}

} // verus!
