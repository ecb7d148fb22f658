//! Counts allocations by class, and garbage collections.

use vstd::prelude::*;
use vstd::string::StringExecFns;

use crate::api::hresult::HRESULT;
use crate::api::traits::CorProfilerInfo;
use crate::api::event_mask::COR_PRF_MONITOR_GC;
use crate::profilers::counter_table::{increment, is_listing, next_count, spec_add_all, CounterTable};
use crate::profilers::names::{class_name, is_class_name_answer};

verus! {

/// What the allocations profiler records between attach and detach.
pub struct AllocationByClassProfiler {
    /// Session the report belongs to (a UUID as a 128-bit value).
    pub session_id: u128,
    /// Number of objects allocated, by class name.
    pub allocations_by_class: CounterTable,
    /// Number of garbage collections started.
    pub collections: isize,
}

/// The figures reported when the profiler detaches.
pub struct AllocationReport {
    /// Number of garbage collections started.
    pub collections: isize,
    /// Number of classes counted.
    pub total_types: usize,
    /// Count of each class, by descending count.
    pub allocations: Vec<(String, isize)>,
}

/// The allocation counts `num_objects` as signed counts.
pub open spec fn signed_counts(num_objects: Seq<u32>) -> Seq<isize> {
    num_objects.map_values(|n: u32| n as isize)
}

/// Each signed count is exactly the number of objects reported, whenever that
/// number fits in a signed count (always, where `isize` has 64 bits): no count
/// is truncated or changed.
pub proof fn lemma_signed_counts(num_objects: Seq<u32>)
    ensures
        signed_counts(num_objects).len() == num_objects.len(),
        forall|i: int| 0 <= i < num_objects.len() && num_objects[i] <= isize::MAX
            ==> #[trigger] signed_counts(num_objects)[i] == num_objects[i] as int,
{
}

/// Counts after a batch of allocations: the entry `test` is reset to 123, then
/// each class gets its number of new objects.
pub open spec fn spec_after_allocations(m: Map<Seq<char>, isize>, names: Seq<Seq<char>>, num_objects: Seq<u32>) -> Map<Seq<char>, isize> {
    spec_add_all(m.insert("test"@, 123), names, signed_counts(num_objects))
}

impl AllocationByClassProfiler {
    /// A profiler that has counted nothing yet.
    pub fn new() -> (r: Self)
        ensures
            r.session_id == 0,
            r.allocations_by_class@.is_empty(),
            r.collections == 0,
    {
        AllocationByClassProfiler { session_id: 0, allocations_by_class: CounterTable::new(), collections: 0 }
    }

    /// Records a batch of allocations, `num_objects[i]` objects of the class
    /// named `names[i]`. The entry `test` is reset to 123 first.
    pub fn record_allocations(&mut self, names: &Vec<String>, num_objects: &[u32])
        requires
            num_objects@.len() >= names@.len(),
        ensures
            final(self).allocations_by_class@ == spec_after_allocations(
                old(self).allocations_by_class@, names@.map_values(|k: String| k@), num_objects@),
            final(self).session_id == old(self).session_id,
            final(self).collections == old(self).collections,
    {
        self.allocations_by_class.insert(String::from_str("test"), 123);
        let mut counts: Vec<isize> = Vec::new();
        let mut i: usize = 0;
        while i < num_objects.len()
            invariant
                i <= num_objects@.len(),
                counts@ == signed_counts(num_objects@.take(i as int)),
            decreases num_objects@.len() - i,
        {
            counts.push(num_objects[i] as isize);
            i = i + 1;
            proof {
                assert(counts@ =~= signed_counts(num_objects@.take(i as int)));
            }
        }
        assert(num_objects@.take(num_objects@.len() as int) =~= num_objects@);
        self.allocations_by_class.add_all(names, &counts);
    }

    /// The runtime reports `num_objects[i]` new objects of class `class_ids[i]`:
    /// each class is looked up by name and its count grows.
    pub fn objects_allocated_by_class<P: CorProfilerInfo>(&mut self, pinfo: &P, class_ids: &[usize], num_objects: &[u32]) -> (r: Result<(), HRESULT>)
        requires
            num_objects@.len() >= class_ids@.len(),
        ensures
            r == Ok::<(), HRESULT>(()),
            exists|names: Seq<Seq<char>>| names.len() == class_ids@.len()
                && (forall|i: int| 0 <= i < names.len() ==> is_class_name_answer(pinfo, class_ids@[i], #[trigger] names[i]))
                && final(self).allocations_by_class@ == spec_after_allocations(old(self).allocations_by_class@, names, num_objects@),
            final(self).session_id == old(self).session_id,
            final(self).collections == old(self).collections,
    {
        let mut names: Vec<String> = Vec::new();
        let mut i: usize = 0;
        while i < class_ids.len()
            invariant
                i <= class_ids@.len(),
                names@.len() == i,
                forall|j: int| 0 <= j < i ==> is_class_name_answer(pinfo, class_ids@[j], (#[trigger] names@[j])@),
            decreases class_ids@.len() - i,
        {
            let name = class_name(pinfo, class_ids[i]);
            names.push(name);
            i = i + 1;
        }
        self.record_allocations(&names, num_objects);
        proof {
            let views = names@.map_values(|k: String| k@);
            assert forall|j: int| 0 <= j < views.len() implies is_class_name_answer(pinfo, class_ids@[j], #[trigger] views[j]) by {
                assert(views[j] == names@[j]@);
            }
        }
        Ok(())
    }

    /// The profiler attaches for the session `session_id`: it asks for garbage
    /// collection events (a refusal is not fatal) and joins the session.
    pub fn initialize_for_attach<P: CorProfilerInfo>(&mut self, pinfo: &P, session_id: u128) -> (r: Result<(), HRESULT>)
        ensures
            r == Ok::<(), HRESULT>(()),
            exists|answer: Result<(), HRESULT>| #[trigger] pinfo.event_mask_answer(COR_PRF_MONITOR_GC, answer),
            final(self).session_id == session_id,
            final(self).allocations_by_class@ == old(self).allocations_by_class@,
            final(self).collections == old(self).collections,
    {
        let answer = pinfo.set_event_mask(COR_PRF_MONITOR_GC);
        assert(pinfo.event_mask_answer(COR_PRF_MONITOR_GC, answer));
        self.session_id = session_id;
        Ok(())
    }

    /// A garbage collection started.
    pub fn garbage_collection_started(&mut self) -> (r: Result<(), HRESULT>)
        ensures
            r == Ok::<(), HRESULT>(()),
            final(self).collections == next_count(old(self).collections),
            final(self).allocations_by_class@ == old(self).allocations_by_class@,
            final(self).session_id == old(self).session_id,
    {
        self.collections = increment(self.collections);
        Ok(())
    }

    /// The figures of the report: collections, number of classes, and the
    /// count of each class by descending count.
    pub fn profiler_detach_succeeded(&self) -> (r: AllocationReport)
        ensures
            r.collections == self.collections,
            r.total_types == self.allocations_by_class@.len(),
            is_listing(self.allocations_by_class@, r.allocations@),
    {
        AllocationReport {
            collections: self.collections,
            total_types: self.allocations_by_class.len(),
            allocations: self.allocations_by_class.sorted_entries(),
        }
    }
}

} // verus!
