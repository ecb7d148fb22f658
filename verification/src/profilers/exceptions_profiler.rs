//! Lists thrown exceptions by number of occurrences, each filed under its class
//! and the stack it was thrown from.

use vstd::prelude::*;
use vstd::string::StringExecFns;

use crate::api::hresult::HRESULT;
use crate::api::traits::CorProfilerInfo;
use crate::profiling_api::extensions::{get_method_name, is_method_name_answer};
use crate::api::event_mask::{COR_PRF_ALLOWABLE_AFTER_ATTACH, COR_PRF_ENABLE_STACK_SNAPSHOT, COR_PRF_MONITOR_EXCEPTIONS, COR_PRF_SNAPSHOT_DEFAULT};
use crate::profilers::counter_table::{is_listing, spec_add, CounterTable};
use crate::profilers::names::{is_object_class_name_answer, object_class_name};

verus! {

/// The parts joined with `sep` between consecutive parts.
pub open spec fn join(parts: Seq<Seq<char>>, sep: Seq<char>) -> Seq<char>
    decreases parts.len(),
{
    if parts.len() == 0 {
        Seq::empty()
    } else if parts.len() == 1 {
        parts[0]
    } else {
        join(parts.drop_last(), sep) + sep + parts.last()
    }
}

/// The texts of a list of strings.
pub open spec fn texts(v: Seq<String>) -> Seq<Seq<char>> {
    v.map_values(|s: String| s@)
}

/// The texts are those of the strings, one for one and in order.
pub proof fn lemma_texts(v: Seq<String>)
    ensures
        texts(v).len() == v.len(),
        forall|i: int| 0 <= i < v.len() ==> #[trigger] texts(v)[i] == v[i]@,
{
}

/// The key under which an exception is counted: its class name, then the
/// stack from the throwing frame outwards.
pub open spec fn spec_exception_key(name: Seq<char>, stacktrace: Seq<Seq<char>>) -> Seq<char> {
    name + ": "@ + join(stacktrace, " <- "@)
}

/// Total length of the parts.
pub open spec fn parts_length(parts: Seq<Seq<char>>) -> int
    decreases parts.len(),
{
    if parts.len() == 0 { 0 } else { parts_length(parts.drop_last()) + parts.last().len() }
}

/// Joining nothing gives the empty text, and joining one part gives the part.
pub proof fn lemma_join_small(x: Seq<char>, sep: Seq<char>)
    ensures
        join(Seq::empty(), sep) == Seq::<char>::empty(),
        join(seq![x], sep) == x,
{
}

/// Joining two non-empty lists of parts one after the other is joining each
/// and putting one separator between them: no part is lost or repeated.
pub proof fn lemma_join_concat(a: Seq<Seq<char>>, b: Seq<Seq<char>>, sep: Seq<char>)
    requires
        a.len() > 0,
        b.len() > 0,
    ensures
        join(a + b, sep) == join(a, sep) + sep + join(b, sep),
    decreases b.len(),
{
    if b.len() == 1 {
        assert((a + b).drop_last() =~= a);
        assert((a + b).last() == b[0]);
    } else {
        let b0 = b.drop_last();
        lemma_join_concat(a, b0, sep);
        assert((a + b).drop_last() =~= a + b0);
        assert((a + b).last() == b.last());
        assert(join(a + b, sep) =~= join(a, sep) + sep + join(b0, sep) + sep + b.last());
        assert(join(b, sep) == join(b0, sep) + sep + b.last());
        assert(join(a + b, sep) =~= join(a, sep) + sep + join(b, sep));
    }
}

/// One more frame on a non-empty stack adds exactly the separator and that
/// frame at the end of the joined text.
pub proof fn lemma_join_push(parts: Seq<Seq<char>>, x: Seq<char>, sep: Seq<char>)
    requires
        parts.len() > 0,
    ensures
        join(parts.push(x), sep) == join(parts, sep) + sep + x,
{
    lemma_join_concat(parts, seq![x], sep);
    assert(parts + seq![x] =~= parts.push(x));
}

/// The joined text is exactly as long as all the parts plus one separator
/// between each two consecutive parts.
pub proof fn lemma_join_length(parts: Seq<Seq<char>>, sep: Seq<char>)
    requires
        parts.len() > 0,
    ensures
        join(parts, sep).len() == parts_length(parts) + (parts.len() - 1) * sep.len(),
    decreases parts.len(),
{
    if parts.len() == 1 {
        assert(parts.drop_last().len() == 0);
        assert(parts_length(parts.drop_last()) == 0);
        assert(parts.last() == parts[0]);
    } else {
        lemma_join_length(parts.drop_last(), sep);
        assert((parts.len() - 1) * sep.len() == (parts.len() - 2) * sep.len() + sep.len()) by (nonlinear_arith);
    }
}

/// The key of an exception starts with its class name and `: `, then holds
/// the joined frames; one more frame below a non-empty stack adds ` <- ` and
/// that frame's name at the end.
pub proof fn lemma_exception_key_push(name: Seq<char>, frames: Seq<Seq<char>>, frame: Seq<char>)
    requires
        frames.len() > 0,
    ensures
        spec_exception_key(name, frames.push(frame)) == spec_exception_key(name, frames) + " <- "@ + frame,
        spec_exception_key(name, frames).subrange(0, name.len() + 2int) == name + ": "@,
{
    reveal_strlit(": ");
    lemma_join_push(frames, frame, " <- "@);
    assert(spec_exception_key(name, frames.push(frame)) =~= spec_exception_key(name, frames) + " <- "@ + frame);
    assert(spec_exception_key(name, frames).subrange(0, name.len() + 2int) =~= name + ": "@);
}

/// Joins the parts with `sep` between consecutive parts.
pub fn join_strings(parts: &Vec<String>, sep: &str) -> (r: String)
    ensures
        r@ == join(texts(parts@), sep@),
{
    let ghost views = texts(parts@);
    let mut joined = String::new();
    let mut i: usize = 0;
    while i < parts.len()
        invariant
            views == texts(parts@),
            i <= parts@.len(),
            joined@ == join(views.take(i as int), sep@),
        decreases parts@.len() - i,
    {
        proof {
            assert(views.take(i + 1).drop_last() =~= views.take(i as int));
            assert(views.take(i + 1).last() == parts@[i as int]@);
        }
        if i > 0 {
            joined.append(sep);
        } else {
            assert(join(views.take(0), sep@) =~= Seq::<char>::empty());
        }
        joined.append(parts[i].as_str());
        i = i + 1;
    }
    assert(views.take(parts@.len() as int) =~= views);
    joined
}

/// The key under which an exception of class `name` thrown from `stacktrace`
/// is counted: `name: frame0 <- frame1 <- ...`.
pub fn exception_key(name: &str, stacktrace: &Vec<String>) -> (r: String)
    ensures
        r@ == spec_exception_key(name@, texts(stacktrace@)),
{
    let key = String::from_str(name);
    let key = key.concat(": ");
    let frames = join_strings(stacktrace, " <- ");
    key.concat(frames.as_str())
}

/// The stack collected during a stack walk, one method name per frame.
pub struct StackData<'a, P> {
    pub profiler_info: &'a P,
    pub stacktrace: Vec<String>,
}

/// Whether `names` are names that lookups of the methods `frames` give on some
/// answers of the runtime, one name per frame and in the same order.
pub open spec fn are_method_name_answers<P: CorProfilerInfo>(pinfo: &P, frames: Seq<usize>, names: Seq<Seq<char>>) -> bool {
    &&& names.len() == frames.len()
    &&& forall|i: int| 0 <= i < frames.len() ==> is_method_name_answer(pinfo, frames[i], #[trigger] names[i])
}

/// Called for each frame of a stack walk: appends the frame's method name
/// (or the placeholder of a failed lookup) and asks the walk to go on (`0`).
pub fn stack_snapshot_callback<'a, P: CorProfilerInfo>(client_data: &mut StackData<'a, P>, method_id: usize) -> (r: i32)
    ensures
        r == 0,
        final(client_data).profiler_info == old(client_data).profiler_info,
        final(client_data).stacktrace@.len() == old(client_data).stacktrace@.len() + 1,
        final(client_data).stacktrace@.drop_last() == old(client_data).stacktrace@,
        is_method_name_answer(old(client_data).profiler_info, method_id, final(client_data).stacktrace@.last()@),
{
    let name = get_method_name(client_data.profiler_info, method_id);
    client_data.stacktrace.push(name);
    0
}

/// What the exceptions profiler records between attach and detach.
pub struct ExceptionsProfiler {
    /// Session the report belongs to (a UUID as a 128-bit value).
    pub session_id: u128,
    /// Number of exceptions thrown, by class and stack.
    pub exceptions: CounterTable,
}

impl ExceptionsProfiler {
    /// A profiler that has counted nothing yet.
    pub fn new() -> (r: Self)
        ensures
            r.session_id == 0,
            r.exceptions@.is_empty(),
    {
        ExceptionsProfiler { session_id: 0, exceptions: CounterTable::new() }
    }

    /// The profiler is loaded at startup: it asks for every event allowed after
    /// attach, and fails when the runtime refuses the mask.
    pub fn initialize<P: CorProfilerInfo>(&mut self, pinfo: &P) -> (r: Result<(), HRESULT>)
        ensures
            exists|answer: Result<(), HRESULT>| #[trigger] pinfo.event_mask_answer(COR_PRF_ALLOWABLE_AFTER_ATTACH, answer) && r == answer,
            final(self).session_id == old(self).session_id,
            final(self).exceptions@ == old(self).exceptions@,
    {
        let outcome = pinfo.set_event_mask(COR_PRF_ALLOWABLE_AFTER_ATTACH);
        assert(pinfo.event_mask_answer(COR_PRF_ALLOWABLE_AFTER_ATTACH, outcome));
        self.answer_event_request(outcome, None)
    }

    /// The profiler attaches to a running process for the session `session_id`:
    /// it asks for exceptions and stack walks, fails when the runtime refuses,
    /// and otherwise joins the session.
    pub fn initialize_for_attach<P: CorProfilerInfo>(&mut self, pinfo: &P, session_id: u128) -> (r: Result<(), HRESULT>)
        ensures
            exists|answer: Result<(), HRESULT>| #[trigger] pinfo.event_mask_answer(COR_PRF_MONITOR_EXCEPTIONS | COR_PRF_ENABLE_STACK_SNAPSHOT, answer) && r == answer,
            r is Ok ==> final(self).session_id == session_id,
            r is Err ==> final(self).session_id == old(self).session_id,
            final(self).exceptions@ == old(self).exceptions@,
    {
        let outcome = pinfo.set_event_mask(COR_PRF_MONITOR_EXCEPTIONS | COR_PRF_ENABLE_STACK_SNAPSHOT);
        assert(pinfo.event_mask_answer(COR_PRF_MONITOR_EXCEPTIONS | COR_PRF_ENABLE_STACK_SNAPSHOT, outcome));
        self.answer_event_request(outcome, Some(session_id))
    }

    /// Finishes a start-up or attach once the runtime has answered the request
    /// for events with `mask_outcome`: a refusal is passed on and leaves the
    /// profiler as it was; an acceptance succeeds, and the profiler joins
    /// `session` where one is given.
    pub fn answer_event_request(&mut self, mask_outcome: Result<(), HRESULT>, session: Option<u128>) -> (r: Result<(), HRESULT>)
        ensures
            r == mask_outcome,
            final(self).session_id == (match (mask_outcome, session) {
                (Ok(_), Some(id)) => id,
                _ => old(self).session_id,
            }),
            final(self).exceptions@ == old(self).exceptions@,
    {
        if mask_outcome.is_ok() {
            match session {
                Some(id) => { self.session_id = id; },
                None => {},
            }
        }
        mask_outcome
    }

    /// Counts one exception of class `name` thrown from `stacktrace`.
    pub fn record_exception(&mut self, name: &str, stacktrace: &Vec<String>)
        ensures
            final(self).exceptions@ == spec_add(old(self).exceptions@, spec_exception_key(name@, texts(stacktrace@)), 1),
            final(self).session_id == old(self).session_id,
    {
        let key = exception_key(name, stacktrace);
        self.exceptions.add(key, 1);
    }

    /// An exception was thrown: the class of the thrown object is looked up,
    /// the current thread's stack is walked, and the exception is counted
    /// under the class and the method names of the frames the walk reported
    /// (however the walk ended).
    pub fn exception_thrown<P: CorProfilerInfo>(&mut self, pinfo: &P, thrown_object_id: usize) -> (r: Result<(), HRESULT>)
        ensures
            r == Ok::<(), HRESULT>(()),
            exists|name: Seq<char>, frames: Seq<usize>, status: Result<(), HRESULT>, frame_names: Seq<Seq<char>>|
                #![trigger is_object_class_name_answer(pinfo, thrown_object_id, name), pinfo.stack_snapshot_answer(0, COR_PRF_SNAPSHOT_DEFAULT, frames, status), are_method_name_answers(pinfo, frames, frame_names)]
                is_object_class_name_answer(pinfo, thrown_object_id, name)
                && pinfo.stack_snapshot_answer(0, COR_PRF_SNAPSHOT_DEFAULT, frames, status)
                && are_method_name_answers(pinfo, frames, frame_names)
                && final(self).exceptions@ == spec_add(old(self).exceptions@, spec_exception_key(name, frame_names), 1),
            final(self).session_id == old(self).session_id,
    {
        let name = object_class_name(pinfo, thrown_object_id);
        let (frames, status) = pinfo.do_stack_snapshot(0, COR_PRF_SNAPSHOT_DEFAULT);
        let mut data = StackData { profiler_info: pinfo, stacktrace: Vec::new() };
        let mut i: usize = 0;
        while i < frames.len()
            invariant
                i <= frames@.len(),
                data.profiler_info == pinfo,
                data.stacktrace@.len() == i,
                forall|j: int| 0 <= j < i ==> is_method_name_answer(pinfo, frames@[j], (#[trigger] data.stacktrace@[j])@),
            decreases frames@.len() - i,
        {
            stack_snapshot_callback(&mut data, frames[i]);
            proof {
                assert forall|j: int| 0 <= j < i + 1 implies is_method_name_answer(pinfo, frames@[j], (#[trigger] data.stacktrace@[j])@) by {
                    if j < i {
                        assert(data.stacktrace@[j] == data.stacktrace@.drop_last()[j]);
                    }
                }
            }
            i = i + 1;
        }
        self.record_exception(name.as_str(), &data.stacktrace);
        proof {
            let frame_names = texts(data.stacktrace@);
            assert(are_method_name_answers(pinfo, frames@, frame_names)) by {
                assert forall|j: int| 0 <= j < frames@.len() implies is_method_name_answer(pinfo, frames@[j], #[trigger] frame_names[j]) by {
                    assert(frame_names[j] == data.stacktrace@[j]@);
                }
            }
            assert(pinfo.stack_snapshot_answer(0, COR_PRF_SNAPSHOT_DEFAULT, frames@, status));
            assert(is_object_class_name_answer(pinfo, thrown_object_id, name@));
        }
        Ok(())
    }

    /// The exceptions counted, each once, by descending number of
    /// occurrences.
    pub fn profiler_detach_succeeded(&self) -> (r: Vec<(String, isize)>)
        ensures
            is_listing(self.exceptions@, r@),
    {
        self.exceptions.sorted_entries()
    }
}

} // verus!
