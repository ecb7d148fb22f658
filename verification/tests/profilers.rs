use drdotnet::profilers::names::{class_name, object_class_name};
use drdotnet::api::hresult::HRESULT;
use drdotnet::api::traits::{CorProfilerCallback4, CorProfilerCallback5, CorProfilerCallback6, CorProfilerCallback7, CorProfilerCallback9, CorProfilerCallbackAll, CorProfilerInfo, MetadataImportTrait};
use drdotnet::api::types::{
    AppDomainInfo, ArrayClassInfo, AssemblyInfo, ClassInfo, FunctionInfo, FunctionTokenAndMetadata,
    IlFunctionBody, MethodProps, ModuleInfo, TypeProps,
};
use drdotnet::profilers::allocation_by_class_profiler::AllocationByClassProfiler;
use drdotnet::profilers::counter_table::CounterTable;
use drdotnet::profilers::exceptions_profiler::{exception_key, join_strings, stack_snapshot_callback, ExceptionsProfiler, StackData};
use drdotnet::profilers::memory_leak_profiler::MemoryLeakProfiler;
use drdotnet::profilers::gc_pause_profiler::GCPauseProfiler;
use drdotnet::profilers::session::{get_directory, init_session, parse_session_id, session_from_parse};

/// Metadata of a fake module: types are named `T<token>`, methods `m<token>`;
/// token 0 cannot be read.
struct FakeMetadata;

impl MetadataImportTrait for FakeMetadata {
    fn get_method_props(&self, mb: u32) -> Result<MethodProps, HRESULT> {
        if mb == 0 {
            return Err(HRESULT::E_FAIL);
        }
        Ok(MethodProps { class_token: mb + 100, name: format!("m{}", mb), attr_flags: 0, sig: 0, sig_length: 0, rva: 0, impl_flags: 0 })
    }
    fn get_type_def_props(&self, td: u32) -> Result<TypeProps, HRESULT> {
        if td == 0 {
            return Err(HRESULT::E_FAIL);
        }
        Ok(TypeProps { name: format!("T{}", td), type_def_flags: 0, base_type: 0 })
    }
    fn get_nested_class_props(&self, _td: u32) -> Result<u32, HRESULT> {
        Err(HRESULT::E_FAIL)
    }
    fn enum_generic_params(&self, _td: u32) -> Result<Vec<u32>, HRESULT> {
        Ok(vec![])
    }
    fn get_generic_params_props(&self, _td: u32) -> Result<u32, HRESULT> {
        Err(HRESULT::E_FAIL)
    }
    fn get_version_string(&self) -> Result<String, HRESULT> {
        Ok("v4.0.30319".to_string())
    }
}

/// A fake runtime: objects below 1000 belong to class `object - 1`; class ids
/// above 1000 are unknown; module 7 has no metadata; functions above 1000 are
/// native.
struct FakeRuntime;

impl CorProfilerInfo for FakeRuntime {
    type MetadataImport = FakeMetadata;

    fn get_class_from_object(&self, object_id: usize) -> Result<usize, HRESULT> {
        if object_id >= 1000 { Err(HRESULT::E_FAIL) } else { Ok(object_id - 1) }
    }
    fn get_event_mask(&self) -> Result<u32, HRESULT> { Ok(0) }
    fn get_function_from_ip(&self, _ip: usize) -> Result<usize, HRESULT> { Err(HRESULT::E_FAIL) }
    fn get_handle_from_thread(&self, _thread_id: usize) -> Result<usize, HRESULT> { Err(HRESULT::E_FAIL) }
    fn is_array_class(&self, _class_id: usize) -> Result<ArrayClassInfo, HRESULT> { Err(HRESULT::E_FAIL) }
    fn get_thread_info(&self, _thread_id: usize) -> Result<u32, HRESULT> { Err(HRESULT::E_FAIL) }
    fn get_current_thread_id(&self) -> Result<usize, HRESULT> { Ok(1) }
    fn get_class_id_info(&self, class_id: usize) -> Result<ClassInfo, HRESULT> {
        if class_id > 1000 { Err(HRESULT::E_FAIL) } else { Ok(ClassInfo { module_id: class_id % 10, token: class_id as u32 }) }
    }
    fn get_function_info(&self, function_id: usize) -> Result<FunctionInfo, HRESULT> {
        if function_id > 1000 { Err(HRESULT::E_FAIL) } else { Ok(FunctionInfo { class_id: 0, module_id: 1, token: function_id as u32 }) }
    }
    fn set_event_mask(&self, events: u32) -> Result<(), HRESULT> { if events == 0x10000 || events == 0x1000_0040 { Err(HRESULT::E_FAIL) } else { Ok(()) } }
    fn set_event_mask_2(&self, _events_low: u32, _events_high: u32) -> Result<(), HRESULT> { Err(HRESULT::E_FAIL) }
    fn get_token_and_metadata_from_function(&self, function_id: usize) -> Result<FunctionTokenAndMetadata<FakeMetadata>, HRESULT> {
        if function_id > 1000 { Err(HRESULT::E_FAIL) } else { Ok(FunctionTokenAndMetadata { metadata_import: FakeMetadata, token: function_id as u32 }) }
    }
    fn get_module_info(&self, _module_id: usize) -> Result<ModuleInfo, HRESULT> { Err(HRESULT::E_FAIL) }
    fn get_module_metadata(&self, module_id: usize, _open_flags: u32) -> Result<FakeMetadata, HRESULT> {
        if module_id == 7 { Err(HRESULT::E_FAIL) } else { Ok(FakeMetadata) }
    }
    fn get_il_function_body(&self, _module_id: usize, _method_id: u32) -> Result<IlFunctionBody, HRESULT> { Err(HRESULT::E_FAIL) }
    fn set_il_function_body(&self, _module_id: usize, _method_id: u32, _header: usize) -> Result<(), HRESULT> { Err(HRESULT::E_FAIL) }
    fn get_app_domain_info(&self, _app_domain_id: usize) -> Result<AppDomainInfo, HRESULT> { Err(HRESULT::E_FAIL) }
    fn get_assembly_info(&self, _assembly_id: usize) -> Result<AssemblyInfo, HRESULT> { Err(HRESULT::E_FAIL) }
    fn force_gc(&self) -> Result<(), HRESULT> { Ok(()) }
    fn get_thread_context(&self, _thread_id: usize) -> Result<usize, HRESULT> { Err(HRESULT::E_FAIL) }
    fn do_stack_snapshot(&self, _thread_id: usize, _info_flags: u32) -> (Vec<usize>, Result<(), HRESULT>) {
        (vec![1, 2], Ok(()))
    }
}

#[test]
fn counter_table_adds_and_reads_back() {
    let mut t = CounterTable::new();
    assert_eq!(t.len(), 0);
    t.add("a".to_string(), 3);
    t.add("b".to_string(), 1);
    t.add("a".to_string(), 4);
    assert_eq!(t.get(&"a".to_string()), Some(7));
    assert_eq!(t.get(&"b".to_string()), Some(1));
    assert_eq!(t.get(&"c".to_string()), None);
    assert_eq!(t.len(), 2);
    t.insert("b".to_string(), 10);
    assert_eq!(t.get(&"b".to_string()), Some(10));
}

#[test]
fn counter_table_wraps_on_overflow() {
    let mut t = CounterTable::new();
    t.add("x".to_string(), isize::MAX);
    t.add("x".to_string(), 1);
    assert_eq!(t.get(&"x".to_string()), Some(isize::MIN));
}

#[test]
fn counter_table_sorted_by_descending_count() {
    let mut t = CounterTable::new();
    t.add("low".to_string(), 1);
    t.add("high".to_string(), 50);
    t.add("mid".to_string(), 20);
    let entries = t.sorted_entries();
    assert_eq!(entries, vec![("high".to_string(), 50), ("mid".to_string(), 20), ("low".to_string(), 1)]);
}

#[test]
fn allocations_are_counted_by_class_name() {
    let mut p = AllocationByClassProfiler::new();
    assert_eq!(p.objects_allocated_by_class(&FakeRuntime, &[3, 2000, 3, 17], &[5, 2, 1, 4]), Ok(()));
    let t = &p.allocations_by_class;
    assert_eq!(t.get(&"test".to_string()), Some(123));
    assert_eq!(t.get(&"T3".to_string()), Some(6));
    assert_eq!(t.get(&"unknown2".to_string()), Some(2));
    assert_eq!(t.get(&"unknown3".to_string()), Some(4));
    let report = p.profiler_detach_succeeded();
    assert_eq!(report.total_types, 4);
    assert_eq!(report.allocations[0], ("test".to_string(), 123));
}

#[test]
fn collections_are_counted() {
    let mut p = AllocationByClassProfiler::new();
    assert_eq!(p.garbage_collection_started(), Ok(()));
    assert_eq!(p.garbage_collection_started(), Ok(()));
    assert_eq!(p.collections, 2);
    assert_eq!(p.profiler_detach_succeeded().collections, 2);
}

#[test]
fn surviving_references_count_one_per_range() {
    let mut p = MemoryLeakProfiler::new();
    assert_eq!(p.surviving_references(&FakeRuntime, &[5, 5, 5000], &[10, 20, 30]), Ok(()));
    let t = &p.surviving_references;
    assert_eq!(t.get(&"T4".to_string()), Some(2));
    assert_eq!(t.get(&"unknown1".to_string()), Some(1));
}

#[test]
fn surviving_references_2_count_range_lengths() {
    let mut p = MemoryLeakProfiler::new();
    assert_eq!(p.surviving_references_2(&FakeRuntime, &[5, 5, 8], &[10, 20, 30]), Ok(()));
    let t = &p.surviving_references;
    assert_eq!(t.get(&"T4".to_string()), Some(30));
    assert_eq!(t.get(&"unknown3".to_string()), Some(30));
    p.garbage_collection_started().unwrap();
    let report = p.profiler_detach_succeeded();
    assert_eq!(report.collections, 1);
    assert_eq!(report.surviving_references.len(), 2);
}

#[test]
fn join_puts_separator_between_parts() {
    assert_eq!(join_strings(&vec![], " <- "), "");
    assert_eq!(join_strings(&vec!["a".to_string()], " <- "), "a");
    assert_eq!(join_strings(&vec!["a".to_string(), "b".to_string(), "c".to_string()], " <- "), "a <- b <- c");
}

#[test]
fn exception_key_names_class_and_stack() {
    let stack = vec!["Throw".to_string(), "Main".to_string()];
    assert_eq!(exception_key("System.Exception", &stack), "System.Exception: Throw <- Main");
    assert_eq!(exception_key("E", &vec![]), "E: ");
}

#[test]
fn exceptions_are_counted_by_class_and_stack() {
    let mut p = ExceptionsProfiler::new();
    p.exception_thrown(&FakeRuntime, 4).unwrap();
    p.exception_thrown(&FakeRuntime, 4).unwrap();
    p.exception_thrown(&FakeRuntime, 9999).unwrap();
    p.record_exception("E", &vec![]);
    assert_eq!(p.exceptions.get(&"T3: m1 <- m2".to_string()), Some(2));
    assert_eq!(p.exceptions.get(&"unknown1: m1 <- m2".to_string()), Some(1));
    assert_eq!(p.exceptions.get(&"E: ".to_string()), Some(1));
    let report = p.profiler_detach_succeeded();
    assert_eq!(report[0], ("T3: m1 <- m2".to_string(), 2));
}

#[test]
fn stack_walk_collects_method_names() {
    let mut data = StackData { profiler_info: &FakeRuntime, stacktrace: vec![] };
    assert_eq!(stack_snapshot_callback(&mut data, 12), 0);
    assert_eq!(stack_snapshot_callback(&mut data, 5000), 0);
    assert_eq!(stack_snapshot_callback(&mut data, 0), 0);
    assert_eq!(data.stacktrace, vec!["m12".to_string(), "unmanaged".to_string(), "unknown4".to_string()]);
}

#[test]
fn session_id_is_read_from_handover_data() {
    let id = "805a308b-061c-47f3-9b30-f785c3186e82";
    assert_eq!(init_session(36, id), Ok(0x805a308b_061c_47f3_9b30_f785c3186e82));
    assert_eq!(init_session(0, id), Err(HRESULT::E_FAIL));
    assert_eq!(init_session(5, "not a uuid"), Err(HRESULT::E_FAIL));
    assert_eq!(parse_session_id("805A308B-061C-47F3-9B30-F785C3186E84"), Some(0x805a308b_061c_47f3_9b30_f785c3186e84));
    assert_eq!(parse_session_id(""), None);
}

#[test]
fn session_from_parse_outcomes() {
    assert_eq!(session_from_parse(0, Some(5)), Err(HRESULT::E_FAIL));
    assert_eq!(session_from_parse(3, Some(5)), Ok(5));
    assert_eq!(session_from_parse(3, None), Err(HRESULT::E_FAIL));
}

#[test]
fn session_directory_uses_hyphenated_id() {
    assert_eq!(get_directory(0x805a308b_061c_47f3_9b30_f785c3186e82), "/dr-dotnet/805a308b-061c-47f3-9b30-f785c3186e82");
    assert_eq!(get_directory(0), "/dr-dotnet/00000000-0000-0000-0000-000000000000");
}

#[test]
fn attaching_sets_the_session() {
    let mut a = AllocationByClassProfiler::new();
    assert_eq!(a.initialize_for_attach(&FakeRuntime, 42), Ok(()));
    assert_eq!(a.session_id, 42);
    let mut m = MemoryLeakProfiler::new();
    assert_eq!(m.initialize_for_attach(&FakeRuntime, 43), Ok(()));
    assert_eq!(m.session_id, 43);
}

#[test]
fn exceptions_profiler_fails_when_the_mask_is_refused() {
    let mut e = ExceptionsProfiler::new();
    assert_eq!(e.initialize_for_attach(&FakeRuntime, 7), Err(HRESULT::E_FAIL));
    assert_eq!(e.session_id, 0);
    assert_eq!(e.initialize(&FakeRuntime), Ok(()));
}

#[test]
fn gc_pause_profiler_attach_reads_the_session() {
    let mut g = GCPauseProfiler::new(0);
    assert_eq!(g.initialize_for_attach(&FakeRuntime, 36, "805a308b-061c-47f3-9b30-f785c3186e85"), Ok(()));
    assert_eq!(g.session_id, 0x805a308b_061c_47f3_9b30_f785c3186e85);
    let mut h = GCPauseProfiler::new(0);
    assert_eq!(h.initialize_for_attach(&FakeRuntime, 3, "abc"), Err(HRESULT::E_FAIL));
    assert_eq!(h.initialize_for_attach(&FakeRuntime, 0, ""), Err(HRESULT::E_FAIL));
    assert_eq!(h.session_id, 0);
}

#[test]
fn exceptions_profiler_answer_event_request() {
    let mut e = ExceptionsProfiler::new();
    assert_eq!(e.answer_event_request(Err(HRESULT::E_FAIL), Some(9)), Err(HRESULT::E_FAIL));
    assert_eq!(e.session_id, 0);
    assert_eq!(e.answer_event_request(Ok(()), None), Ok(()));
    assert_eq!(e.session_id, 0);
    assert_eq!(e.answer_event_request(Ok(()), Some(9)), Ok(()));
    assert_eq!(e.session_id, 9);
}

struct QuietCallbacks {
    seen: u32,
}

impl CorProfilerCallback4 for QuietCallbacks {}
impl CorProfilerCallback5 for QuietCallbacks {}
impl CorProfilerCallback6 for QuietCallbacks {}
impl CorProfilerCallback7 for QuietCallbacks {}
impl CorProfilerCallback9 for QuietCallbacks {}

fn answers_all<T: CorProfilerCallbackAll>(_t: &T) -> bool {
    true
}

#[test]
fn default_callbacks_accept_and_change_nothing() {
    let mut q = QuietCallbacks { seen: 4 };
    assert_eq!(q.conditional_weak_table_element_references(&[1, 2], &[3, 4], &[5]), Ok(()));
    assert_eq!(q.module_in_memory_symbols_updated(7), Ok(()));
    assert_eq!(q.dynamic_method_unloaded(8), Ok(()));
    assert_eq!(q.rejit_error(1, 2, 3, HRESULT::E_FAIL), Ok(()));
    assert_eq!(CorProfilerCallback4::surviving_references_2(&mut q, &[1], &[2]), Ok(()));
    assert_eq!(q.get_assembly_references("a.dll", 0), Ok(()));
    assert_eq!(q.seen, 4);
    assert!(answers_all(&q));
}

#[test]
fn sorted_entries_list_each_key_once() {
    let mut t = CounterTable::new();
    for (key, delta) in [("a", 2), ("b", 5), ("c", 2), ("a", 1), ("d", 9)] {
        t.add(key.to_string(), delta);
    }
    let entries = t.sorted_entries();
    assert_eq!(entries.len(), 4);
    let mut keys: Vec<&str> = entries.iter().map(|(k, _)| k.as_str()).collect();
    keys.sort();
    assert_eq!(keys, vec!["a", "b", "c", "d"]);
    assert_eq!(entries[0], ("d".to_string(), 9));
    assert_eq!(entries[1], ("b".to_string(), 5));
    assert_eq!(entries[2].1, 3);
    assert_eq!(entries[3], ("c".to_string(), 2));
}

#[test]
fn lookups_name_the_object_class() {
    assert_eq!(object_class_name(&FakeRuntime, 4), "T3");
    assert_eq!(object_class_name(&FakeRuntime, 5000), "unknown1");
    assert_eq!(class_name(&FakeRuntime, 2000), "unknown2");
    assert_eq!(class_name(&FakeRuntime, 17), "unknown3");
}
