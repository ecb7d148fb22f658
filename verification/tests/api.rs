use drdotnet::api::extensions::{full_method_name, get_full_method_name, get_gc_gen, get_method_name, get_type_name, method_name_from_props, type_name_from_props};
use drdotnet::api::hresult::HRESULT;
use drdotnet::api::traits::{CorProfilerInfo, MetadataImportTrait};
use drdotnet::api::types::{
    AppDomainInfo, ArrayClassInfo, AssemblyInfo, ClassInfo, FunctionInfo, FunctionTokenAndMetadata,
    IlFunctionBody, MethodProps, ModuleInfo, TypeProps,
};
use drdotnet::profiling_api::extensions as old_extensions;

struct Metadata;

impl MetadataImportTrait for Metadata {
    fn get_method_props(&self, mb: u32) -> Result<MethodProps, HRESULT> {
        if mb == 0 {
            return Err(HRESULT::E_FAIL);
        }
        Ok(MethodProps { class_token: 40, name: format!("Run{}", mb), attr_flags: 0, sig: 0, sig_length: 0, rva: 0, impl_flags: 0 })
    }
    fn get_type_def_props(&self, td: u32) -> Result<TypeProps, HRESULT> {
        if td == 0 {
            return Err(HRESULT::E_FAIL);
        }
        Ok(TypeProps { name: format!("App.Type{}", td), type_def_flags: 0, base_type: 0 })
    }
    fn get_nested_class_props(&self, _td: u32) -> Result<u32, HRESULT> { Err(HRESULT::E_FAIL) }
    fn enum_generic_params(&self, _td: u32) -> Result<Vec<u32>, HRESULT> { Ok(vec![]) }
    fn get_generic_params_props(&self, _td: u32) -> Result<u32, HRESULT> { Err(HRESULT::E_FAIL) }
    fn get_version_string(&self) -> Result<String, HRESULT> { Err(HRESULT::E_FAIL) }
}

/// Module 9 has no metadata; function 77 has no function information; function
/// 88 has no metadata; function 0 has unreadable properties.
struct Runtime;

impl CorProfilerInfo for Runtime {
    type MetadataImport = Metadata;
    fn get_class_from_object(&self, _object_id: usize) -> Result<usize, HRESULT> { Err(HRESULT::E_FAIL) }
    fn get_event_mask(&self) -> Result<u32, HRESULT> { Ok(0) }
    fn get_function_from_ip(&self, _ip: usize) -> Result<usize, HRESULT> { Err(HRESULT::E_FAIL) }
    fn get_handle_from_thread(&self, _thread_id: usize) -> Result<usize, HRESULT> { Err(HRESULT::E_FAIL) }
    fn is_array_class(&self, _class_id: usize) -> Result<ArrayClassInfo, HRESULT> { Err(HRESULT::E_FAIL) }
    fn get_thread_info(&self, _thread_id: usize) -> Result<u32, HRESULT> { Err(HRESULT::E_FAIL) }
    fn get_current_thread_id(&self) -> Result<usize, HRESULT> { Ok(1) }
    fn get_class_id_info(&self, _class_id: usize) -> Result<ClassInfo, HRESULT> { Err(HRESULT::E_FAIL) }
    fn get_function_info(&self, function_id: usize) -> Result<FunctionInfo, HRESULT> {
        if function_id == 77 { Err(HRESULT::E_FAIL) } else { Ok(FunctionInfo { class_id: 0, module_id: 1, token: function_id as u32 }) }
    }
    fn set_event_mask(&self, events: u32) -> Result<(), HRESULT> { if events == 0x10000 || events == 0x1000_0040 { Err(HRESULT::E_FAIL) } else { Ok(()) } }
    fn set_event_mask_2(&self, _events_low: u32, _events_high: u32) -> Result<(), HRESULT> { Err(HRESULT::E_FAIL) }
    fn get_token_and_metadata_from_function(&self, function_id: usize) -> Result<FunctionTokenAndMetadata<Metadata>, HRESULT> {
        if function_id == 88 { Err(HRESULT::E_FAIL) } else { Ok(FunctionTokenAndMetadata { metadata_import: Metadata, token: function_id as u32 }) }
    }
    fn get_module_info(&self, _module_id: usize) -> Result<ModuleInfo, HRESULT> { Err(HRESULT::E_FAIL) }
    fn get_module_metadata(&self, module_id: usize, _open_flags: u32) -> Result<Metadata, HRESULT> {
        if module_id == 9 { Err(HRESULT::E_FAIL) } else { Ok(Metadata) }
    }
    fn get_il_function_body(&self, _module_id: usize, _method_id: u32) -> Result<IlFunctionBody, HRESULT> { Err(HRESULT::E_FAIL) }
    fn set_il_function_body(&self, _module_id: usize, _method_id: u32, _header: usize) -> Result<(), HRESULT> { Err(HRESULT::E_FAIL) }
    fn get_app_domain_info(&self, _app_domain_id: usize) -> Result<AppDomainInfo, HRESULT> { Err(HRESULT::E_FAIL) }
    fn get_assembly_info(&self, _assembly_id: usize) -> Result<AssemblyInfo, HRESULT> { Err(HRESULT::E_FAIL) }
    fn force_gc(&self) -> Result<(), HRESULT> { Ok(()) }
    fn get_thread_context(&self, _thread_id: usize) -> Result<usize, HRESULT> { Err(HRESULT::E_FAIL) }
    fn do_stack_snapshot(&self, _thread_id: usize, _info_flags: u32) -> (Vec<usize>, Result<(), HRESULT>) { (vec![], Err(HRESULT::E_FAIL)) }
}

#[test]
fn type_names_and_placeholders() {
    assert_eq!(get_type_name(&Runtime, 1, 5), "App.Type5");
    assert_eq!(get_type_name(&Runtime, 9, 5), "unknown_0001");
    assert_eq!(get_type_name(&Runtime, 1, 0), "unknown_0002");
}

#[test]
fn method_names_and_placeholders() {
    assert_eq!(get_method_name(&Runtime, 3), "Run3");
    assert_eq!(get_method_name(&Runtime, 88), "unknown_0003");
    assert_eq!(get_method_name(&Runtime, 0), "unknown_0004");
}

#[test]
fn full_method_names_and_placeholders() {
    assert_eq!(get_full_method_name(&Runtime, 3), "App.Type40.Run3");
    assert_eq!(get_full_method_name(&Runtime, 77), "unknown_0002");
    assert_eq!(get_full_method_name(&Runtime, 88), "unknown_0003");
    assert_eq!(get_full_method_name(&Runtime, 0), "unknown_0004");
}

#[test]
fn placeholders_of_the_first_profilers() {
    assert_eq!(old_extensions::get_type_name(&Runtime, 1, 5), "App.Type5");
    assert_eq!(old_extensions::get_type_name(&Runtime, 9, 5), "unknown3");
    assert_eq!(old_extensions::get_type_name(&Runtime, 1, 0), "unknown4");
    assert_eq!(old_extensions::get_method_name(&Runtime, 3), "Run3");
    assert_eq!(old_extensions::get_method_name(&Runtime, 88), "unmanaged");
    assert_eq!(old_extensions::get_method_name(&Runtime, 0), "unknown4");
}

#[test]
fn name_from_props_outcomes() {
    assert_eq!(type_name_from_props(Err(HRESULT::E_POINTER)), "unknown_0002");
    assert_eq!(type_name_from_props(Ok(TypeProps { name: "X".to_string(), type_def_flags: 1, base_type: 2 })), "X");
    assert_eq!(method_name_from_props(Err(HRESULT::E_FAIL)), "unknown_0004");
    assert_eq!(full_method_name("A.B".to_string(), "C"), "A.B.C");
}

#[test]
fn gc_generation_is_count_of_collected_minus_one() {
    assert_eq!(get_gc_gen(&[]), -1);
    assert_eq!(get_gc_gen(&[1, 0, 0]), 0);
    assert_eq!(get_gc_gen(&[1, 1, 0]), 1);
    assert_eq!(get_gc_gen(&[1, 1, 1, 0]), 2);
    assert_eq!(get_gc_gen(&[0, 2, 1]), 0);
}

#[test]
fn hresult_codes() {
    assert_eq!(HRESULT::S_OK.code(), 0);
    assert_eq!(HRESULT::E_FAIL.code(), 0x8000_4005);
    assert_eq!(HRESULT::CORPROF_E_PROFILER_ALREADY_ACTIVE.code(), 0x8013_136A);
    assert_eq!(HRESULT::from_code(0x8000_4005), Some(HRESULT::E_FAIL));
    assert_eq!(HRESULT::from_code(0x8), Some(HRESULT::COR_E_INDEXOUTOFRANGE));
    assert_eq!(HRESULT::from_code(0x1234), None);
    for h in [HRESULT::S_OK, HRESULT::E_NOINTERFACE, HRESULT::E_OUTOFMEMORY, HRESULT::CLASS_E_CLASSNOTAVAILABLE, HRESULT::CORPROF_E_STACKSNAPSHOT_ABORTED] {
        assert_eq!(HRESULT::from_code(h.code()), Some(h));
    }
}
