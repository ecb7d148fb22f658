//! The queries a profiler makes of the runtime, and the callbacks through which
//! the runtime notifies it. The runtime side implements these traits.

use vstd::prelude::*;

use crate::api::hresult::HRESULT;
use crate::api::types::{
    AppDomainInfo, ArrayClassInfo, AssemblyInfo, ClassInfo, FunctionInfo,
    FunctionTokenAndMetadata, IlFunctionBody, MethodProps, ModuleInfo, TypeProps,
};

verus! {

/// Queries on the metadata of one module.
///
/// Each query that the library relies on comes with a relation, `*_answer`,
/// that holds of every answer the query may give. An implementation that says
/// nothing more about its answers keeps the default, which admits every
/// answer; verified code works over the relation and never over the default.
pub trait MetadataImportTrait {
    /// Whether `r` is an answer the metadata may give to a read of the
    /// properties of the method `mb`.
    closed spec fn method_props_answer(&self, mb: u32, r: Result<MethodProps, HRESULT>) -> bool {
        true
    }

    /// Whether `r` is an answer the metadata may give to a read of the
    /// properties of the type `td`.
    closed spec fn type_def_props_answer(&self, td: u32, r: Result<TypeProps, HRESULT>) -> bool {
        true
    }

    fn get_method_props(&self, mb: u32) -> (r: Result<MethodProps, HRESULT>)
        ensures
            self.method_props_answer(mb, r),
    ;

    fn get_type_def_props(&self, td: u32) -> (r: Result<TypeProps, HRESULT>)
        ensures
            self.type_def_props_answer(td, r),
    ;

    fn get_nested_class_props(&self, td: u32) -> Result<u32, HRESULT>;

    fn enum_generic_params(&self, td: u32) -> Result<Vec<u32>, HRESULT>;

    fn get_generic_params_props(&self, td: u32) -> Result<u32, HRESULT>;

    fn get_version_string(&self) -> Result<String, HRESULT>;
}

/// Queries on the profiled runtime. Identifiers, addresses and handles are
/// carried as integers, event masks by their bits.
///
/// Each query or request that the library relies on comes with a relation,
/// `*_answer`, that holds of every answer the runtime may give to it; the
/// runtime's state decides which one it gives. An implementation that says
/// nothing more keeps the default, which admits every answer; verified code
/// works over the relation and never over the default.
pub trait CorProfilerInfo {
    /// The metadata reader that [`CorProfilerInfo::get_module_metadata`] opens.
    type MetadataImport: MetadataImportTrait;

    /// Whether `r` may answer the query for the class of the object `object_id`.
    closed spec fn class_from_object_answer(&self, object_id: usize, r: Result<usize, HRESULT>) -> bool {
        true
    }

    /// Whether `r` may answer the query for the module and token of the class
    /// `class_id`.
    closed spec fn class_id_info_answer(&self, class_id: usize, r: Result<ClassInfo, HRESULT>) -> bool {
        true
    }

    /// Whether `r` may answer the query for the class, module and token of the
    /// function `function_id`.
    closed spec fn function_info_answer(&self, function_id: usize, r: Result<FunctionInfo, HRESULT>) -> bool {
        true
    }

    /// Whether `r` may answer the request for the events `events`.
    closed spec fn event_mask_answer(&self, events: u32, r: Result<(), HRESULT>) -> bool {
        true
    }

    /// Whether `r` may answer the request for the events `events_low` and
    /// `events_high`.
    closed spec fn event_mask_2_answer(&self, events_low: u32, events_high: u32, r: Result<(), HRESULT>) -> bool {
        true
    }

    /// Whether `r` may answer the query for the metadata token and metadata
    /// reader of the function `function_id`.
    closed spec fn token_and_metadata_answer(&self, function_id: usize, r: Result<FunctionTokenAndMetadata<Self::MetadataImport>, HRESULT>) -> bool {
        true
    }

    /// Whether `r` may answer the request to open the metadata of the module
    /// `module_id` with the flags `open_flags`.
    closed spec fn module_metadata_answer(&self, module_id: usize, open_flags: u32, r: Result<Self::MetadataImport, HRESULT>) -> bool {
        true
    }

    /// Whether a walk of the stack of the thread `thread_id` with the flags
    /// `info_flags` may report the frames `frames` (their function
    /// identifiers, innermost first) and end with `status`.
    closed spec fn stack_snapshot_answer(&self, thread_id: usize, info_flags: u32, frames: Seq<usize>, status: Result<(), HRESULT>) -> bool {
        true
    }

    fn get_class_from_object(&self, object_id: usize) -> (r: Result<usize, HRESULT>)
        ensures
            self.class_from_object_answer(object_id, r),
    ;

    fn get_event_mask(&self) -> Result<u32, HRESULT>;

    fn get_function_from_ip(&self, ip: usize) -> Result<usize, HRESULT>;

    fn get_handle_from_thread(&self, thread_id: usize) -> Result<usize, HRESULT>;

    fn is_array_class(&self, class_id: usize) -> Result<ArrayClassInfo, HRESULT>;

    fn get_thread_info(&self, thread_id: usize) -> Result<u32, HRESULT>;

    fn get_current_thread_id(&self) -> Result<usize, HRESULT>;

    fn get_class_id_info(&self, class_id: usize) -> (r: Result<ClassInfo, HRESULT>)
        ensures
            self.class_id_info_answer(class_id, r),
    ;

    fn get_function_info(&self, function_id: usize) -> (r: Result<FunctionInfo, HRESULT>)
        ensures
            self.function_info_answer(function_id, r),
    ;

    fn set_event_mask(&self, events: u32) -> (r: Result<(), HRESULT>)
        ensures
            self.event_mask_answer(events, r),
    ;

    fn set_event_mask_2(&self, events_low: u32, events_high: u32) -> (r: Result<(), HRESULT>)
        ensures
            self.event_mask_2_answer(events_low, events_high, r),
    ;

    fn get_token_and_metadata_from_function(&self, function_id: usize) -> (r: Result<FunctionTokenAndMetadata<Self::MetadataImport>, HRESULT>)
        ensures
            self.token_and_metadata_answer(function_id, r),
    ;

    fn get_module_info(&self, module_id: usize) -> Result<ModuleInfo, HRESULT>;

    fn get_module_metadata(&self, module_id: usize, open_flags: u32) -> (r: Result<Self::MetadataImport, HRESULT>)
        ensures
            self.module_metadata_answer(module_id, open_flags, r),
    ;

    /// Walks the stack of the thread `thread_id` (`0`: the current thread) with
    /// the flags `info_flags`: the function identifiers of the frames reported,
    /// innermost first, and how the walk ended.
    fn do_stack_snapshot(&self, thread_id: usize, info_flags: u32) -> (r: (Vec<usize>, Result<(), HRESULT>))
        ensures
            self.stack_snapshot_answer(thread_id, info_flags, r.0@, r.1),
    ;

    fn get_il_function_body(&self, module_id: usize, method_id: u32) -> Result<IlFunctionBody, HRESULT>;

    fn set_il_function_body(&self, module_id: usize, method_id: u32, new_il_method_header: usize) -> Result<(), HRESULT>;

    fn get_app_domain_info(&self, app_domain_id: usize) -> Result<AppDomainInfo, HRESULT>;

    fn get_assembly_info(&self, assembly_id: usize) -> Result<AssemblyInfo, HRESULT>;

    fn force_gc(&self) -> Result<(), HRESULT>;

    fn get_thread_context(&self, thread_id: usize) -> Result<usize, HRESULT>;
}

/// Callbacks of the runtime on re-compilation of functions and on moved and
/// surviving object ranges.
pub trait CorProfilerCallback4 {
    fn rejit_compilation_started(&mut self, function_id: usize, rejit_id: usize, is_safe_to_block: bool) -> (r: Result<(), HRESULT>)
        where
            Self: Sized,
        default_ensures
            r == Ok::<(), HRESULT>(()),
            *final(self) == *old(self),
    {
        Ok(())
    }

    fn get_rejit_parameters(&mut self, module_id: usize, method_id: u32, function_control: usize) -> (r: Result<(), HRESULT>)
        where
            Self: Sized,
        default_ensures
            r == Ok::<(), HRESULT>(()),
            *final(self) == *old(self),
    {
        Ok(())
    }

    fn rejit_compilation_finished(&mut self, function_id: usize, rejit_id: usize, hr_status: HRESULT, is_safe_to_block: bool) -> (r: Result<(), HRESULT>)
        where
            Self: Sized,
        default_ensures
            r == Ok::<(), HRESULT>(()),
            *final(self) == *old(self),
    {
        Ok(())
    }

    fn rejit_error(&mut self, module_id: usize, method_id: u32, function_id: usize, hr_status: HRESULT) -> (r: Result<(), HRESULT>)
        where
            Self: Sized,
        default_ensures
            r == Ok::<(), HRESULT>(()),
            *final(self) == *old(self),
    {
        Ok(())
    }

    fn moved_references_2(&mut self, old_object_id_range_start: &[usize], new_object_id_range_start: &[usize], object_id_range_length: &[usize]) -> (r: Result<(), HRESULT>)
        where
            Self: Sized,
        default_ensures
            r == Ok::<(), HRESULT>(()),
            *final(self) == *old(self),
    {
        Ok(())
    }

    fn surviving_references_2(&mut self, object_id_range_start: &[usize], c_object_id_range_length: &[usize]) -> (r: Result<(), HRESULT>)
        where
            Self: Sized,
        default_ensures
            r == Ok::<(), HRESULT>(()),
            *final(self) == *old(self),
    {
        Ok(())
    }
}

/// Callback of the runtime on conditional weak table references.
pub trait CorProfilerCallback5 {
    fn conditional_weak_table_element_references(
        &mut self,
        key_ref_ids: &[usize],
        value_ref_ids: &[usize],
        root_ids: &[usize],
    ) -> (r: Result<(), HRESULT>)
        where
            Self: Sized,
        default_ensures
            r == Ok::<(), HRESULT>(()),
            *final(self) == *old(self),
    {
        Ok(())
    }
}

/// Callback of the runtime asking which assemblies an assembly references.
/// The path is the assembly's file; the provider is a handle through which
/// references are added.
pub trait CorProfilerCallback6 {
    fn get_assembly_references(&mut self, assembly_path: &str, asm_ref_provider: usize) -> (r: Result<(), HRESULT>)
        where
            Self: Sized,
        default_ensures
            r == Ok::<(), HRESULT>(()),
            *final(self) == *old(self),
    {
        Ok(())
    }
}

/// Callback of the runtime when a module's in-memory symbols change.
pub trait CorProfilerCallback7 {
    fn module_in_memory_symbols_updated(&mut self, module_id: usize) -> (r: Result<(), HRESULT>)
        where
            Self: Sized,
        default_ensures
            r == Ok::<(), HRESULT>(()),
            *final(self) == *old(self),
    {
        Ok(())
    }
}

/// Callback of the runtime when a dynamic method is unloaded.
pub trait CorProfilerCallback9 {
    fn dynamic_method_unloaded(&mut self, function_id: usize) -> (r: Result<(), HRESULT>)
        where
            Self: Sized,
        default_ensures
            r == Ok::<(), HRESULT>(()),
            *final(self) == *old(self),
    {
        Ok(())
    }
}

/// All the callbacks that a profiler answers.
pub trait CorProfilerCallbackAll: CorProfilerCallback4 + CorProfilerCallback5 + CorProfilerCallback6 + CorProfilerCallback7 + CorProfilerCallback9 {}

impl<T: CorProfilerCallback4 + CorProfilerCallback5 + CorProfilerCallback6 + CorProfilerCallback7 + CorProfilerCallback9> CorProfilerCallbackAll for T {}

} // verus!
