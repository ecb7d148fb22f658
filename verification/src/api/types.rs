//! Plain records that the profiling API hands back. Addresses and native
//! handles are carried as integers; flag sets and enumerations of the runtime
//! are carried by their raw values.

use vstd::prelude::*;

verus! {

/// Element type, element class and rank of an array class.
pub struct ArrayClassInfo {
    pub element_type: u32,
    pub element_class_id: Option<usize>,
    pub rank: u32,
}

/// Module and metadata token of a class.
#[derive(Debug)]
pub struct ClassInfo {
    pub module_id: usize,
    pub token: u32,
}

/// Class, module and metadata token of a function.
#[derive(Debug)]
pub struct FunctionInfo {
    pub class_id: usize,
    pub module_id: usize,
    pub token: u32,
}

/// Metadata of the module that defines a function, with the function's token.
pub struct FunctionTokenAndMetadata<M> {
    pub metadata_import: M,
    pub token: u32,
}

/// Load address, file name and assembly of a module.
#[derive(Debug)]
pub struct ModuleInfo {
    pub base_load_address: usize,
    pub file_name: String,
    pub assembly_id: usize,
}

/// Address and size of a method's IL body.
pub struct IlFunctionBody {
    pub method_header: usize,
    pub method_size: u32,
}

/// Name and process of an application domain.
pub struct AppDomainInfo {
    pub name: String,
    pub process_id: usize,
}

/// Name, application domain and manifest module of an assembly.
pub struct AssemblyInfo {
    pub name: String,
    pub app_domain_id: usize,
    pub module_id: usize,
}

/// Function information including generic type arguments.
pub struct FunctionInfo2 {
    pub class_id: usize,
    pub module_id: usize,
    pub token: u32,
    pub type_args: Vec<usize>,
}

/// Offset of one field within an object.
#[allow(non_camel_case_types, non_snake_case)]
pub struct COR_FIELD_OFFSET {
    pub ridOfField: u32,
    pub ulOffset: u32,
}

/// Field offsets and size of a class.
pub struct ClassLayout {
    pub field_offset: Vec<COR_FIELD_OFFSET>,
    pub class_size_bytes: u32,
}

/// Class information including parent class and generic type arguments.
#[derive(Debug)]
pub struct ClassInfo2 {
    pub module_id: usize,
    pub token: u32,
    pub parent_class_id: usize,
    pub type_args: Vec<usize>,
}

/// Dimensions and data address of an array object.
pub struct ArrayObjectInfo {
    pub dimension_sizes: Vec<u32>,
    pub dimension_lower_bounds: Vec<i32>,
    pub data: usize,
}

/// Where the length and the characters of a string object lie.
pub struct StringLayout {
    pub string_length_offset: u32,
    pub buffer_offset: u32,
}

/// A contiguous range of argument memory.
#[allow(non_camel_case_types, non_snake_case)]
pub struct COR_PRF_FUNCTION_ARGUMENT_RANGE {
    pub startAddress: usize,
    pub length: u32,
}

/// The argument ranges of a function, as the runtime lays them out.
#[allow(non_camel_case_types, non_snake_case)]
pub struct COR_PRF_FUNCTION_ARGUMENT_INFO {
    pub numRanges: u32,
    pub totalArgumentSize: u32,
    pub ranges: COR_PRF_FUNCTION_ARGUMENT_RANGE,
}

/// Frame and arguments of a function being entered.
pub struct FunctionEnter3Info {
    pub frame_info: usize,
    pub argument_info_length: u32,
    pub argument_info: COR_PRF_FUNCTION_ARGUMENT_INFO,
}

/// Frame and return value of a function being left.
pub struct FunctionLeave3Info {
    pub frame_info: usize,
    pub retval_range: COR_PRF_FUNCTION_ARGUMENT_RANGE,
}

/// Version information about the runtime.
pub struct RuntimeInfo {
    pub clr_instance_id: u16,
    pub runtime_type: u32,
    pub major_version: u16,
    pub minor_version: u16,
    pub build_number: u16,
    pub qfe_version: u16,
    pub version_string: String,
}

/// Module information including the module's flags.
pub struct ModuleInfo2 {
    pub base_load_address: usize,
    pub file_name: String,
    pub assembly_id: usize,
    pub module_flags: u32,
}

/// A function together with one of its re-JIT versions.
pub struct FunctionAndRejit {
    pub function_id: usize,
    pub rejit_id: usize,
}

/// The two halves of the event mask.
pub struct EventMask2 {
    pub events_low: u32,
    pub events_high: u32,
}

/// Module, signature and name of a dynamic function.
pub struct DynamicFunctionInfo {
    pub module_id: usize,
    pub sig: usize,
    pub sig_length: u32,
    pub name: String,
}

/// Properties of a method definition.
pub struct MethodProps {
    pub class_token: u32,
    pub name: String,
    pub attr_flags: u32,
    pub sig: usize,
    pub sig_length: u32,
    pub rva: u32,
    pub impl_flags: u32,
}

/// Properties of a type definition.
pub struct TypeProps {
    pub name: String,
    pub type_def_flags: u32,
    pub base_type: u32,
}

} // verus!
