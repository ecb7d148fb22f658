//! Name lookups used by the profilers that record per-class and per-stack
//! figures.

use vstd::prelude::*;

use crate::api::hresult::HRESULT;
use crate::api::traits::{CorProfilerInfo, MetadataImportTrait};
use crate::api::types::{FunctionTokenAndMetadata, MethodProps, TypeProps};

verus! {

broadcast use vstd::string::to_string_from_display_ensures_for_str;

/// Metadata is opened for reading only.
pub const OF_READ: u32 = 0;

/// Name reported for a type once its module's metadata is open, given the
/// outcome of reading the type's properties.
pub open spec fn spec_type_name_from_props(props: Result<TypeProps, HRESULT>) -> Seq<char> {
    match props {
        Ok(p) => p.name@,
        Err(_) => "unknown4"@,
    }
}

/// Name reported for a method once its metadata is found, given the outcome of
/// reading the method's properties.
pub open spec fn spec_method_name_from_props(props: Result<MethodProps, HRESULT>) -> Seq<char> {
    match props {
        Ok(p) => p.name@,
        Err(_) => "unknown4"@,
    }
}

/// The name of a type, or the placeholder for a failed property read.
pub fn type_name_from_props(props: Result<TypeProps, HRESULT>) -> (r: String)
    ensures
        r@ == spec_type_name_from_props(props),
{
    match props {
        Ok(type_props) => type_props.name,
        Err(_) => "unknown4".to_string(),
    }
}

/// The name of a method, or the placeholder for a failed property read.
pub fn method_name_from_props(props: Result<MethodProps, HRESULT>) -> (r: String)
    ensures
        r@ == spec_method_name_from_props(props),
{
    match props {
        Ok(method_props) => method_props.name,
        Err(_) => "unknown4".to_string(),
    }
}

/// Whether `name` is the name that a lookup of the type `td` of module
/// `module_id` gives on some answers of the runtime to its two queries: the
/// opening of the module's metadata for reading (`unknown3` when it is
/// refused), then the read of the type's properties from that metadata.
pub open spec fn is_type_name_answer<P: CorProfilerInfo>(info: &P, module_id: usize, td: u32, name: Seq<char>) -> bool {
    exists|md: Result<P::MetadataImport, HRESULT>|
        #[trigger] info.module_metadata_answer(module_id, OF_READ, md)
        && match md {
            Err(_) => name == "unknown3"@,
            Ok(metadata) => exists|props: Result<TypeProps, HRESULT>|
                #[trigger] metadata.type_def_props_answer(td, props) && name == spec_type_name_from_props(props),
        }
}

/// Whether `name` is the name that a lookup of the method `method_id` gives on
/// some answers of the runtime to its two queries: the search for the method's
/// token and metadata (`unmanaged` when there is none, as for a native
/// frame), then the read of the method's properties from that metadata.
pub open spec fn is_method_name_answer<P: CorProfilerInfo>(info: &P, method_id: usize, name: Seq<char>) -> bool {
    exists|f: Result<FunctionTokenAndMetadata<P::MetadataImport>, HRESULT>|
        #[trigger] info.token_and_metadata_answer(method_id, f)
        && match f {
            Err(_) => name == "unmanaged"@,
            Ok(found) => exists|props: Result<MethodProps, HRESULT>|
                #[trigger] found.metadata_import.method_props_answer(found.token, props) && name == spec_method_name_from_props(props),
        }
}

/// Name of the type `td` of module `module_id`: its name from the module's
/// metadata, `unknown3` when the metadata cannot be opened and `unknown4` when
/// the type's properties cannot be read.
pub fn get_type_name<P: CorProfilerInfo>(info: &P, module_id: usize, td: u32) -> (r: String)
    ensures
        is_type_name_answer(info, module_id, td, r@),
{
    let md = info.get_module_metadata(module_id, OF_READ);
    match md {
        Ok(metadata) => {
            let props = metadata.get_type_def_props(td);
            let r = type_name_from_props(props);
            assert(metadata.type_def_props_answer(td, props));
            r
        },
        Err(_) => "unknown3".to_string(),
    }
}

/// Name of the method `method_id`: its name from the metadata, `unmanaged`
/// when no metadata is found for it (a native frame) and `unknown4` when its
/// properties cannot be read.
pub fn get_method_name<P: CorProfilerInfo>(info: &P, method_id: usize) -> (r: String)
    ensures
        is_method_name_answer(info, method_id, r@),
{
    let f = info.get_token_and_metadata_from_function(method_id);
    match f {
        Ok(found) => {
            let props = found.metadata_import.get_method_props(found.token);
            let r = method_name_from_props(props);
            assert(found.metadata_import.method_props_answer(found.token, props));
            r
        },
        Err(_) => "unmanaged".to_string(),
    }
}

} // verus!
