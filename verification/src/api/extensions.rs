//! Helpers built on the profiling API: resolving human-readable names of types
//! and methods, and reading the generation of a collection.

use vstd::prelude::*;
use vstd::string::StringExecFns;

use crate::api::hresult::HRESULT;
use crate::api::traits::{CorProfilerInfo, MetadataImportTrait};
use crate::api::types::{FunctionInfo, FunctionTokenAndMetadata, MethodProps, TypeProps};

verus! {

broadcast use vstd::string::to_string_from_display_ensures_for_str;

/// Metadata is opened for reading only.
pub const OF_READ: u32 = 0;

/// Name reported for a type once its module's metadata is open, given the
/// outcome of reading the type's properties.
pub open spec fn spec_type_name_from_props(props: Result<TypeProps, HRESULT>) -> Seq<char> {
    match props {
        Ok(p) => p.name@,
        Err(_) => "unknown_0002"@,
    }
}

/// Name reported for a method once its metadata is found, given the outcome of
/// reading the method's properties.
pub open spec fn spec_method_name_from_props(props: Result<MethodProps, HRESULT>) -> Seq<char> {
    match props {
        Ok(p) => p.name@,
        Err(_) => "unknown_0004"@,
    }
}

/// The name of a type, or the placeholder for a failed property read.
pub fn type_name_from_props(props: Result<TypeProps, HRESULT>) -> (r: String)
    ensures
        r@ == spec_type_name_from_props(props),
{
    match props {
        Ok(type_props) => type_props.name,
        Err(_) => "unknown_0002".to_string(),
    }
}

/// The name of a method, or the placeholder for a failed property read.
pub fn method_name_from_props(props: Result<MethodProps, HRESULT>) -> (r: String)
    ensures
        r@ == spec_method_name_from_props(props),
{
    match props {
        Ok(method_props) => method_props.name,
        Err(_) => "unknown_0004".to_string(),
    }
}

/// The qualified name `Type.method`.
pub fn full_method_name(class_name: String, method_name: &str) -> (r: String)
    ensures
        r@ == class_name@ + "."@ + method_name@,
{
    let r = class_name.concat(".");
    r.concat(method_name)
}

/// Whether `name` is the name that a lookup of the type `td` of module
/// `module_id` gives on some answers of the runtime to its two queries: the
/// opening of the module's metadata for reading (`unknown_0001` when it is
/// refused), then the read of the type's properties from that metadata.
pub open spec fn is_type_name_answer<P: CorProfilerInfo>(info: &P, module_id: usize, td: u32, name: Seq<char>) -> bool {
    exists|md: Result<P::MetadataImport, HRESULT>|
        #[trigger] info.module_metadata_answer(module_id, OF_READ, md)
        && match md {
            Err(_) => name == "unknown_0001"@,
            Ok(metadata) => exists|props: Result<TypeProps, HRESULT>|
                #[trigger] metadata.type_def_props_answer(td, props) && name == spec_type_name_from_props(props),
        }
}

/// Whether `name` is the name that a lookup of the method `method_id` gives on
/// some answers of the runtime to its two queries: the search for the method's
/// token and metadata (`unknown_0003` when it fails), then the read of the
/// method's properties from that metadata.
pub open spec fn is_method_name_answer<P: CorProfilerInfo>(info: &P, method_id: usize, name: Seq<char>) -> bool {
    exists|f: Result<FunctionTokenAndMetadata<P::MetadataImport>, HRESULT>|
        #[trigger] info.token_and_metadata_answer(method_id, f)
        && match f {
            Err(_) => name == "unknown_0003"@,
            Ok(found) => exists|props: Result<MethodProps, HRESULT>|
                #[trigger] found.metadata_import.method_props_answer(found.token, props) && name == spec_method_name_from_props(props),
        }
}

/// Whether `name` is the qualified name that a lookup of the method
/// `method_id` gives on some answers of the runtime: the query for the
/// function's module (`unknown_0002` when it fails), the search for its token
/// and metadata (`unknown_0003`), the read of its properties (`unknown_0004`),
/// and last the lookup of its class's name in the function's module.
pub open spec fn is_full_method_name_answer<P: CorProfilerInfo>(info: &P, method_id: usize, name: Seq<char>) -> bool {
    exists|fi: Result<FunctionInfo, HRESULT>|
        #[trigger] info.function_info_answer(method_id, fi)
        && match fi {
            Err(_) => name == "unknown_0002"@,
            Ok(function_info) => exists|f: Result<FunctionTokenAndMetadata<P::MetadataImport>, HRESULT>|
                #[trigger] info.token_and_metadata_answer(method_id, f)
                && match f {
                    Err(_) => name == "unknown_0003"@,
                    Ok(found) => exists|props: Result<MethodProps, HRESULT>|
                        #[trigger] found.metadata_import.method_props_answer(found.token, props)
                        && match props {
                            Err(_) => name == "unknown_0004"@,
                            Ok(method_props) => exists|class_name: Seq<char>|
                                #[trigger] is_type_name_answer(info, function_info.module_id, method_props.class_token, class_name)
                                && name == class_name + "."@ + method_props.name@,
                        },
                },
        }
}

/// Name of the type `td` of module `module_id`: its name from the module's
/// metadata, `unknown_0001` when the metadata cannot be opened and
/// `unknown_0002` when the type's properties cannot be read.
pub fn get_type_name<P: CorProfilerInfo>(info: &P, module_id: usize, td: u32) -> (r: String)
    ensures
        is_type_name_answer(info, module_id, td, r@),
{
    let md = info.get_module_metadata(module_id, OF_READ);
    match md {
        Ok(metadata) => {
            let props = metadata.get_type_def_props(td);
            let r = type_name_from_props(props);
            assert(metadata.type_def_props_answer(td, props));
            r
        },
        Err(_) => "unknown_0001".to_string(),
    }
}

/// Name of the method `method_id`: its name from the metadata,
/// `unknown_0003` when its metadata cannot be found and `unknown_0004` when its
/// properties cannot be read.
pub fn get_method_name<P: CorProfilerInfo>(info: &P, method_id: usize) -> (r: String)
    ensures
        is_method_name_answer(info, method_id, r@),
{
    let f = info.get_token_and_metadata_from_function(method_id);
    match f {
        Ok(found) => {
            let props = found.metadata_import.get_method_props(found.token);
            let r = method_name_from_props(props);
            assert(found.metadata_import.method_props_answer(found.token, props));
            r
        },
        Err(_) => "unknown_0003".to_string(),
    }
}

/// Qualified name `Type.method` of the method `method_id`, or the placeholder
/// of the first lookup that fails: `unknown_0002` (function information),
/// `unknown_0003` (metadata) or `unknown_0004` (method properties).
pub fn get_full_method_name<P: CorProfilerInfo>(info: &P, method_id: usize) -> (r: String)
    ensures
        is_full_method_name_answer(info, method_id, r@),
{
    let fi = info.get_function_info(method_id);
    match fi {
        Ok(function_info) => {
            let f = info.get_token_and_metadata_from_function(method_id);
            match f {
                Ok(found) => {
                    let props = found.metadata_import.get_method_props(found.token);
                    assert(found.metadata_import.method_props_answer(found.token, props));
                    match props {
                        Ok(method_props) => {
                            let class_name = get_type_name(info, function_info.module_id, method_props.class_token);
                            let ghost cn = class_name@;
                            let r = full_method_name(class_name, method_props.name.as_str());
                            assert(is_type_name_answer(info, function_info.module_id, method_props.class_token, cn));
                            r
                        },
                        Err(_) => "unknown_0004".to_string(),
                    }
                },
                Err(_) => "unknown_0003".to_string(),
            }
        },
        Err(_) => "unknown_0002".to_string(),
    }
}

/// Number of generations whose flag is set (`1`).
pub open spec fn count_collected(gens: Seq<i32>) -> int
    decreases gens.len(),
{
    if gens.len() == 0 {
        0
    } else {
        count_collected(gens.drop_last()) + (if gens.last() == 1 { 1int } else { 0int })
    }
}

/// Highest generation collected by a garbage collection, given one flag per
/// generation: the number of flags set, minus one (`-1` when none is set).
pub fn get_gc_gen(generation_collected: &[i32]) -> (r: i8)
    requires
        count_collected(generation_collected@) <= 128,
    ensures
        r == count_collected(generation_collected@) - 1,
{
    let mut max_gen: i8 = -1;
    let mut i: usize = 0;
    while i < generation_collected.len()
        invariant
            i <= generation_collected@.len(),
            count_collected(generation_collected@) <= 128,
            max_gen == count_collected(generation_collected@.take(i as int)) - 1,
        decreases generation_collected@.len() - i,
    {
        proof {
            assert(generation_collected@.take(i + 1).drop_last() =~= generation_collected@.take(i as int));
            lemma_count_collected_prefix(generation_collected@, i as int + 1);
        }
        if generation_collected[i] == 1 {
            max_gen += 1;
        }
        i = i + 1;
    }
    assert(generation_collected@.take(i as int) =~= generation_collected@);
    max_gen
}

/// Counting over a prefix never exceeds counting over the whole sequence.
proof fn lemma_count_collected_prefix(gens: Seq<i32>, k: int)
    requires
        0 <= k <= gens.len(),
    ensures
        count_collected(gens.take(k)) <= count_collected(gens),
    decreases gens.len() - k,
{
    if k < gens.len() {
        lemma_count_collected_prefix(gens, k + 1);
        assert(gens.take(k + 1).drop_last() =~= gens.take(k));
    } else {
        assert(gens.take(k) =~= gens);
    }
}

} // verus!
