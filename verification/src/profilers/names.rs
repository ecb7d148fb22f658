//! Names under which the profilers file what they count: the class of an
//! object or of a class identifier, as the runtime reports it.

use vstd::prelude::*;

use crate::api::hresult::HRESULT;
use crate::api::traits::CorProfilerInfo;
use crate::api::types::ClassInfo;
use crate::profiling_api::extensions::{get_type_name, is_type_name_answer};

verus! {

broadcast use vstd::string::to_string_from_display_ensures_for_str;

/// Whether `name` is the name that a lookup of the class `class_id` gives on
/// some answers of the runtime: the query for the class's module and token
/// (`unknown2` when it fails), then the lookup of that type's name.
pub open spec fn is_class_name_answer<P: CorProfilerInfo>(pinfo: &P, class_id: usize, name: Seq<char>) -> bool {
    exists|info: Result<ClassInfo, HRESULT>|
        #[trigger] pinfo.class_id_info_answer(class_id, info)
        && match info {
            Err(_) => name == "unknown2"@,
            Ok(class_info) => is_type_name_answer(pinfo, class_info.module_id, class_info.token, name),
        }
}

/// Whether `name` is the name that a lookup of the class of the object
/// `object_id` gives on some answers of the runtime: the query for the
/// object's class (`unknown1` when it fails), then the lookup of that class's
/// name.
pub open spec fn is_object_class_name_answer<P: CorProfilerInfo>(pinfo: &P, object_id: usize, name: Seq<char>) -> bool {
    exists|class: Result<usize, HRESULT>|
        #[trigger] pinfo.class_from_object_answer(object_id, class)
        && match class {
            Err(_) => name == "unknown1"@,
            Ok(class_id) => is_class_name_answer(pinfo, class_id, name),
        }
}

/// Name of the class `class_id`, or `unknown2` when the class cannot be
/// looked up.
pub fn class_name<P: CorProfilerInfo>(pinfo: &P, class_id: usize) -> (r: String)
    ensures
        is_class_name_answer(pinfo, class_id, r@),
{
    let info = pinfo.get_class_id_info(class_id);
    match info {
        Ok(class_info) => get_type_name(pinfo, class_info.module_id, class_info.token),
        Err(_) => "unknown2".to_string(),
    }
}

/// Name of the class of the object `object_id`, or `unknown1` when the
/// object's class cannot be found.
pub fn object_class_name<P: CorProfilerInfo>(pinfo: &P, object_id: usize) -> (r: String)
    ensures
        is_object_class_name_answer(pinfo, object_id, r@),
{
    let class = pinfo.get_class_from_object(object_id);
    match class {
        Ok(class_id) => class_name(pinfo, class_id),
        Err(_) => "unknown1".to_string(),
    }
}

} // verus!
