use vstd::prelude::*;

verus! {

/// Result codes returned by the CLR profiling API.
#[allow(non_camel_case_types)]
#[derive(Clone, Copy, Debug, PartialEq, Eq, Hash, Structural)]
pub enum HRESULT {
    S_OK,
    E_NOINTERFACE,
    E_OUTOFMEMORY,
    CLASS_E_NOAGGREGATION,
    CLASS_E_CLASSNOTAVAILABLE,
    /// Unspecified error
    E_FAIL,
    E_POINTER,
    COR_E_INVALIDPROGRAM,
    COR_E_INVALIDOPERATION,
    COR_E_INDEXOUTOFRANGE,
    /// The specified ClassID cannot be inspected by this function because it is an array
    CORPROF_E_CLASSID_IS_ARRAY,
    /// A profiler tried to walk the stack of an invalid thread
    CORPROF_E_STACKSNAPSHOT_INVALID_TGT_THREAD,
    /// A profiler can not walk a thread that is currently executing unmanaged code
    CORPROF_E_STACKSNAPSHOT_UNMANAGED_CTX,
    /// A stackwalk at this point may cause dead locks or data corruption
    CORPROF_E_STACKSNAPSHOT_UNSAFE,
    /// Stackwalking callback requested the walk to abort
    CORPROF_E_STACKSNAPSHOT_ABORTED,
    /// A call was made at an unsupported time.
    CORPROF_E_UNSUPPORTED_CALL_SEQUENCE,
    /// The profiler's call into the CLR is disallowed because the profiler is attempting to detach.
    CORPROF_E_PROFILER_DETACHING,
    /// The profiler does not support attaching to a live process.
    CORPROF_E_PROFILER_NOT_ATTACHABLE,
    /// The request to attach a profiler was denied because a profiler is already loaded.
    CORPROF_E_PROFILER_ALREADY_ACTIVE,
}

/// The 32-bit value of each result code, as the runtime writes it.
pub open spec fn spec_code(h: HRESULT) -> u32 {
    match h {
        HRESULT::S_OK => 0,
        HRESULT::E_NOINTERFACE => 0x8000_4002,
        HRESULT::E_OUTOFMEMORY => 0x8007_000E,
        HRESULT::CLASS_E_NOAGGREGATION => 0x8004_0110,
        HRESULT::CLASS_E_CLASSNOTAVAILABLE => 0x8004_0111,
        HRESULT::E_FAIL => 0x8000_4005,
        HRESULT::E_POINTER => 0x8000_4003,
        HRESULT::COR_E_INVALIDPROGRAM => 0x8013_153A,
        HRESULT::COR_E_INVALIDOPERATION => 0x8013_1509,
        HRESULT::COR_E_INDEXOUTOFRANGE => 0x8,
        HRESULT::CORPROF_E_CLASSID_IS_ARRAY => 0x8013_1365,
        HRESULT::CORPROF_E_STACKSNAPSHOT_INVALID_TGT_THREAD => 0x8013_135E,
        HRESULT::CORPROF_E_STACKSNAPSHOT_UNMANAGED_CTX => 0x8013_135F,
        HRESULT::CORPROF_E_STACKSNAPSHOT_UNSAFE => 0x8013_1360,
        HRESULT::CORPROF_E_STACKSNAPSHOT_ABORTED => 0x8013_1361,
        HRESULT::CORPROF_E_UNSUPPORTED_CALL_SEQUENCE => 0x8013_1363,
        HRESULT::CORPROF_E_PROFILER_DETACHING => 0x8013_1367,
        HRESULT::CORPROF_E_PROFILER_NOT_ATTACHABLE => 0x8013_1368,
        HRESULT::CORPROF_E_PROFILER_ALREADY_ACTIVE => 0x8013_136A,
    }
}

impl HRESULT {
    /// The 32-bit value of this result code.
    pub fn code(&self) -> (r: u32)
        ensures
            r == spec_code(*self),
    {
        match self {
            HRESULT::S_OK => 0,
            HRESULT::E_NOINTERFACE => 0x8000_4002,
            HRESULT::E_OUTOFMEMORY => 0x8007_000E,
            HRESULT::CLASS_E_NOAGGREGATION => 0x8004_0110,
            HRESULT::CLASS_E_CLASSNOTAVAILABLE => 0x8004_0111,
            HRESULT::E_FAIL => 0x8000_4005,
            HRESULT::E_POINTER => 0x8000_4003,
            HRESULT::COR_E_INVALIDPROGRAM => 0x8013_153A,
            HRESULT::COR_E_INVALIDOPERATION => 0x8013_1509,
            HRESULT::COR_E_INDEXOUTOFRANGE => 0x8,
            HRESULT::CORPROF_E_CLASSID_IS_ARRAY => 0x8013_1365,
            HRESULT::CORPROF_E_STACKSNAPSHOT_INVALID_TGT_THREAD => 0x8013_135E,
            HRESULT::CORPROF_E_STACKSNAPSHOT_UNMANAGED_CTX => 0x8013_135F,
            HRESULT::CORPROF_E_STACKSNAPSHOT_UNSAFE => 0x8013_1360,
            HRESULT::CORPROF_E_STACKSNAPSHOT_ABORTED => 0x8013_1361,
            HRESULT::CORPROF_E_UNSUPPORTED_CALL_SEQUENCE => 0x8013_1363,
            HRESULT::CORPROF_E_PROFILER_DETACHING => 0x8013_1367,
            HRESULT::CORPROF_E_PROFILER_NOT_ATTACHABLE => 0x8013_1368,
            HRESULT::CORPROF_E_PROFILER_ALREADY_ACTIVE => 0x8013_136A,
        }
    }

    /// The result code with the given 32-bit value, if it is one of the known codes.
    pub fn from_code(code: u32) -> (r: Option<HRESULT>)
        ensures
            match r {
                Some(h) => spec_code(h) == code,
                None => forall|h: HRESULT| spec_code(h) != code,
            },
    {
        if code == 0 {
            Some(HRESULT::S_OK)
        } else if code == 0x8000_4002 {
            Some(HRESULT::E_NOINTERFACE)
        } else if code == 0x8007_000E {
            Some(HRESULT::E_OUTOFMEMORY)
        } else if code == 0x8004_0110 {
            Some(HRESULT::CLASS_E_NOAGGREGATION)
        } else if code == 0x8004_0111 {
            Some(HRESULT::CLASS_E_CLASSNOTAVAILABLE)
        } else if code == 0x8000_4005 {
            Some(HRESULT::E_FAIL)
        } else if code == 0x8000_4003 {
            Some(HRESULT::E_POINTER)
        } else if code == 0x8013_153A {
            Some(HRESULT::COR_E_INVALIDPROGRAM)
        } else if code == 0x8013_1509 {
            Some(HRESULT::COR_E_INVALIDOPERATION)
        } else if code == 0x8 {
            Some(HRESULT::COR_E_INDEXOUTOFRANGE)
        } else if code == 0x8013_1365 {
            Some(HRESULT::CORPROF_E_CLASSID_IS_ARRAY)
        } else if code == 0x8013_135E {
            Some(HRESULT::CORPROF_E_STACKSNAPSHOT_INVALID_TGT_THREAD)
        } else if code == 0x8013_135F {
            Some(HRESULT::CORPROF_E_STACKSNAPSHOT_UNMANAGED_CTX)
        } else if code == 0x8013_1360 {
            Some(HRESULT::CORPROF_E_STACKSNAPSHOT_UNSAFE)
        } else if code == 0x8013_1361 {
            Some(HRESULT::CORPROF_E_STACKSNAPSHOT_ABORTED)
        } else if code == 0x8013_1363 {
            Some(HRESULT::CORPROF_E_UNSUPPORTED_CALL_SEQUENCE)
        } else if code == 0x8013_1367 {
            Some(HRESULT::CORPROF_E_PROFILER_DETACHING)
        } else if code == 0x8013_1368 {
            Some(HRESULT::CORPROF_E_PROFILER_NOT_ATTACHABLE)
        } else if code == 0x8013_136A {
            Some(HRESULT::CORPROF_E_PROFILER_ALREADY_ACTIVE)
        } else {
            None
        }
    }
}

/// Distinct result codes have distinct values, so a value read back names
/// exactly the code that was written.
pub proof fn lemma_code_roundtrip(h: HRESULT, g: HRESULT)
    ensures
        spec_code(h) == spec_code(g) ==> h == g,
{
}

} // verus!
