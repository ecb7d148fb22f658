//! Bits of the event mask by which a profiler tells the runtime which
//! notifications it wants.

use vstd::prelude::*;

verus! {

pub const COR_PRF_MONITOR_CLASS_LOADS: u32 = 0x2;
pub const COR_PRF_MONITOR_MODULE_LOADS: u32 = 0x4;
pub const COR_PRF_MONITOR_ASSEMBLY_LOADS: u32 = 0x8;
pub const COR_PRF_MONITOR_APPDOMAIN_LOADS: u32 = 0x10;
pub const COR_PRF_MONITOR_JIT_COMPILATION: u32 = 0x20;
pub const COR_PRF_MONITOR_EXCEPTIONS: u32 = 0x40;
pub const COR_PRF_MONITOR_GC: u32 = 0x80;
pub const COR_PRF_MONITOR_THREADS: u32 = 0x200;
pub const COR_PRF_MONITOR_SUSPENDS: u32 = 0x10000;
pub const COR_PRF_ENABLE_REJIT: u32 = 0x40000;
pub const COR_PRF_ENABLE_STACK_SNAPSHOT: u32 = 0x1000_0000;

/// The events a profiler may still ask for when it attaches to a running
/// process.
pub const COR_PRF_ALLOWABLE_AFTER_ATTACH: u32 = 0x1005_02FE;

/// Stack walks report nothing beyond each frame's function.
pub const COR_PRF_SNAPSHOT_DEFAULT: u32 = 0;

/// No event of the second half of the mask.
pub const COR_PRF_HIGH_MONITOR_NONE: u32 = 0;

} // verus!
