//! The bookkeeping of the individual profilers: what each one records from the
//! runtime's callbacks and what it reports when it detaches.

pub mod gc_pause_profiler;
pub mod counter_table;
pub mod names;
pub mod session;
pub mod allocation_by_class_profiler;
pub mod memory_leak_profiler;
pub mod exceptions_profiler;
