//! The instrumentation side of the profiling API: the CIL instruction model
//! used to read and rewrite method bodies.

pub mod cil;
pub mod extensions;
