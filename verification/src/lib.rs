//! Verified core of a .NET profiling toolkit: CIL instruction encoding and
//! decoding, profiling-API result codes and data records, and the bookkeeping
//! done by the individual profilers (GC pause windows, per-class counters,
//! exception keys, session identifiers).

pub mod api;
pub mod profiling_api;
pub mod profilers;
