//! The profiling API as seen by the profilers: result codes, plain data records
//! returned by the runtime, the traits through which the runtime is queried, and
//! helpers built on top of them.

pub mod hresult;
pub mod types;
pub mod traits;
pub mod extensions;
pub mod event_mask;
