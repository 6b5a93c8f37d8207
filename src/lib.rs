//! Job lifecycle and conversion orchestration for a media-conversion server.
//!
//! The library holds the verified core: the encoding policy, the job registry,
//! the per-connection control protocol, progress parsing and the retention
//! schedule. Transport, process spawning and file I/O live outside it and hand
//! it plain values.

pub mod text;
pub mod gpu;
pub mod format;
pub mod speed;
pub mod job;
pub mod state;
pub mod retention;
pub mod session;
