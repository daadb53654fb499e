//! Best-effort interface for filling caller-provided buffers with
//! operating-system randomness.
//!
//! The library holds the platform-independent logic: the closed set of
//! failure kinds, the backend for targets with no known entropy source,
//! and the state machine that decides, for one UNIX-family variant, how a
//! fill request is served — probing once per process for the fast entropy
//! syscall, falling back to the entropy device, and draining the buffer in
//! bounded chunks. The raw syscall, the device handle and the per-thread
//! cache live in the surrounding driver, which reports every outcome back
//! to the state machine as an event and performs the action it returns.

pub mod dummy;
pub mod error;
pub mod reader;
