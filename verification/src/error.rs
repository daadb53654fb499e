use vstd::prelude::*;

verus! {

/// The closed set of failure kinds a fill request can report.
///
/// No payload is carried: callers needing finer diagnosis must inspect
/// lower-level OS error codes themselves.
#[derive(Clone, Copy, Debug, PartialEq, Eq, Structural)]
pub enum Error {
    /// Opening or reading the fallback device failed, or the fast syscall
    /// returned an unexpected error or a short count.
    Unknown,
    /// No entropy source is known on this platform; reported only by the
    /// stub backend for targets without one.
    Unavailable,
}

} // verus!
