use vstd::prelude::*;

verus! {

/// Errors surfaced by this crate: a poisoned synchronization lock, fatal
/// for the affected waker, or an opaque failure reported by the capture
/// backend, propagated verbatim with no interpretation or retry.
#[derive(Debug, Clone, PartialEq, Eq)]
pub enum XCapError {
    LockError,
    BackendError(String),
}

pub type XCapResult<T> = Result<T, XCapError>;

} // verus!
