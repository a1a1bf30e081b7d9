//! The error taxonomy of the store.

use vstd::prelude::*;

verus! {

/// Every way a store operation can fail.
///
/// Each error is fatal to the current call: the operation that reports it
/// leaves the store exactly as it was.
#[derive(Clone, Copy, Debug, PartialEq, Eq, Structural)]
pub enum Error {
    /// A repeated attempt to initialize an already-initialized store.
    AlreadyInitialized,
    /// An index outside the valid contiguous range `[1, count]` of a
    /// per-owner sequence.
    OutOfRange,
    /// An account tried to follow itself.
    SelfFollowNotAllowed,
}

} // verus!
