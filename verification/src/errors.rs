//! The error taxonomy of the crate.
//!
//! Construction-time failures are fatal; per-slot failures are values
//! in the pulled sequence, and iteration continues past them.

use vstd::prelude::*;

verus! {

/// The source could not be opened or the table header could not be
/// read.  Raised once, at construction.
pub struct InitializationError {
    pub message: String,
}

/// A slot could not be decoded.  Reported as the pulled value for that
/// slot; the iterator goes on with the next slot.
pub struct DecodeError {
    pub message: String,
}

/// A decoded record could not be rendered.  Reported as the pulled
/// value for that slot; the iterator goes on with the next slot.
pub struct SerializationError {
    pub message: String,
}

/// A per-slot failure: either the decode or the rendering went wrong.
pub enum PullError {
    Decode(DecodeError),
    Serialization(SerializationError),
}

/// Misuse of the parser facade.
pub enum FacadeError {
    /// Metadata was requested after the table handle had been handed
    /// off to an iterator.
    NotInitialized,
    /// A second iteration was requested from the same facade.
    AlreadyConsumed,
}

} // verus!
