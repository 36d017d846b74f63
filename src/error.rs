use vstd::prelude::*;

verus! {

/// What can go wrong when a handle or a buffer is used across the boundary.
#[derive(Debug, Clone, PartialEq, Eq)]
pub enum BoxerError {
    /// The handle's address is null.
    NullPointer,
    /// The handle is valid but holds no value (it was taken, or never filled).
    NoValue,
    /// The source holds more elements than the destination can take.
    SizeMismatch(usize, usize),
    /// An underlying input/output operation failed; the text describes it.
    IOError(String),
    /// Any other failure; the text describes it.
    AnyError(String),
}

pub type Result<T> = core::result::Result<T, BoxerError>;

} // verus!
