//! The non-blocking result convention used by every socket operation.
//!
//! A non-blocking operation either completes, signals that it would have to
//! block (a retry-me signal, not a failure), or fails with the stack's own
//! error. The would-block signal is kept strictly apart from real errors.

use vstd::prelude::*;

verus! {

/// Either a genuine error of kind `E`, or the signal that the operation
/// could not complete right now and should be retried later.
#[derive(Clone, Copy, Debug, PartialEq, Eq)]
pub enum NbError<E> {
    /// The operation would have to block; retry it later.
    WouldBlock,
    /// A genuine error reported by the stack.
    Other(E),
}

impl<E> NbError<E> {
    /// True exactly when this is the would-block signal.
    pub fn is_would_block(&self) -> (r: bool)
        ensures
            r == (self is WouldBlock),
    {
        match self {
            NbError::WouldBlock => true,
            NbError::Other(_) => false,
        }
    }
}

} // verus!
