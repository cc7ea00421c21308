//! The errors of the library.

use vstd::prelude::*;

verus! {

/// What can go wrong when combining shares or allocating secret storage.
#[derive(Debug, Clone, Copy, PartialEq, Eq, Structural)]
pub enum Error {
    /// Fewer than `threshold + 1` shares were supplied.
    NotEnoughShares,
    /// Two of the shares that were used have the same index.
    DuplicateEntry,
    /// The secret storage of the requested size cannot be allocated.
    MutableAllocationFailed,
}

impl Error {
    /// A description of the error.
    pub fn message(&self) -> (r: &'static str) {
        match self {
            Error::NotEnoughShares => "Not enough shares for interpolation",
            Error::DuplicateEntry => "Signature shares contain a duplicated index",
            Error::MutableAllocationFailed => "Failed to create mutable secret storage",
        }
    }
}

} // verus!
