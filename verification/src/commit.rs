use vstd::prelude::*;

use crate::error::StorageError;

verus! {

/// What the store shows after a commit that reported a failure.
pub enum Readback<T> {
    /// The store cannot be read.
    Unreadable,
    /// The record as it is, if there is one.
    Found(Option<T>),
}

/// How a commit that reported a failure is settled.
pub enum CommitOutcome<T> {
    /// The commit took effect: the operation has succeeded after all.
    Applied(T),
    /// The commit had no effect: the operation ends with the failure that was reported.
    NotApplied,
    /// Nothing can be said: the operation ends with this failure.
    Unknown(StorageError),
}

} // verus!
