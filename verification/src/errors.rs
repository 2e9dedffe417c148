//! What a settings operation can fail with.

use vstd::prelude::*;

verus! {

/// A failure of the backing store, as the repository reported it.
#[derive(Debug, PartialEq, Eq)]
pub struct StorageError {
    pub reason: String,
}

/// Why a settings operation did not go through.
#[derive(Debug, PartialEq, Eq)]
pub enum SettingsError {
    /// The value written for `field` is longer than `max_length` bytes.
    Validation { field: String, max_length: usize },
    /// The repository failed; its error is handed on as it came.
    Storage(StorageError),
    /// No service instance has been published yet.
    NotInitialized,
}

} // verus!
