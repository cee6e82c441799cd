use vstd::prelude::*;

use crate::error::StorageError;

verus! {

/// Default retained-result disk budget.
pub const DEFAULT_MAX_RETAINED_BYTES: u64 = 4 * 1024 * 1024 * 1024;

/// Settings of a store.
#[derive(Debug, Clone, Copy, PartialEq, Eq, Structural)]
pub struct StorageOptions {
    /// Maximum bytes of retained results.
    pub max_retained_bytes: u64,
}

impl Default for StorageOptions {
    fn default() -> (result: StorageOptions)
        ensures
            result.max_retained_bytes == DEFAULT_MAX_RETAINED_BYTES,
    {
        StorageOptions { max_retained_bytes: DEFAULT_MAX_RETAINED_BYTES }
    }
}

/// The rules of a store.
///
/// Each method decides one operation from the rows that the caller has read in one transaction,
/// together with the time and the fresh ids that the operation needs, and returns the rows that
/// the transaction has to write, or the failure with which it has to end.
#[derive(Debug, Clone, Copy, PartialEq, Eq, Structural)]
pub struct Storage {
    /// Maximum bytes of retained results.
    pub max_retained_bytes: u64,
}

impl Storage {
    /// Accepts the settings of a store.
    pub fn open_with_options(options: StorageOptions) -> (result: Result<Storage, StorageError>)
        ensures
            result == (if options.max_retained_bytes == 0 {
                Err::<Storage, StorageError>(
                    StorageError::InvalidResult(
                        "retained-result quota must be greater than zero",
                    ),
                )
            } else {
                Ok(Storage { max_retained_bytes: options.max_retained_bytes })
            }),
    {
        if options.max_retained_bytes == 0 {
            return Err(
                StorageError::InvalidResult("retained-result quota must be greater than zero"),
            );
        }
        Ok(Storage { max_retained_bytes: options.max_retained_bytes })
    }
}

} // verus!
