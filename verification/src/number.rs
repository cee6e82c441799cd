use vstd::prelude::*;

use crate::error::StorageError;

verus! {

/// The database stores signed 64-bit integers: the values of `u64` that it can hold.
pub open spec fn fits_sql(value: u64) -> bool {
    value <= i64::MAX
}

/// The value that the database column gets, or the range failure under `label`.
pub open spec fn sql_i64(value: u64, label: &'static str) -> Result<i64, StorageError> {
    if fits_sql(value) {
        Ok(value as i64)
    } else {
        Err(StorageError::NumericRange(label))
    }
}

/// The count that a database column holds, or the range failure under `label`.
pub open spec fn sql_u64(value: i64, label: &'static str) -> Result<u64, StorageError> {
    if value >= 0 {
        Ok(value as u64)
    } else {
        Err(StorageError::NumericRange(label))
    }
}

/// The count that an optional database column holds.
pub open spec fn sql_optional_u64(value: Option<i64>, label: &'static str) -> Result<
    Option<u64>,
    StorageError,
> {
    match value {
        None => Ok(None),
        Some(stored) => match sql_u64(stored, label) {
            Ok(count) => Ok(Some(count)),
            Err(error) => Err(error),
        },
    }
}

/// The next revision or counter value, or the range failure under `label`.
pub open spec fn successor(value: u64, label: &'static str) -> Result<u64, StorageError> {
    if value < u64::MAX {
        Ok((value + 1) as u64)
    } else {
        Err(StorageError::NumericRange(label))
    }
}

/// Turns a count into a database integer.
pub fn to_sql_i64(value: u64, label: &'static str) -> (result: Result<i64, StorageError>)
    ensures
        result == sql_i64(value, label),
{
    if value <= i64::MAX as u64 {
        Ok(value as i64)
    } else {
        Err(StorageError::NumericRange(label))
    }
}

/// Reads a count from a database integer.
pub fn from_sql_u64(value: i64, label: &'static str) -> (result: Result<u64, StorageError>)
    ensures
        result == sql_u64(value, label),
{
    if value >= 0 {
        Ok(value as u64)
    } else {
        Err(StorageError::NumericRange(label))
    }
}

/// Reads an optional count from an optional database integer.
pub fn from_sql_optional_u64(value: Option<i64>, label: &'static str) -> (result: Result<
    Option<u64>,
    StorageError,
>)
    ensures
        result == sql_optional_u64(value, label),
{
    match value {
        None => Ok(None),
        Some(stored) => match from_sql_u64(stored, label) {
            Ok(count) => Ok(Some(count)),
            Err(error) => Err(error),
        },
    }
}

/// Turns a length into a `u64`.
pub fn to_u64(value: usize, label: &'static str) -> (result: Result<u64, StorageError>)
    ensures
        result == (if value <= u64::MAX {
            Ok::<u64, StorageError>(value as u64)
        } else {
            Err(StorageError::NumericRange(label))
        }),
{
    match u64::try_from(value) {
        Ok(count) => Ok(count),
        Err(_) => Err(StorageError::NumericRange(label)),
    }
}

/// Advances a revision or a counter by one.
pub fn next_count(value: u64, label: &'static str) -> (result: Result<u64, StorageError>)
    ensures
        result == successor(value, label),
{
    match value.checked_add(1) {
        Some(next) => Ok(next),
        None => Err(StorageError::NumericRange(label)),
    }
}

/// What is written to a database column is what is read back from it.
pub proof fn law_sql_round_trip(value: u64, label: &'static str)
    requires
        fits_sql(value),
    ensures
        sql_i64(value, label) is Ok,
        sql_u64(sql_i64(value, label)->Ok_0, label) == Ok::<u64, StorageError>(value),
{
}

/// Every count that a database column yields can be written back unchanged.
pub proof fn law_sql_read_write(stored: i64, label: &'static str)
    requires
        sql_u64(stored, label) is Ok,
    ensures
        sql_i64(sql_u64(stored, label)->Ok_0, label) == Ok::<i64, StorageError>(stored),
{
}

/// A count is written as it is if it is no greater than the greatest signed number, a number is read
/// as it is if it is not negative, and a counter advances by one unless it is at its end.
pub proof fn law_numbers_keep_their_value(value: u64, stored: i64, label: &'static str)
    ensures
        sql_i64(value, label) is Ok <==> value <= 0x7fff_ffff_ffff_ffff,
        sql_i64(value, label) matches Ok(written) ==> written == value,
        sql_u64(stored, label) is Ok <==> stored >= 0,
        sql_u64(stored, label) matches Ok(read) ==> read == stored,
        sql_optional_u64(None, label) == Ok::<Option<u64>, StorageError>(None),
        sql_optional_u64(Some(stored), label) is Ok <==> stored >= 0,
        sql_optional_u64(Some(stored), label) matches Ok(read) ==> (read matches Some(count)
            && count == stored),
        successor(value, label) is Ok <==> value < 0xffff_ffff_ffff_ffff,
        successor(value, label) matches Ok(next) ==> next == value + 1,
        fits_sql(value) <==> value <= 0x7fff_ffff_ffff_ffff,
        sql_i64(value, label) matches Err(error) ==> error == StorageError::NumericRange(label),
        sql_u64(stored, label) matches Err(error) ==> error == StorageError::NumericRange(label),
        successor(value, label) matches Err(error) ==> error == StorageError::NumericRange(label),
{
}

} // verus!
