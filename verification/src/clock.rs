use std::time::Duration;

use vstd::prelude::*;

use crate::error::StorageError;

verus! {

/// The span of a duration in nanoseconds, as `Duration::as_nanos` gives it.
pub uninterp spec fn nanoseconds(duration: Duration) -> nat;

/// `Duration::is_zero` tells whether the duration spans no time.
pub assume_specification[ Duration::is_zero ](duration: &Duration) -> (result: bool)
    ensures
        result == (nanoseconds(*duration) == 0),
;

/// `Duration::as_millis` counts the whole milliseconds of the duration.
pub assume_specification[ Duration::as_millis ](duration: &Duration) -> (result: u128)
    ensures
        result == nanoseconds(*duration) / 1_000_000,
;

/// The end of a retention that begins now, or why there is none.
pub open spec fn retention_end(
    retention: Duration,
    timestamp: i64,
    empty: StorageError,
    retention_label: &'static str,
    expiry_label: &'static str,
) -> Result<i64, StorageError> {
    let millis = (nanoseconds(retention) / 1_000_000) as int;
    if nanoseconds(retention) == 0 {
        Err(empty)
    } else if millis > i64::MAX {
        Err(StorageError::NumericRange(retention_label))
    } else if timestamp + millis > i64::MAX {
        Err(StorageError::NumericRange(expiry_label))
    } else {
        Ok((timestamp + millis) as i64)
    }
}

/// Finds the end of a retention that begins now.
pub fn end_of_retention(
    retention: &Duration,
    timestamp: i64,
    empty: StorageError,
    retention_label: &'static str,
    expiry_label: &'static str,
) -> (result: Result<i64, StorageError>)
    ensures
        result == retention_end(*retention, timestamp, empty, retention_label, expiry_label),
{
    if retention.is_zero() {
        return Err(empty);
    }
    let millis: u128 = retention.as_millis();
    if millis > i64::MAX as u128 {
        return Err(StorageError::NumericRange(retention_label));
    }
    match timestamp.checked_add(millis as i64) {
        Some(end) => Ok(end),
        None => Err(StorageError::NumericRange(expiry_label)),
    }
}

/// A retention of whole milliseconds ends that many milliseconds from now; one of no time is refused
/// with the given failure, and one that ends beyond the last time with a range failure.
pub proof fn law_retention_ends_after_its_span(
    retention: Duration,
    timestamp: i64,
    empty: StorageError,
    retention_label: &'static str,
    expiry_label: &'static str,
)
    ensures
        ({
            let end = retention_end(retention, timestamp, empty, retention_label, expiry_label);
            let millis = (nanoseconds(retention) / 1_000_000) as int;
            &&& end is Ok <==> nanoseconds(retention) > 0 && millis <= i64::MAX && timestamp
                + millis <= i64::MAX
            &&& end matches Ok(expiry) ==> expiry == timestamp + millis
            &&& nanoseconds(retention) == 0 ==> end == Err::<i64, StorageError>(empty)
        }),
{
}

} // verus!
