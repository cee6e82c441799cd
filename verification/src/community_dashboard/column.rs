use serde_json::Value;
use vstd::prelude::*;

use crate::error::StorageError;
use crate::json::{document, json_text, parse_json, parsed, reads_back, rendered};
use crate::text::{byte_len, contains_char, text_len};

verus! {

/// Maximum UTF-8 bytes of a JSON column.
pub const MAX_JSON_BYTES: usize = 16 * 1024 * 1024;

/// A text that is too long for its column or holds a NUL.
pub open spec fn text_broken(value: Option<String>, limit: usize) -> bool {
    value matches Some(text) && (byte_len(text@) > limit || text@.contains('\0'))
}

/// A document whose JSON text is too long for its column.
pub open spec fn json_too_large(value: Option<Value>) -> bool {
    value matches Some(tree) && byte_len(rendered(document(tree))) > MAX_JSON_BYTES
}

/// The column holds the JSON text of the document, from which the document reads back.
pub open spec fn json_written(column: Option<String>, value: Option<Value>) -> bool {
    match (column, value) {
        (Some(text), Some(tree)) => {
            &&& text@ == rendered(document(tree))
            &&& reads_back(document(tree)) ==> parsed(text@) == Some(document(tree))
        },
        (None, None) => true,
        _ => false,
    }
}

/// A document that reads back from its column.
pub open spec fn json_lasting(value: Option<Value>) -> bool {
    value matches Some(tree) ==> reads_back(document(tree))
}

/// Both absent, or both the same document.
pub open spec fn same_json(left: Option<Value>, right: Option<Value>) -> bool {
    match (left, right) {
        (Some(a), Some(b)) => document(a) == document(b),
        (None, None) => true,
        _ => false,
    }
}

/// A column that holds no JSON.
pub open spec fn json_broken(column: Option<String>) -> bool {
    column matches Some(text) && parsed(text@) is None
}

/// The document is the one that the column holds.
pub open spec fn json_held(value: Option<Value>, column: Option<String>) -> bool {
    match (value, column) {
        (Some(tree), Some(text)) => parsed(text@) == Some(document(tree)),
        (None, None) => true,
        _ => false,
    }
}

/// The time of a change: later than the last one, and not before now.
pub open spec fn modified_at(current: i64, now: i64) -> Result<i64, StorageError> {
    if current == i64::MAX {
        Err(StorageError::NumericRange("Community modification timestamp"))
    } else if now > current {
        Ok(now)
    } else {
        Ok((current + 1) as i64)
    }
}

/// Tests whether a text is too long for its column or holds a NUL.
pub fn is_text_broken(value: &Option<String>, limit: usize) -> (result: bool)
    ensures
        result == text_broken(*value, limit),
{
    match value {
        Some(text) => text_len(text.as_str()) > limit || contains_char(text.as_str(), '\0'),
        None => false,
    }
}

/// Writes the JSON text of a document, or fails with `too_large`.
pub fn encode_json(value: &Option<Value>, too_large: StorageError) -> (result: Result<
    Option<String>,
    StorageError,
>)
    ensures
        match result {
            Ok(column) => !json_too_large(*value) && json_written(column, *value),
            Err(error) => json_too_large(*value) && error == too_large,
        },
{
    match value {
        None => Ok(None),
        Some(tree) => match json_text(tree) {
            Some(text) => {
                if text_len(text.as_str()) > MAX_JSON_BYTES {
                    Err(too_large)
                } else {
                    Ok(Some(text))
                }
            },
            None => Err(too_large),
        },
    }
}

/// Reads the document that a column holds, or fails with `broken`.
pub fn decode_json(column: &Option<String>, broken: StorageError) -> (result: Result<
    Option<Value>,
    StorageError,
>)
    ensures
        match result {
            Ok(value) => !json_broken(*column) && json_held(value, *column),
            Err(error) => json_broken(*column) && error == broken,
        },
{
    match column {
        None => Ok(None),
        Some(text) => match parse_json(text.as_str()) {
            Some(value) => Ok(Some(value)),
            None => Err(broken),
        },
    }
}

/// Returns the time of a change.
pub fn next_modified(current: i64, now: i64) -> (result: Result<i64, StorageError>)
    ensures
        result == modified_at(current, now),
{
    match current.checked_add(1) {
        Some(next) => if now > next {
            Ok(now)
        } else {
            Ok(next)
        },
        None => Err(StorageError::NumericRange("Community modification timestamp")),
    }
}

/// Each change is later than the one before.
pub proof fn law_changes_are_ordered(current: i64, now: i64)
    requires
        modified_at(current, now) is Ok,
    ensures
        modified_at(current, now)->Ok_0 > current,
        modified_at(current, now)->Ok_0 >= now,
{
}

/// The time of a change is now, or, where that is not later, one millisecond after the last change.
pub proof fn law_change_is_dated_after_the_last_one(current: i64, now: i64)
    ensures
        modified_at(current, now) is Ok <==> current < i64::MAX,
        now > current ==> modified_at(current, now) == Ok::<i64, StorageError>(now),
        now <= current < i64::MAX ==> modified_at(current, now) == Ok::<i64, StorageError>(
            (current + 1) as i64,
        ),
{
}

} // verus!
