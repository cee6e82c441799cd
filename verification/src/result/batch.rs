use vstd::prelude::*;

use crate::error::StorageError;
use crate::result::frame::{corrupt, corrupted};
use crate::result::rows::ChunkIndex;

verus! {

/// Maximum encoded bytes of one row batch.
pub const MAX_BATCH_BYTES: usize = 8 * 1024 * 1024;

/// Limits of the engine protocol.
#[derive(Debug, Clone, Copy, PartialEq, Eq, Structural)]
pub struct ProtocolLimits {
    /// Maximum rows of one batch.
    pub max_batch_rows: usize,
    /// Maximum columns of one schema.
    pub max_columns: usize,
    /// Maximum encoded bytes of one message.
    pub max_frame_bytes: usize,
}

/// The schema message of a query.
#[derive(Debug, Clone, PartialEq, Eq)]
pub struct QueryStarted {
    /// Number of columns.
    pub columns: usize,
    /// The encoded message.
    pub payload: Vec<u8>,
}

/// One row of a query.
#[derive(Debug, Clone, PartialEq, Eq)]
pub struct JdbcRow {
    /// Number of values.
    pub width: usize,
    /// The encoded row.
    pub encoded: Vec<u8>,
}

/// A run of consecutive rows of a query.
#[derive(Debug, Clone, PartialEq, Eq)]
pub struct RowBatch {
    /// Zero-based position of the first row.
    pub start_row_offset: u64,
    /// The rows in order.
    pub rows: Vec<JdbcRow>,
    /// The encoded message.
    pub payload: Vec<u8>,
}

/// Every row has as many values as the schema has columns.
pub open spec fn rows_have_width(rows: Seq<JdbcRow>, columns: usize) -> bool {
    forall|i: int| 0 <= i < rows.len() ==> (#[trigger] rows[i]).width == columns
}

/// The rules of a schema.
pub open spec fn schema_check(schema: QueryStarted, limits: ProtocolLimits) -> Result<
    (),
    StorageError,
> {
    if schema.columns > limits.max_columns {
        Err(StorageError::InvalidResult("query schema exceeds the protocol column limit"))
    } else {
        Ok(())
    }
}

/// The rules of a batch that continues a result.
pub open spec fn batch_check(
    batch: RowBatch,
    expected_start: u64,
    columns: usize,
    limits: ProtocolLimits,
) -> Result<(), StorageError> {
    if batch.start_row_offset != expected_start {
        Err(StorageError::InvalidResult("row batch is not contiguous with prior chunks"))
    } else if batch.rows@.len() == 0 || batch.rows@.len() > limits.max_batch_rows {
        Err(StorageError::InvalidResult("row batch count is outside protocol limits"))
    } else if batch.payload@.len() > MAX_BATCH_BYTES {
        Err(StorageError::InvalidResult("row batch exceeds the protocol byte limit"))
    } else if !rows_have_width(batch.rows@, columns) {
        Err(StorageError::InvalidResult("row width does not match query schema"))
    } else {
        Ok(())
    }
}

/// The rules of a batch that was read back from its chunk.
pub open spec fn indexed_batch_check(
    batch: RowBatch,
    chunk: ChunkIndex,
    columns: usize,
    limits: ProtocolLimits,
    id: String,
) -> Result<(), StorageError> {
    if batch.start_row_offset != chunk.start_row || batch.rows@.len() != chunk.row_count
        || chunk.end_row_exclusive - chunk.start_row != chunk.row_count {
        Err(corrupted(id, "row batch does not match its chunk index"))
    } else if batch_check(batch, chunk.start_row, columns, limits) is Err {
        Err(corrupted(id, "indexed row batch violates protocol limits"))
    } else {
        Ok(())
    }
}

/// Checks a schema.
pub fn validate_schema(schema: &QueryStarted, limits: &ProtocolLimits) -> (result: Result<
    (),
    StorageError,
>)
    ensures
        result == schema_check(*schema, *limits),
{
    if schema.columns > limits.max_columns {
        return Err(StorageError::InvalidResult("query schema exceeds the protocol column limit"));
    }
    Ok(())
}

/// Checks a batch that continues a result.
pub fn validate_batch(
    batch: &RowBatch,
    expected_start: u64,
    columns: usize,
    limits: &ProtocolLimits,
) -> (result: Result<(), StorageError>)
    ensures
        result == batch_check(*batch, expected_start, columns, *limits),
{
    if batch.start_row_offset != expected_start {
        return Err(StorageError::InvalidResult("row batch is not contiguous with prior chunks"));
    }
    if batch.rows.len() == 0 || batch.rows.len() > limits.max_batch_rows {
        return Err(StorageError::InvalidResult("row batch count is outside protocol limits"));
    }
    if batch.payload.len() > MAX_BATCH_BYTES {
        return Err(StorageError::InvalidResult("row batch exceeds the protocol byte limit"));
    }
    let mut i: usize = 0;
    while i < batch.rows.len()
        invariant
            i <= batch.rows@.len(),
            batch.start_row_offset == expected_start,
            0 < batch.rows@.len() <= limits.max_batch_rows,
            batch.payload@.len() <= MAX_BATCH_BYTES,
            forall|j: int| 0 <= j < i ==> (#[trigger] batch.rows@[j]).width == columns,
        decreases batch.rows@.len() - i,
    {
        if batch.rows[i].width != columns {
            assert(batch.rows@[i as int].width != columns);
            return Err(StorageError::InvalidResult("row width does not match query schema"));
        }
        i = i + 1;
    }
    Ok(())
}

/// Checks a batch that was read back from its chunk.
pub fn validate_indexed_batch(
    batch: &RowBatch,
    chunk: &ChunkIndex,
    columns: usize,
    limits: &ProtocolLimits,
    id: &String,
) -> (result: Result<(), StorageError>)
    ensures
        result == indexed_batch_check(*batch, *chunk, columns, *limits, *id),
{
    if batch.start_row_offset != chunk.start_row || batch.rows.len() as u64 != chunk.row_count
        || chunk.end_row_exclusive < chunk.start_row || chunk.end_row_exclusive - chunk.start_row
        != chunk.row_count {
        return Err(corrupt(id, "row batch does not match its chunk index"));
    }
    match validate_batch(batch, chunk.start_row, columns, limits) {
        Ok(()) => Ok(()),
        Err(_) => Err(corrupt(id, "indexed row batch violates protocol limits")),
    }
}

} // verus!
