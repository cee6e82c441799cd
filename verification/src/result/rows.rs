use vstd::prelude::*;

use crate::error::StorageError;
use crate::number::{from_sql_u64, to_sql_i64};
use crate::result::frame::{corrupt, corrupted};
use crate::text::same_text;

verus! {

/// The format of result files.
pub const RESULT_FORMAT_VERSION: i64 = 1;

/// Whether a result is still being written.
#[derive(Debug, Clone, Copy, PartialEq, Eq, Structural)]
pub enum ResultState {
    /// Chunks are still being added.
    Writing,
    /// The result is complete.
    Complete,
}

impl ResultState {
    /// The name under which the state is persisted.
    pub open spec fn name(self) -> &'static str {
        match self {
            ResultState::Writing => "writing",
            ResultState::Complete => "complete",
        }
    }

    /// The state persisted under a name.
    pub open spec fn persisted(text: Seq<char>) -> Option<ResultState> {
        if text == ResultState::Writing.name()@ {
            Some(ResultState::Writing)
        } else if text == ResultState::Complete.name()@ {
            Some(ResultState::Complete)
        } else {
            None
        }
    }

    /// Returns the name under which the state is persisted.
    pub fn as_str(self) -> (result: &'static str)
        ensures
            result == self.name(),
    {
        match self {
            ResultState::Writing => "writing",
            ResultState::Complete => "complete",
        }
    }

    /// Reads a persisted name.
    pub fn from_persisted(value: &str) -> (result: Option<ResultState>)
        ensures
            result == ResultState::persisted(value@),
    {
        if same_text(value, "writing") {
            Some(ResultState::Writing)
        } else if same_text(value, "complete") {
            Some(ResultState::Complete)
        } else {
            None
        }
    }
}

/// The row of a result in the index.
#[derive(Debug)]
pub struct StoredResult {
    /// Opaque result id.
    pub id: String,
    /// Format of the result file.
    pub format_version: i64,
    /// Whether the result is complete.
    pub state: ResultState,
    /// Length of the frame that holds the schema.
    pub schema_frame_length: u64,
    /// Digest of the frame that holds the schema.
    pub schema_sha256: Vec<u8>,
    /// Length of the file that the index covers.
    pub committed_length: u64,
    /// Rows in the indexed chunks.
    pub row_count: u64,
    /// Whether the engine observed another row beyond its row limit.
    pub truncated_by_max_rows: bool,
    /// Whether the engine omitted a row beyond its byte budget.
    pub truncated_by_max_result_bytes: bool,
    /// Creation time as Unix epoch milliseconds.
    pub created_at_ms: i64,
    /// Expiry time as Unix epoch milliseconds.
    pub expires_at_ms: i64,
}

/// The row of a chunk in the index.
#[derive(Debug)]
pub struct ChunkIndex {
    /// Position among the chunks of the result.
    pub ordinal: u64,
    /// Where the frame starts in the file.
    pub file_offset: u64,
    /// Length of the frame.
    pub frame_length: u64,
    /// First row of the chunk.
    pub start_row: u64,
    /// Row after the last one of the chunk.
    pub end_row_exclusive: u64,
    /// Rows of the chunk.
    pub row_count: u64,
    /// Digest of the frame.
    pub sha256: Vec<u8>,
}

/// The columns of a result row as the database holds them.
#[derive(Debug, Clone, PartialEq, Eq)]
pub struct RawResult {
    pub id: String,
    pub format_version: i64,
    pub state: String,
    pub schema_frame_length: i64,
    pub schema_sha256: Vec<u8>,
    pub committed_length: i64,
    pub row_count: i64,
    pub truncated_by_max_rows: bool,
    pub truncated_by_max_result_bytes: bool,
    pub created_at_ms: i64,
    pub expires_at_ms: i64,
}

/// The columns of a chunk row as the database holds them.
#[derive(Debug, Clone, PartialEq, Eq)]
pub struct RawChunk {
    pub ordinal: i64,
    pub file_offset: i64,
    pub frame_length: i64,
    pub start_row: i64,
    pub end_row_exclusive: i64,
    pub row_count: i64,
    pub sha256: Vec<u8>,
}

/// Durable completion metadata for one retained query result.
#[derive(Debug, Clone, PartialEq, Eq)]
pub struct ResultMetadata {
    /// Opaque result id.
    pub id: String,
    /// Number of retained rows.
    pub row_count: u64,
    /// Whether the JDBC engine observed another row beyond `max_rows`.
    pub truncated_by_max_rows: bool,
    /// Whether the JDBC engine omitted a row beyond its result-byte budget.
    pub truncated_by_max_result_bytes: bool,
    /// Creation time as Unix epoch milliseconds.
    pub created_at_ms: i64,
    /// Expiry time as Unix epoch milliseconds.
    pub expires_at_ms: i64,
}

/// The statistics with which the engine ends a query.
#[derive(Debug, Clone, Copy, PartialEq, Eq, Structural)]
pub struct QueryCompleted {
    /// Rows that the engine has sent.
    pub row_count: u64,
    /// Whether the engine observed another row beyond its row limit.
    pub truncated_by_max_rows: bool,
    /// Whether the engine omitted a row beyond its byte budget.
    pub truncated_by_max_result_bytes: bool,
}

/// The row of a result, or the first of its columns that is broken.
pub open spec fn result_row(raw: RawResult) -> Result<StoredResult, StorageError> {
    if ResultState::persisted(raw.state@) is None {
        Err(corrupted(raw.id, "invalid result state"))
    } else if raw.schema_frame_length < 0 {
        Err(StorageError::NumericRange("schema frame length"))
    } else if raw.committed_length < 0 {
        Err(StorageError::NumericRange("result committed length"))
    } else if raw.row_count < 0 {
        Err(StorageError::NumericRange("result row count"))
    } else {
        Ok(
            StoredResult {
                id: raw.id,
                format_version: raw.format_version,
                state: ResultState::persisted(raw.state@)->0,
                schema_frame_length: raw.schema_frame_length as u64,
                schema_sha256: raw.schema_sha256,
                committed_length: raw.committed_length as u64,
                row_count: raw.row_count as u64,
                truncated_by_max_rows: raw.truncated_by_max_rows,
                truncated_by_max_result_bytes: raw.truncated_by_max_result_bytes,
                created_at_ms: raw.created_at_ms,
                expires_at_ms: raw.expires_at_ms,
            },
        )
    }
}

/// The row of a chunk, or the first of its columns that is broken.
pub open spec fn chunk_row(raw: RawChunk) -> Result<ChunkIndex, StorageError> {
    if raw.ordinal < 0 {
        Err(StorageError::NumericRange("chunk ordinal"))
    } else if raw.file_offset < 0 {
        Err(StorageError::NumericRange("chunk file offset"))
    } else if raw.frame_length < 0 {
        Err(StorageError::NumericRange("chunk frame length"))
    } else if raw.start_row < 0 {
        Err(StorageError::NumericRange("chunk start row"))
    } else if raw.end_row_exclusive < 0 {
        Err(StorageError::NumericRange("chunk end row"))
    } else if raw.row_count < 0 {
        Err(StorageError::NumericRange("chunk row count"))
    } else {
        Ok(
            ChunkIndex {
                ordinal: raw.ordinal as u64,
                file_offset: raw.file_offset as u64,
                frame_length: raw.frame_length as u64,
                start_row: raw.start_row as u64,
                end_row_exclusive: raw.end_row_exclusive as u64,
                row_count: raw.row_count as u64,
                sha256: raw.sha256,
            },
        )
    }
}

/// The columns of a chunk, or the first of its numbers that the database cannot hold.
pub open spec fn chunk_columns(chunk: ChunkIndex) -> Result<RawChunk, StorageError> {
    if chunk.ordinal > i64::MAX {
        Err(StorageError::NumericRange("chunk ordinal"))
    } else if chunk.file_offset > i64::MAX {
        Err(StorageError::NumericRange("chunk file offset"))
    } else if chunk.frame_length > i64::MAX {
        Err(StorageError::NumericRange("chunk frame length"))
    } else if chunk.start_row > i64::MAX {
        Err(StorageError::NumericRange("chunk start row"))
    } else if chunk.end_row_exclusive > i64::MAX {
        Err(StorageError::NumericRange("chunk end row"))
    } else if chunk.row_count > i64::MAX {
        Err(StorageError::NumericRange("chunk row count"))
    } else {
        Ok(
            RawChunk {
                ordinal: chunk.ordinal as i64,
                file_offset: chunk.file_offset as i64,
                frame_length: chunk.frame_length as i64,
                start_row: chunk.start_row as i64,
                end_row_exclusive: chunk.end_row_exclusive as i64,
                row_count: chunk.row_count as i64,
                sha256: chunk.sha256,
            },
        )
    }
}

/// Reads the row of a result.
pub fn decode_result(raw: RawResult) -> (result: Result<StoredResult, StorageError>)
    ensures
        result == result_row(raw),
{
    let state = match ResultState::from_persisted(raw.state.as_str()) {
        Some(state) => state,
        None => return Err(corrupt(&raw.id, "invalid result state")),
    };
    let schema_frame_length: u64 = from_sql_u64(raw.schema_frame_length, "schema frame length")?;
    let committed_length: u64 = from_sql_u64(raw.committed_length, "result committed length")?;
    let row_count: u64 = from_sql_u64(raw.row_count, "result row count")?;
    Ok(
        StoredResult {
            id: raw.id,
            format_version: raw.format_version,
            state,
            schema_frame_length,
            schema_sha256: raw.schema_sha256,
            committed_length,
            row_count,
            truncated_by_max_rows: raw.truncated_by_max_rows,
            truncated_by_max_result_bytes: raw.truncated_by_max_result_bytes,
            created_at_ms: raw.created_at_ms,
            expires_at_ms: raw.expires_at_ms,
        },
    )
}

/// Reads the row of a chunk.
pub fn decode_chunk(raw: RawChunk) -> (result: Result<ChunkIndex, StorageError>)
    ensures
        result == chunk_row(raw),
{
    let ordinal: u64 = from_sql_u64(raw.ordinal, "chunk ordinal")?;
    let file_offset: u64 = from_sql_u64(raw.file_offset, "chunk file offset")?;
    let frame_length: u64 = from_sql_u64(raw.frame_length, "chunk frame length")?;
    let start_row: u64 = from_sql_u64(raw.start_row, "chunk start row")?;
    let end_row_exclusive: u64 = from_sql_u64(raw.end_row_exclusive, "chunk end row")?;
    let row_count: u64 = from_sql_u64(raw.row_count, "chunk row count")?;
    Ok(
        ChunkIndex {
            ordinal,
            file_offset,
            frame_length,
            start_row,
            end_row_exclusive,
            row_count,
            sha256: raw.sha256,
        },
    )
}

/// Turns a chunk into the columns of its row.
pub fn encode_chunk(chunk: ChunkIndex) -> (result: Result<RawChunk, StorageError>)
    ensures
        result == chunk_columns(chunk),
{
    let ordinal: i64 = to_sql_i64(chunk.ordinal, "chunk ordinal")?;
    let file_offset: i64 = to_sql_i64(chunk.file_offset, "chunk file offset")?;
    let frame_length: i64 = to_sql_i64(chunk.frame_length, "chunk frame length")?;
    let start_row: i64 = to_sql_i64(chunk.start_row, "chunk start row")?;
    let end_row_exclusive: i64 = to_sql_i64(chunk.end_row_exclusive, "chunk end row")?;
    let row_count: i64 = to_sql_i64(chunk.row_count, "chunk row count")?;
    Ok(
        RawChunk {
            ordinal,
            file_offset,
            frame_length,
            start_row,
            end_row_exclusive,
            row_count,
            sha256: chunk.sha256,
        },
    )
}

impl StoredResult {
    /// The completion metadata of the row.
    pub open spec fn completion(self) -> ResultMetadata {
        ResultMetadata {
            id: self.id,
            row_count: self.row_count,
            truncated_by_max_rows: self.truncated_by_max_rows,
            truncated_by_max_result_bytes: self.truncated_by_max_result_bytes,
            created_at_ms: self.created_at_ms,
            expires_at_ms: self.expires_at_ms,
        }
    }

    /// The row belongs to a complete result that has not expired.
    pub open spec fn live(self, timestamp_ms: i64) -> bool {
        self.state == ResultState::Complete && self.expires_at_ms > timestamp_ms
    }

    /// The row shows that a completion took effect.
    pub open spec fn completed_as(self, completed: QueryCompleted, committed_length: u64) -> bool {
        &&& self.state == ResultState::Complete
        &&& self.row_count == completed.row_count
        &&& self.committed_length == committed_length
        &&& self.truncated_by_max_rows == completed.truncated_by_max_rows
        &&& self.truncated_by_max_result_bytes == completed.truncated_by_max_result_bytes
    }

    /// The row shows a result that is still being written, at a known position.
    pub open spec fn writing_at(self, row_count: u64, committed_length: u64) -> bool {
        &&& self.state == ResultState::Writing
        &&& self.row_count == row_count
        &&& self.committed_length == committed_length
    }

    /// Returns the completion metadata of a complete result.
    pub fn metadata(&self) -> (result: Result<ResultMetadata, StorageError>)
        ensures
            result == (if self.state == ResultState::Complete {
                Ok::<ResultMetadata, StorageError>(self.completion())
            } else {
                Err(StorageError::InvalidResult("result is not complete"))
            }),
    {
        if self.state != ResultState::Complete {
            return Err(StorageError::InvalidResult("result is not complete"));
        }
        Ok(
            ResultMetadata {
                id: self.id.clone(),
                row_count: self.row_count,
                truncated_by_max_rows: self.truncated_by_max_rows,
                truncated_by_max_result_bytes: self.truncated_by_max_result_bytes,
                created_at_ms: self.created_at_ms,
                expires_at_ms: self.expires_at_ms,
            },
        )
    }

    /// Tests whether the result is complete and has not expired.
    pub fn is_live(&self, timestamp_ms: i64) -> (result: bool)
        ensures
            result == self.live(timestamp_ms),
    {
        self.state == ResultState::Complete && self.expires_at_ms > timestamp_ms
    }

    /// Tests whether a completion took effect.
    pub fn matches_completion(&self, completed: &QueryCompleted, committed_length: u64) -> (result:
        bool)
        ensures
            result == self.completed_as(*completed, committed_length),
    {
        self.state == ResultState::Complete && self.row_count == completed.row_count
            && self.committed_length == committed_length && self.truncated_by_max_rows
            == completed.truncated_by_max_rows && self.truncated_by_max_result_bytes
            == completed.truncated_by_max_result_bytes
    }

    /// Tests whether the result is still being written, at a known position.
    pub fn matches_writing(&self, row_count: u64, committed_length: u64) -> (result: bool)
        ensures
            result == self.writing_at(row_count, committed_length),
    {
        self.state == ResultState::Writing && self.row_count == row_count && self.committed_length
            == committed_length
    }
}

/// A persisted state reads back as the state it was written for.
pub proof fn law_result_state_round_trip(state: ResultState)
    ensures
        ResultState::persisted(state.name()@) == Some(state),
{
    reveal_strlit("writing");
    reveal_strlit("complete");
    assert("writing"@.len() == 7);
    assert("complete"@.len() == 8);
}

/// A chunk that the database can hold reads back as it was written.
pub proof fn law_chunk_round_trip(chunk: ChunkIndex)
    requires
        chunk_columns(chunk) is Ok,
    ensures
        chunk_row(chunk_columns(chunk)->Ok_0) == Ok::<ChunkIndex, StorageError>(chunk),
{
}

} // verus!
