use std::time::Duration;

use vstd::prelude::*;

use crate::clock::{end_of_retention, retention_end};
use crate::commit::{CommitOutcome, Readback};
use crate::digest::{same_bytes, sha256, sha256_digest};
use crate::error::StorageError;
use crate::identity::uuid_text;
use crate::number::{fits_sql, to_sql_i64};
use crate::result::batch::{
    batch_check, schema_check, validate_batch, validate_schema, ProtocolLimits, QueryStarted,
    RowBatch, MAX_BATCH_BYTES,
};
use crate::result::frame::{encode_frame, framed, payload_check};
use crate::result::naming::{named, result_file_name};
use crate::result::quota::{quota_check, FileEntry, IndexedBytes};
use crate::result::rows::{
    ChunkIndex, QueryCompleted, RawChunk, ResultMetadata, ResultState, StoredResult,
    RESULT_FORMAT_VERSION,
};
use crate::storage::Storage;

verus! {

/// A result that is about to be written: the row of the index, and the frame with which its file
/// starts.
pub struct NewResult {
    /// Row of the index.
    pub row: StoredResult,
    /// Name of the file.
    pub file_name: String,
    /// First frame of the file.
    pub frame: Vec<u8>,
    /// Columns of the schema.
    pub columns: usize,
}

/// A chunk whose frame is to be written at the end of the indexed file, and then indexed.
pub struct StagedChunk {
    /// Row of the index.
    pub chunk: ChunkIndex,
    /// The frame.
    pub frame: Vec<u8>,
    /// Length of the file that the index covers afterwards.
    pub committed_length: u64,
}

/// What became of a staged chunk.
pub enum ChunkCommit {
    /// Its commit reported success.
    Committed,
    /// Its commit reported a failure, and the index cannot be read.
    Unreadable,
    /// Its commit reported a failure, and the index holds this.
    Seen {
        /// Row of the result.
        result: Option<StoredResult>,
        /// Row of the chunk.
        chunk: Option<ChunkIndex>,
    },
}

/// What the index shows of a chunk whose commit reported a failure.
#[derive(Debug, Clone, Copy, PartialEq, Eq, Structural)]
pub enum CommitState {
    /// The commit took effect.
    Applied,
    /// The commit had no effect.
    NotApplied,
    /// Neither.
    Diverged,
}

/// What became of a completion.
pub enum CompletionCommit {
    /// Its commit reported success.
    Committed,
    /// Its commit reported a failure, and the row of the result shows this.
    Failed(Readback<StoredResult>),
}

/// What a chunk adds to the row of its result.
#[derive(Debug, Clone, Copy, PartialEq, Eq, Structural)]
pub struct ResultAdvance {
    /// Length of the file that the index covers.
    pub committed_length: i64,
    /// Rows of the result.
    pub row_count: i64,
}

/// A writer between two operations.
pub struct WriterState {
    /// Opaque result id.
    pub id: String,
    /// Columns of the schema.
    pub columns: usize,
    /// Length of the file that the index covers.
    pub committed_length: u64,
    /// Rows written so far.
    pub next_row: u64,
    /// Chunks written so far.
    pub next_ordinal: u64,
    /// Creation time as Unix epoch milliseconds.
    pub created_at_ms: i64,
    /// Expiry time as Unix epoch milliseconds.
    pub expires_at_ms: i64,
    /// A chunk that has been staged and not settled.
    pub staged: Option<StagedChunk>,
    /// Whether an operation has failed.
    pub poisoned: bool,
}

/// Poison-on-failure writer for one retained result.
pub struct ResultWriter {
    id: String,
    schema_columns: usize,
    committed_length: u64,
    next_row: u64,
    next_ordinal: u64,
    created_at_ms: i64,
    expires_at_ms: i64,
    staged: Option<StagedChunk>,
    poisoned: bool,
}

impl View for ResultWriter {
    type V = WriterState;

    closed spec fn view(&self) -> WriterState {
        WriterState {
            id: self.id,
            columns: self.schema_columns,
            committed_length: self.committed_length,
            next_row: self.next_row,
            next_ordinal: self.next_ordinal,
            created_at_ms: self.created_at_ms,
            expires_at_ms: self.expires_at_ms,
            staged: self.staged,
            poisoned: self.poisoned,
        }
    }
}

/// The failure of a writer that takes no more.
pub open spec fn writer_poisoned() -> StorageError {
    StorageError::InvalidResult("result writer is poisoned")
}

/// What a new result has to meet.
pub open spec fn begin_check(
    quota: u64,
    id: String,
    schema: QueryStarted,
    limits: ProtocolLimits,
    created_at_ms: i64,
    expires_at_ms: i64,
    index: Seq<IndexedBytes>,
    files: Seq<FileEntry>,
) -> Result<(), StorageError> {
    if expires_at_ms <= created_at_ms {
        Err(StorageError::InvalidResult("result expiry must be after creation"))
    } else if schema_check(schema, limits) is Err {
        schema_check(schema, limits)
    } else if payload_check(schema.payload@.len(), limits.max_frame_bytes) is Err {
        payload_check(schema.payload@.len(), limits.max_frame_bytes)
    } else if uuid_text(id@) is None {
        Err(StorageError::InvalidResult("result id is invalid"))
    } else {
        quota_check(quota, framed(schema.payload@).len() as u64, index, files)
    }
}

/// A new result holds its schema in the first frame and no rows.
pub open spec fn begins(
    new: NewResult,
    id: String,
    schema: QueryStarted,
    created_at_ms: i64,
    expires_at_ms: i64,
) -> bool {
    &&& new.row.id == id
    &&& new.row.format_version == RESULT_FORMAT_VERSION
    &&& new.row.state == ResultState::Writing
    &&& new.row.schema_frame_length == framed(schema.payload@).len()
    &&& new.row.schema_sha256@ == sha256_digest(framed(schema.payload@))
    &&& new.row.schema_sha256@.len() == 32
    &&& new.row.committed_length == framed(schema.payload@).len()
    &&& new.row.row_count == 0
    &&& !new.row.truncated_by_max_rows
    &&& !new.row.truncated_by_max_result_bytes
    &&& new.row.created_at_ms == created_at_ms
    &&& new.row.expires_at_ms == expires_at_ms
    &&& new.file_name@ == named(uuid_text(id@)->0)
    &&& new.frame@ == framed(schema.payload@)
    &&& new.columns == schema.columns
}

/// What a batch has to meet to be staged.
pub open spec fn stage_check(
    writer: WriterState,
    quota: u64,
    batch: RowBatch,
    limits: ProtocolLimits,
    index: Seq<IndexedBytes>,
    files: Seq<FileEntry>,
) -> Result<(), StorageError> {
    let frame_length = framed(batch.payload@).len();
    if writer.poisoned || writer.staged is Some {
        Err(writer_poisoned())
    } else if batch_check(batch, writer.next_row, writer.columns, limits) is Err {
        batch_check(batch, writer.next_row, writer.columns, limits)
    } else if payload_check(batch.payload@.len(), MAX_BATCH_BYTES) is Err {
        payload_check(batch.payload@.len(), MAX_BATCH_BYTES)
    } else if writer.committed_length + frame_length > u64::MAX {
        Err(StorageError::NumericRange("result file length"))
    } else if writer.next_row + batch.rows@.len() > u64::MAX {
        Err(StorageError::NumericRange("result row count"))
    } else {
        quota_check(quota, frame_length as u64, index, files)
    }
}

/// The chunk is the batch, framed, at the end of what has been written.
pub open spec fn stages(staged: StagedChunk, writer: WriterState, batch: RowBatch) -> bool {
    &&& staged.frame@ == framed(batch.payload@)
    &&& staged.chunk.ordinal == writer.next_ordinal
    &&& staged.chunk.file_offset == writer.committed_length
    &&& staged.chunk.frame_length == framed(batch.payload@).len()
    &&& staged.chunk.start_row == writer.next_row
    &&& staged.chunk.end_row_exclusive == writer.next_row + batch.rows@.len()
    &&& staged.chunk.row_count == batch.rows@.len()
    &&& staged.chunk.sha256@ == sha256_digest(framed(batch.payload@))
    &&& staged.chunk.sha256@.len() == 32
    &&& staged.committed_length == writer.committed_length + framed(batch.payload@).len()
}

/// What the index shows of a chunk.
pub open spec fn chunk_commit_state(
    staged: StagedChunk,
    result: Option<StoredResult>,
    chunk: Option<ChunkIndex>,
) -> CommitState {
    match (result, chunk) {
        (Some(row), Some(seen)) => if row.writing_at(
            staged.chunk.end_row_exclusive,
            staged.committed_length,
        ) && seen.file_offset == staged.chunk.file_offset && seen.frame_length
            == staged.chunk.frame_length && seen.start_row == staged.chunk.start_row
            && seen.end_row_exclusive == staged.chunk.end_row_exclusive && seen.sha256@
            == staged.chunk.sha256@ {
            CommitState::Applied
        } else {
            CommitState::Diverged
        },
        (Some(row), None) => if row.writing_at(staged.chunk.start_row, staged.chunk.file_offset) {
            CommitState::NotApplied
        } else {
            CommitState::Diverged
        },
        _ => CommitState::Diverged,
    }
}

/// What became of the commit of a staged chunk.
pub open spec fn commit_state(staged: StagedChunk, commit: ChunkCommit) -> CommitState {
    match commit {
        ChunkCommit::Committed => CommitState::Applied,
        ChunkCommit::Unreadable => CommitState::Diverged,
        ChunkCommit::Seen { result, chunk } => chunk_commit_state(staged, result, chunk),
    }
}

/// How a staged chunk ends: `Ok(true)` if it is written, `Ok(false)` if its commit had no effect
/// and the operation ends with the failure that was reported.
pub open spec fn chunk_settled(writer: WriterState, commit: ChunkCommit) -> Result<
    bool,
    StorageError,
> {
    match writer.staged {
        None => Err(writer_poisoned()),
        Some(staged) => match commit_state(staged, commit) {
            CommitState::Applied => if writer.next_ordinal == u64::MAX {
                Err(StorageError::NumericRange("result chunk ordinal"))
            } else {
                Ok(true)
            },
            CommitState::NotApplied => Ok(false),
            CommitState::Diverged => Err(
                StorageError::OutcomeUnknown { operation: "append result chunk", id: writer.id },
            ),
        },
    }
}

/// A writer after a chunk has been written.
pub open spec fn advanced(writer: WriterState, staged: StagedChunk) -> WriterState {
    WriterState {
        committed_length: staged.committed_length,
        next_row: staged.chunk.end_row_exclusive,
        next_ordinal: (writer.next_ordinal + 1) as u64,
        staged: None,
        ..writer
    }
}

/// A writer that has stopped with a staged chunk. The chunk counts only if it was written, which
/// the writer then could not go on from, because the ordinals had run out.
pub open spec fn halted(writer: WriterState, commit: ChunkCommit) -> WriterState {
    match writer.staged {
        Some(staged) if commit_state(staged, commit) is Applied => WriterState {
            committed_length: staged.committed_length,
            next_row: staged.chunk.end_row_exclusive,
            staged: None,
            poisoned: true,
            ..writer
        },
        _ => WriterState { staged: None, poisoned: true, ..writer },
    }
}

/// The row of the index that a chunk may be added to.
pub open spec fn chunk_owned(current: Option<StoredResult>, chunk: ChunkIndex) -> bool {
    current matches Some(row) && row.writing_at(chunk.start_row, chunk.file_offset)
}

/// What the database has to hold for a chunk to be indexed.
pub open spec fn chunk_commit_check(current: Option<StoredResult>, staged: StagedChunk) -> Result<
    (),
    StorageError,
> {
    let chunk = staged.chunk;
    if !fits_sql(chunk.ordinal) {
        Err(StorageError::NumericRange("chunk ordinal"))
    } else if !fits_sql(chunk.file_offset) {
        Err(StorageError::NumericRange("chunk file offset"))
    } else if !fits_sql(chunk.frame_length) {
        Err(StorageError::NumericRange("chunk frame length"))
    } else if !fits_sql(chunk.start_row) {
        Err(StorageError::NumericRange("chunk start row"))
    } else if !fits_sql(chunk.end_row_exclusive) {
        Err(StorageError::NumericRange("chunk end row"))
    } else if !fits_sql(chunk.row_count) {
        Err(StorageError::NumericRange("chunk row count"))
    } else if !fits_sql(staged.committed_length) {
        Err(StorageError::NumericRange("result committed length"))
    } else if !chunk_owned(current, chunk) {
        Err(StorageError::InvalidResult("result writer no longer owns the writing index"))
    } else {
        Ok(())
    }
}

/// The columns hold the chunk.
pub open spec fn holds_chunk(columns: RawChunk, chunk: ChunkIndex) -> bool {
    &&& columns.ordinal == chunk.ordinal
    &&& columns.file_offset == chunk.file_offset
    &&& columns.frame_length == chunk.frame_length
    &&& columns.start_row == chunk.start_row
    &&& columns.end_row_exclusive == chunk.end_row_exclusive
    &&& columns.row_count == chunk.row_count
    &&& columns.sha256@ == chunk.sha256@
}

/// What a completion has to meet.
pub open spec fn completion_check(writer: WriterState, completed: QueryCompleted) -> Result<
    (),
    StorageError,
> {
    if writer.poisoned || writer.staged is Some {
        Err(writer_poisoned())
    } else if completed.row_count != writer.next_row {
        Err(
            StorageError::InvalidResult("completion row count does not match indexed chunks"),
        )
    } else {
        Ok(())
    }
}

/// What the database has to hold for a result to be completed.
pub open spec fn completion_commit_check(
    current: Option<StoredResult>,
    completed: QueryCompleted,
    committed_length: u64,
) -> Result<(), StorageError> {
    if !fits_sql(completed.row_count) {
        Err(StorageError::NumericRange("completion row count"))
    } else if !fits_sql(committed_length) {
        Err(StorageError::NumericRange("completion committed length"))
    } else if !(current matches Some(row) && row.writing_at(completed.row_count, committed_length)) {
        Err(StorageError::InvalidResult("result completion no longer owns the writing index"))
    } else {
        Ok(())
    }
}

/// The metadata of a result that its writer has completed.
pub open spec fn written_metadata(writer: WriterState, completed: QueryCompleted) -> ResultMetadata {
    ResultMetadata {
        id: writer.id,
        row_count: completed.row_count,
        truncated_by_max_rows: completed.truncated_by_max_rows,
        truncated_by_max_result_bytes: completed.truncated_by_max_result_bytes,
        created_at_ms: writer.created_at_ms,
        expires_at_ms: writer.expires_at_ms,
    }
}

/// How a completion ends.
pub open spec fn completion_settled(
    writer: WriterState,
    completed: QueryCompleted,
    commit: CompletionCommit,
) -> CommitOutcome<ResultMetadata> {
    match commit {
        CompletionCommit::Committed => CommitOutcome::Applied(written_metadata(writer, completed)),
        CompletionCommit::Failed(Readback::Found(None)) => CommitOutcome::NotApplied,
        CompletionCommit::Failed(Readback::Found(Some(row))) => if row.completed_as(
            completed,
            writer.committed_length,
        ) {
            CommitOutcome::Applied(row.completion())
        } else if row.writing_at(writer.next_row, writer.committed_length) {
            CommitOutcome::NotApplied
        } else {
            CommitOutcome::Unknown(
                StorageError::OutcomeUnknown {
                    operation: "complete retained result",
                    id: writer.id,
                },
            )
        },
        CompletionCommit::Failed(Readback::Unreadable) => CommitOutcome::Unknown(
            StorageError::OutcomeUnknown { operation: "complete retained result", id: writer.id },
        ),
    }
}

/// How the beginning of a result ends whose commit reported a failure.
pub open spec fn begin_settled(new: NewResult, seen: Readback<StoredResult>) -> CommitOutcome<()> {
    let unknown = CommitOutcome::Unknown(
        StorageError::OutcomeUnknown { operation: "begin retained result", id: new.row.id },
    );
    match seen {
        Readback::Unreadable => unknown,
        Readback::Found(None) => CommitOutcome::NotApplied,
        Readback::Found(Some(row)) => if row.state == ResultState::Writing && row.committed_length
            == new.row.committed_length && row.schema_sha256@ == new.row.schema_sha256@ {
            CommitOutcome::Applied(())
        } else {
            unknown
        },
    }
}

impl Storage {
    /// Starts a result with a retention that begins at its creation.
    pub fn begin_result(
        &self,
        id: String,
        schema: &QueryStarted,
        limits: &ProtocolLimits,
        retention: &Duration,
        created_at_ms: i64,
        index: Vec<IndexedBytes>,
        files: &Vec<FileEntry>,
    ) -> (result: Result<NewResult, StorageError>)
        ensures
            ({
                let expiry = retention_end(
                    *retention,
                    created_at_ms,
                    StorageError::InvalidResult("result retention must be greater than zero"),
                    "result retention",
                    "result expiry",
                );
                match expiry {
                    Err(error) => result == Err::<NewResult, StorageError>(error),
                    Ok(expires_at_ms) => {
                        let check = begin_check(
                            self.max_retained_bytes,
                            id,
                            *schema,
                            *limits,
                            created_at_ms,
                            expires_at_ms,
                            index@,
                            files@,
                        );
                        match result {
                            Ok(new) => check is Ok && begins(
                                new,
                                id,
                                *schema,
                                created_at_ms,
                                expires_at_ms,
                            ),
                            Err(error) => check == Err::<(), StorageError>(error),
                        }
                    },
                }
            }),
    {
        let expires_at_ms: i64 = end_of_retention(
            retention,
            created_at_ms,
            StorageError::InvalidResult("result retention must be greater than zero"),
            "result retention",
            "result expiry",
        )?;
        self.begin_result_at(id, schema, limits, created_at_ms, expires_at_ms, index, files)
    }

    /// Starts a result that is retained until the given time.
    pub fn begin_result_at(
        &self,
        id: String,
        schema: &QueryStarted,
        limits: &ProtocolLimits,
        created_at_ms: i64,
        expires_at_ms: i64,
        index: Vec<IndexedBytes>,
        files: &Vec<FileEntry>,
    ) -> (result: Result<NewResult, StorageError>)
        ensures
            ({
                let check = begin_check(
                    self.max_retained_bytes,
                    id,
                    *schema,
                    *limits,
                    created_at_ms,
                    expires_at_ms,
                    index@,
                    files@,
                );
                match result {
                    Ok(new) => check is Ok && begins(
                        new,
                        id,
                        *schema,
                        created_at_ms,
                        expires_at_ms,
                    ),
                    Err(error) => check == Err::<(), StorageError>(error),
                }
            }),
    {
        if expires_at_ms <= created_at_ms {
            return Err(StorageError::InvalidResult("result expiry must be after creation"));
        }
        validate_schema(schema, limits)?;
        let frame = encode_frame(&schema.payload, limits.max_frame_bytes)?;
        let frame_length: u64 = frame.len() as u64;
        let file_name = result_file_name(id.as_str())?;
        self.check_result_quota(frame_length, index, files)?;
        let schema_sha256 = sha256(frame.as_slice());
        Ok(
            NewResult {
                row: StoredResult {
                    id,
                    format_version: RESULT_FORMAT_VERSION,
                    state: ResultState::Writing,
                    schema_frame_length: frame_length,
                    schema_sha256,
                    committed_length: frame_length,
                    row_count: 0,
                    truncated_by_max_rows: false,
                    truncated_by_max_result_bytes: false,
                    created_at_ms,
                    expires_at_ms,
                },
                file_name,
                frame,
                columns: schema.columns,
            },
        )
    }

    /// Settles the beginning of a result whose commit reported a failure.
    pub fn reconcile_result_begin(new: &NewResult, seen: &Readback<StoredResult>) -> (result:
        CommitOutcome<()>)
        ensures
            result == begin_settled(*new, *seen),
    {
        match seen {
            Readback::Found(None) => CommitOutcome::NotApplied,
            Readback::Found(Some(row)) if row.state == ResultState::Writing && row.committed_length
                == new.row.committed_length && same_bytes(
                row.schema_sha256.as_slice(),
                new.row.schema_sha256.as_slice(),
            ) => CommitOutcome::Applied(()),
            _ => CommitOutcome::Unknown(
                StorageError::OutcomeUnknown {
                    operation: "begin retained result",
                    id: new.row.id.clone(),
                },
            ),
        }
    }

    /// Decides whether a chunk may be indexed, given the row of its result, and turns it into the
    /// columns of its row and what changes in the row of the result.
    pub fn commit_chunk(current: &Option<StoredResult>, staged: &StagedChunk) -> (result: Result<
        (RawChunk, ResultAdvance),
        StorageError,
    >)
        ensures
            match result {
                Ok((columns, advance)) => {
                    &&& chunk_commit_check(*current, *staged) is Ok
                    &&& holds_chunk(columns, staged.chunk)
                    &&& advance.committed_length == staged.committed_length
                    &&& advance.row_count == staged.chunk.end_row_exclusive
                },
                Err(error) => chunk_commit_check(*current, *staged) == Err::<(), StorageError>(
                    error,
                ),
            },
    {
        let chunk = &staged.chunk;
        let ordinal: i64 = to_sql_i64(chunk.ordinal, "chunk ordinal")?;
        let file_offset: i64 = to_sql_i64(chunk.file_offset, "chunk file offset")?;
        let frame_length: i64 = to_sql_i64(chunk.frame_length, "chunk frame length")?;
        let start_row: i64 = to_sql_i64(chunk.start_row, "chunk start row")?;
        let end_row_exclusive: i64 = to_sql_i64(chunk.end_row_exclusive, "chunk end row")?;
        let row_count: i64 = to_sql_i64(chunk.row_count, "chunk row count")?;
        let committed_length: i64 = to_sql_i64(staged.committed_length, "result committed length")?;
        let owned = match current {
            Some(row) => row.matches_writing(chunk.start_row, chunk.file_offset),
            None => false,
        };
        if !owned {
            return Err(
                StorageError::InvalidResult("result writer no longer owns the writing index"),
            );
        }
        let mut sha256: Vec<u8> = Vec::new();
        sha256.extend_from_slice(chunk.sha256.as_slice());
        assert(sha256@ =~= chunk.sha256@);
        Ok(
            (
                RawChunk {
                    ordinal,
                    file_offset,
                    frame_length,
                    start_row,
                    end_row_exclusive,
                    row_count,
                    sha256,
                },
                ResultAdvance { committed_length, row_count: end_row_exclusive },
            ),
        )
    }

    /// Tells what the index shows of a chunk whose commit reported a failure.
    pub fn verify_chunk_commit(
        staged: &StagedChunk,
        result: &Option<StoredResult>,
        chunk: &Option<ChunkIndex>,
    ) -> (state: CommitState)
        ensures
            state == chunk_commit_state(*staged, *result, *chunk),
    {
        match (result, chunk) {
            (Some(row), Some(seen)) => if row.matches_writing(
                staged.chunk.end_row_exclusive,
                staged.committed_length,
            ) && seen.file_offset == staged.chunk.file_offset && seen.frame_length
                == staged.chunk.frame_length && seen.start_row == staged.chunk.start_row
                && seen.end_row_exclusive == staged.chunk.end_row_exclusive && same_bytes(
                seen.sha256.as_slice(),
                staged.chunk.sha256.as_slice(),
            ) {
                CommitState::Applied
            } else {
                CommitState::Diverged
            },
            (Some(row), None) => if row.matches_writing(
                staged.chunk.start_row,
                staged.chunk.file_offset,
            ) {
                CommitState::NotApplied
            } else {
                CommitState::Diverged
            },
            _ => CommitState::Diverged,
        }
    }

    /// Decides whether a result may be completed, given its row, and returns the row count and the
    /// length by which the row is found.
    pub fn commit_completion(
        current: &Option<StoredResult>,
        completed: &QueryCompleted,
        committed_length: u64,
    ) -> (result: Result<ResultAdvance, StorageError>)
        ensures
            match result {
                Ok(found) => {
                    &&& completion_commit_check(*current, *completed, committed_length) is Ok
                    &&& found.committed_length == committed_length
                    &&& found.row_count == completed.row_count
                },
                Err(error) => completion_commit_check(*current, *completed, committed_length)
                    == Err::<(), StorageError>(error),
            },
    {
        let row_count: i64 = to_sql_i64(completed.row_count, "completion row count")?;
        let length: i64 = to_sql_i64(committed_length, "completion committed length")?;
        let owned = match current {
            Some(row) => row.matches_writing(completed.row_count, committed_length),
            None => false,
        };
        if !owned {
            return Err(
                StorageError::InvalidResult("result completion no longer owns the writing index"),
            );
        }
        Ok(ResultAdvance { committed_length: length, row_count })
    }
}

impl NewResult {
    /// Returns the writer of a result whose beginning has been committed.
    pub fn into_writer(self) -> (writer: ResultWriter)
        ensures
            writer@ == (WriterState {
                id: self.row.id,
                columns: self.columns,
                committed_length: self.row.committed_length,
                next_row: 0,
                next_ordinal: 0,
                created_at_ms: self.row.created_at_ms,
                expires_at_ms: self.row.expires_at_ms,
                staged: None,
                poisoned: false,
            }),
    {
        ResultWriter {
            id: self.row.id,
            schema_columns: self.columns,
            committed_length: self.row.committed_length,
            next_row: 0,
            next_ordinal: 0,
            created_at_ms: self.row.created_at_ms,
            expires_at_ms: self.row.expires_at_ms,
            staged: None,
            poisoned: false,
        }
    }
}

impl ResultWriter {
    /// Returns the opaque id of the result.
    pub fn id(&self) -> (result: &str)
        ensures
            result@ == self@.id@,
    {
        self.id.as_str()
    }

    /// Returns the length of the file that the index covers.
    pub fn committed_length(&self) -> (result: u64)
        ensures
            result == self@.committed_length,
    {
        self.committed_length
    }

    /// Returns the staged chunk, whose frame has to be written and indexed.
    pub fn staged(&self) -> (result: Option<&StagedChunk>)
        ensures
            match result {
                Some(staged) => self@.staged == Some(*staged),
                None => self@.staged is None,
            },
    {
        self.staged.as_ref()
    }

    /// Stages one contiguous row batch. A failure poisons the writer, and so does a staged chunk
    /// until it is settled.
    pub fn append_batch(
        &mut self,
        storage: &Storage,
        batch: &RowBatch,
        limits: &ProtocolLimits,
        index: Vec<IndexedBytes>,
        files: &Vec<FileEntry>,
    ) -> (result: Result<(), StorageError>)
        ensures
            ({
                let check = stage_check(
                    old(self)@,
                    storage.max_retained_bytes,
                    *batch,
                    *limits,
                    index@,
                    files@,
                );
                match check {
                    Err(error) => {
                        &&& result == Err::<(), StorageError>(error)
                        &&& final(self)@ == (WriterState { poisoned: true, ..old(self)@ })
                    },
                    Ok(_) => {
                        &&& result is Ok
                        &&& final(self)@.staged is Some
                        &&& stages(final(self)@.staged->0, old(self)@, *batch)
                        &&& final(self)@ == (WriterState {
                            staged: final(self)@.staged,
                            ..old(self)@
                        })
                    },
                }
            }),
    {
        match self.stage(storage, batch, limits, index, files) {
            Ok(staged) => {
                self.staged = Some(staged);
                Ok(())
            },
            Err(error) => {
                self.poisoned = true;
                Err(error)
            },
        }
    }

    fn stage(
        &self,
        storage: &Storage,
        batch: &RowBatch,
        limits: &ProtocolLimits,
        index: Vec<IndexedBytes>,
        files: &Vec<FileEntry>,
    ) -> (result: Result<StagedChunk, StorageError>)
        ensures
            ({
                let check = stage_check(
                    self@,
                    storage.max_retained_bytes,
                    *batch,
                    *limits,
                    index@,
                    files@,
                );
                match result {
                    Ok(staged) => check is Ok && stages(staged, self@, *batch),
                    Err(error) => check == Err::<(), StorageError>(error),
                }
            }),
    {
        if self.poisoned || self.staged.is_some() {
            return Err(StorageError::InvalidResult("result writer is poisoned"));
        }
        validate_batch(batch, self.next_row, self.schema_columns, limits)?;
        let frame = encode_frame(&batch.payload, MAX_BATCH_BYTES)?;
        let frame_length: u64 = frame.len() as u64;
        let committed_length: u64 = match self.committed_length.checked_add(frame_length) {
            Some(committed_length) => committed_length,
            None => return Err(StorageError::NumericRange("result file length")),
        };
        let row_count: u64 = batch.rows.len() as u64;
        let next_row: u64 = match self.next_row.checked_add(row_count) {
            Some(next_row) => next_row,
            None => return Err(StorageError::NumericRange("result row count")),
        };
        storage.check_result_quota(frame_length, index, files)?;
        let hash = sha256(frame.as_slice());
        Ok(
            StagedChunk {
                chunk: ChunkIndex {
                    ordinal: self.next_ordinal,
                    file_offset: self.committed_length,
                    frame_length,
                    start_row: self.next_row,
                    end_row_exclusive: next_row,
                    row_count,
                    sha256: hash,
                },
                frame,
                committed_length,
            },
        )
    }

    /// Poisons the writer, where the rest of an append has failed.
    pub fn poison(&mut self)
        ensures
            final(self)@ == (WriterState { poisoned: true, ..old(self)@ }),
    {
        self.poisoned = true;
    }

    /// Settles the staged chunk: it is written, or the writer is poisoned.
    pub fn settle_batch(&mut self, commit: &ChunkCommit) -> (result: Result<bool, StorageError>)
        ensures
            result == chunk_settled(old(self)@, *commit),
            result == Ok::<bool, StorageError>(true) ==> final(self)@ == advanced(
                old(self)@,
                old(self)@.staged->0,
            ),
            result != Ok::<bool, StorageError>(true) ==> final(self)@ == halted(
                old(self)@,
                *commit,
            ),
    {
        let mut taken: Option<StagedChunk> = None;
        std::mem::swap(&mut taken, &mut self.staged);
        let staged = match taken {
            Some(staged) => staged,
            None => {
                self.poisoned = true;
                return Err(StorageError::InvalidResult("result writer is poisoned"));
            },
        };
        let state = match commit {
            ChunkCommit::Committed => CommitState::Applied,
            ChunkCommit::Unreadable => CommitState::Diverged,
            ChunkCommit::Seen { result, chunk } => Storage::verify_chunk_commit(
                &staged,
                result,
                chunk,
            ),
        };
        match state {
            CommitState::Applied => {
                self.committed_length = staged.committed_length;
                self.next_row = staged.chunk.end_row_exclusive;
                match self.next_ordinal.checked_add(1) {
                    Some(next) => {
                        self.next_ordinal = next;
                        Ok(true)
                    },
                    None => {
                        self.poisoned = true;
                        Err(StorageError::NumericRange("result chunk ordinal"))
                    },
                }
            },
            CommitState::NotApplied => {
                self.poisoned = true;
                Ok(false)
            },
            CommitState::Diverged => {
                self.poisoned = true;
                Err(
                    StorageError::OutcomeUnknown {
                        operation: "append result chunk",
                        id: self.id.clone(),
                    },
                )
            },
        }
    }

    /// Checks the final statistics of the result before it is completed.
    pub fn check_completion(&mut self, completed: &QueryCompleted) -> (result: Result<
        (),
        StorageError,
    >)
        ensures
            result == completion_check(old(self)@, *completed),
            result is Ok ==> final(self)@ == old(self)@,
            result is Err ==> final(self)@ == (WriterState { poisoned: true, ..old(self)@ }),
    {
        if self.poisoned || self.staged.is_some() {
            self.poisoned = true;
            return Err(StorageError::InvalidResult("result writer is poisoned"));
        }
        if completed.row_count != self.next_row {
            self.poisoned = true;
            return Err(
                StorageError::InvalidResult("completion row count does not match indexed chunks"),
            );
        }
        Ok(())
    }

    /// Ends the writer once the completion, which has been checked, has been committed or has failed
    /// to be. The index and the file of the result are removed only if it had no effect.
    pub fn finish(self, completed: &QueryCompleted, commit: &CompletionCommit) -> (result:
        CommitOutcome<ResultMetadata>)
        requires
            completion_check(self@, *completed) is Ok,
        ensures
            result == completion_settled(self@, *completed, *commit),
    {
        match commit {
            CompletionCommit::Committed => CommitOutcome::Applied(
                ResultMetadata {
                    id: self.id,
                    row_count: completed.row_count,
                    truncated_by_max_rows: completed.truncated_by_max_rows,
                    truncated_by_max_result_bytes: completed.truncated_by_max_result_bytes,
                    created_at_ms: self.created_at_ms,
                    expires_at_ms: self.expires_at_ms,
                },
            ),
            CompletionCommit::Failed(Readback::Found(None)) => CommitOutcome::NotApplied,
            CompletionCommit::Failed(Readback::Found(Some(row))) => {
                if row.matches_completion(completed, self.committed_length) {
                    match row.metadata() {
                        Ok(metadata) => CommitOutcome::Applied(metadata),
                        Err(error) => CommitOutcome::Unknown(error),
                    }
                } else if row.matches_writing(self.next_row, self.committed_length) {
                    CommitOutcome::NotApplied
                } else {
                    CommitOutcome::Unknown(
                        StorageError::OutcomeUnknown {
                            operation: "complete retained result",
                            id: self.id,
                        },
                    )
                }
            },
            CompletionCommit::Failed(Readback::Unreadable) => CommitOutcome::Unknown(
                StorageError::OutcomeUnknown { operation: "complete retained result", id: self.id },
            ),
        }
    }
}

} // verus!
