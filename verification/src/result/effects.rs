//! What an accepted operation on a retained result does, field by field.

use vstd::prelude::*;

use crate::commit::{CommitOutcome, Readback};
use crate::digest::sha256_digest;
use crate::error::StorageError;
use crate::identity::uuid_text;
use crate::result::batch::{
    batch_check, indexed_batch_check, JdbcRow, ProtocolLimits, QueryStarted, RowBatch,
};
use crate::result::frame::{frame_check, framed, law_big_endian_round_trip, payload_check};
use crate::result::naming::{named, names_result};
use crate::result::page::{
    chunk_batch, in_page, page_end, page_request_check, page_rows, ChunkRead, PageRequest,
};
use crate::result::quota::{quota_check, FileEntry, IndexedBytes};
use crate::result::read::{
    file_length_check, page_of, page_source, result_page, stored_schema, ResultFile, SchemaRead,
};
use crate::result::recovery::{
    all_disposed, chunk_validated, chunks_validated, disposed, file_cover_check, first_chunk,
    first_unsupported, ids_valid, orphaned, purgeable, purged, purged_bytes, result_files,
    result_validated, results_decoded, results_recovered, results_settled, times, unindexed,
    CheckedResult, ChunkCursor, Disposition, ExpiryRow, RecoveryReport, ResultRecovery,
};
use crate::result::rows::{
    chunk_columns, chunk_row, result_row, ChunkIndex, QueryCompleted, RawChunk, RawResult,
    StoredResult,
};
use crate::result::writer::{
    advanced, begin_check, begin_settled, begins, chunk_commit_check, chunk_commit_state,
    chunk_settled, completion_check, completion_commit_check, completion_settled, halted,
    holds_chunk, stage_check, stages, written_metadata, ChunkCommit, CommitState, CompletionCommit,
    NewResult, StagedChunk, WriterState,
};

verus! {

/// A payload of one byte to its bound is framed by its length, in four bytes of which the first is
/// the most significant, followed by the payload itself.
pub proof fn law_frame_is_length_and_payload(payload: Seq<u8>, maximum: usize)
    requires
        payload.len() <= u32::MAX,
    ensures
        framed(payload).len() == payload.len() + 4,
        framed(payload).skip(4) == payload,
        framed(payload)[0] * 0x100_0000 + framed(payload)[1] * 0x1_0000 + framed(payload)[2] * 0x100
            + framed(payload)[3] == payload.len(),
        payload_check(payload.len(), maximum) is Ok <==> 0 < payload.len() <= maximum,
{
    law_big_endian_round_trip(payload.len() as u32, payload);
    assert(framed(payload).skip(4) =~= payload);
}

/// A frame is sound exactly if the index gives it a length of more than four bytes and within its
/// bound and a digest of thirty-two bytes, the file holds all of it, with that digest, and its first
/// four bytes are the length of the rest.
pub proof fn law_frame_is_sound(
    id: String,
    frame_length: u64,
    expected_hash: Seq<u8>,
    frame: Seq<u8>,
    maximum: usize,
)
    ensures
        frame_check(id, frame_length, expected_hash, frame, maximum) is Ok <==> {
            &&& 4 < frame_length <= usize::MAX
            &&& frame_length - 4 <= maximum
            &&& expected_hash.len() == 32
            &&& frame.len() == frame_length
            &&& sha256_digest(frame) == expected_hash
            &&& frame[0] * 0x100_0000 + frame[1] * 0x1_0000 + frame[2] * 0x100 + frame[3]
                == frame_length - 4
        },
{
}

/// A result begins with the frame of its schema and no rows, under the id, the time and the expiry
/// that were asked for, in a file named after it.
pub proof fn law_result_begins_with_its_schema(
    new: NewResult,
    id: String,
    schema: QueryStarted,
    created_at_ms: i64,
    expires_at_ms: i64,
)
    requires
        begins(new, id, schema, created_at_ms, expires_at_ms),
        schema.payload@.len() <= u32::MAX,
    ensures
        new.row.id == id,
        new.row.format_version == 1,
        new.row.state is Writing,
        new.row.schema_frame_length == schema.payload@.len() + 4,
        new.row.committed_length == schema.payload@.len() + 4,
        new.row.schema_sha256@ == sha256_digest(new.frame@),
        new.row.row_count == 0,
        !new.row.truncated_by_max_rows,
        !new.row.truncated_by_max_result_bytes,
        new.row.created_at_ms == created_at_ms,
        new.row.expires_at_ms == expires_at_ms,
        new.frame@.len() == schema.payload@.len() + 4,
        new.frame@.skip(4) == schema.payload@,
        new.file_name@ == uuid_text(id@)->0 + ".c2result"@,
        new.columns == schema.columns,
{
    law_frame_is_length_and_payload(schema.payload@, 0);
}

/// A result may begin exactly if it ends after it begins, its schema is within the limits, it has an
/// id, and the frame of its schema fits the quota.
pub proof fn law_result_may_begin(
    quota: u64,
    id: String,
    schema: QueryStarted,
    limits: ProtocolLimits,
    created_at_ms: i64,
    expires_at_ms: i64,
    index: Seq<IndexedBytes>,
    files: Seq<FileEntry>,
)
    ensures
        begin_check(
            quota,
            id,
            schema,
            limits,
            created_at_ms,
            expires_at_ms,
            index,
            files,
        ) is Ok <==> {
            &&& created_at_ms < expires_at_ms
            &&& schema.columns <= limits.max_columns
            &&& 0 < schema.payload@.len() <= limits.max_frame_bytes
            &&& schema.payload@.len() <= u32::MAX
            &&& uuid_text(id@) is Some
            &&& quota_check(quota, (schema.payload@.len() + 4) as u64, index, files) is Ok
        },
{
    if schema.payload@.len() <= u32::MAX {
        law_frame_is_length_and_payload(schema.payload@, 0);
    }
}

/// A batch continues a result exactly if it begins at the next row, has rows, no more of them than
/// the limit, each as wide as the schema, and no more than eight mebibytes.
pub proof fn law_batch_continues_the_rows(
    batch: RowBatch,
    expected_start: u64,
    columns: usize,
    limits: ProtocolLimits,
)
    ensures
        batch_check(batch, expected_start, columns, limits) is Ok <==> {
            &&& batch.start_row_offset == expected_start
            &&& 0 < batch.rows@.len() <= limits.max_batch_rows
            &&& batch.payload@.len() <= 8_388_608
            &&& forall|i: int|
                0 <= i < batch.rows@.len() ==> (#[trigger] batch.rows@[i]).width == columns
        },
{
}

/// A batch that is read back belongs to its chunk exactly if it has the first row and the number of
/// rows of the chunk, and could have been written.
pub proof fn law_indexed_batch_belongs_to_its_chunk(
    batch: RowBatch,
    chunk: ChunkIndex,
    columns: usize,
    limits: ProtocolLimits,
    id: String,
)
    ensures
        indexed_batch_check(batch, chunk, columns, limits, id) is Ok <==> {
            &&& batch.start_row_offset == chunk.start_row
            &&& batch.rows@.len() == chunk.row_count
            &&& chunk.end_row_exclusive == chunk.start_row + chunk.row_count
            &&& 0 < batch.rows@.len() <= limits.max_batch_rows
            &&& batch.payload@.len() <= 8_388_608
            &&& forall|i: int|
                0 <= i < batch.rows@.len() ==> (#[trigger] batch.rows@[i]).width == columns
        },
{
}

/// A batch is staged as the next chunk: its frame at the end of the file, its rows behind those that
/// are written.
pub proof fn law_batch_is_staged_at_the_end(
    staged: StagedChunk,
    writer: WriterState,
    batch: RowBatch,
)
    requires
        stages(staged, writer, batch),
        batch.payload@.len() <= u32::MAX,
    ensures
        staged.frame@.len() == batch.payload@.len() + 4,
        staged.frame@.skip(4) == batch.payload@,
        staged.chunk.ordinal == writer.next_ordinal,
        staged.chunk.file_offset == writer.committed_length,
        staged.chunk.frame_length == batch.payload@.len() + 4,
        staged.chunk.start_row == writer.next_row,
        staged.chunk.end_row_exclusive == writer.next_row + batch.rows@.len(),
        staged.chunk.row_count == batch.rows@.len(),
        staged.chunk.sha256@ == sha256_digest(staged.frame@),
        staged.committed_length == writer.committed_length + batch.payload@.len() + 4,
{
    law_frame_is_length_and_payload(batch.payload@, 0);
}

/// A batch may be staged exactly if the writer has not failed and has nothing staged, the batch
/// continues the result and has a payload, the file and the rows do not outgrow their counters, and
/// the frame fits the quota.
pub proof fn law_batch_may_be_staged(
    writer: WriterState,
    quota: u64,
    batch: RowBatch,
    limits: ProtocolLimits,
    index: Seq<IndexedBytes>,
    files: Seq<FileEntry>,
)
    ensures
        stage_check(writer, quota, batch, limits, index, files) is Ok <==> {
            &&& !writer.poisoned
            &&& writer.staged is None
            &&& batch_check(batch, writer.next_row, writer.columns, limits) is Ok
            &&& 0 < batch.payload@.len() <= 8_388_608
            &&& writer.committed_length + batch.payload@.len() + 4 <= u64::MAX
            &&& writer.next_row + batch.rows@.len() <= u64::MAX
            &&& quota_check(quota, (batch.payload@.len() + 4) as u64, index, files) is Ok
        },
{
    if batch.payload@.len() <= 8_388_608 {
        law_frame_is_length_and_payload(batch.payload@, 0);
    }
}

/// A chunk whose commit reported a failure has been written exactly if the index shows it, with the
/// result at its end, and has not been written exactly if the index shows the result at its beginning
/// and no chunk.
pub proof fn law_chunk_is_settled_by_what_is_indexed(
    staged: StagedChunk,
    result: Option<StoredResult>,
    chunk: Option<ChunkIndex>,
)
    ensures
        chunk_commit_state(staged, result, chunk) is Applied <==> {
            &&& result matches Some(row) && row.state is Writing && row.row_count
                == staged.chunk.end_row_exclusive && row.committed_length == staged.committed_length
            &&& chunk matches Some(seen) && seen.file_offset == staged.chunk.file_offset
                && seen.frame_length == staged.chunk.frame_length && seen.start_row
                == staged.chunk.start_row && seen.end_row_exclusive
                == staged.chunk.end_row_exclusive && seen.sha256@ == staged.chunk.sha256@
        },
        chunk_commit_state(staged, result, chunk) is NotApplied <==> {
            &&& result matches Some(row) && row.state is Writing && row.row_count
                == staged.chunk.start_row && row.committed_length == staged.chunk.file_offset
            &&& chunk is None
        },
{
}

/// A chunk that was written moves the writer behind it. One that was not, or of which nothing is
/// known, poisons the writer.
pub proof fn law_settled_chunk_moves_the_writer(
    writer: WriterState,
    staged: StagedChunk,
    commit: ChunkCommit,
)
    requires
        writer.staged == Some(staged),
    ensures
        ({
            let next = advanced(writer, staged);
            &&& next.committed_length == staged.committed_length
            &&& next.next_row == staged.chunk.end_row_exclusive
            &&& writer.next_ordinal < u64::MAX ==> next.next_ordinal == writer.next_ordinal + 1
            &&& next.staged is None
            &&& next.poisoned == writer.poisoned
            &&& next.id == writer.id
            &&& next.columns == writer.columns
            &&& next.created_at_ms == writer.created_at_ms
            &&& next.expires_at_ms == writer.expires_at_ms
        }),
        halted(writer, commit).poisoned,
        halted(writer, commit).staged is None,
        halted(writer, commit).id == writer.id,
        halted(writer, commit).next_ordinal == writer.next_ordinal,
        commit is Committed && writer.next_ordinal < u64::MAX ==> chunk_settled(writer, commit)
            == Ok::<bool, StorageError>(true),
        commit is Unreadable ==> chunk_settled(writer, commit) == Err::<bool, StorageError>(
            StorageError::OutcomeUnknown { operation: "append result chunk", id: writer.id },
        ),
        commit is Unreadable ==> halted(writer, commit).committed_length == writer.committed_length
            && halted(writer, commit).next_row == writer.next_row,
        chunk_settled(WriterState { staged: None, ..writer }, commit) is Err,
        commit matches ChunkCommit::Seen { result, chunk } ==> match chunk_commit_state(
            staged,
            result,
            chunk,
        ) {
            CommitState::Applied => writer.next_ordinal < u64::MAX ==> chunk_settled(writer, commit)
                == Ok::<bool, StorageError>(true),
            CommitState::NotApplied => chunk_settled(writer, commit) == Ok::<bool, StorageError>(
                false,
            ),
            CommitState::Diverged => chunk_settled(writer, commit) is Err,
        },
{
}

/// A chunk may be indexed exactly if the database can hold its numbers and shows its result still
/// being written, at the row and the offset at which the chunk begins; its columns are its own.
pub proof fn law_chunk_may_be_indexed(
    current: Option<StoredResult>,
    staged: StagedChunk,
    columns: RawChunk,
)
    ensures
        chunk_commit_check(current, staged) is Ok <==> {
            &&& staged.chunk.ordinal <= i64::MAX
            &&& staged.chunk.file_offset <= i64::MAX
            &&& staged.chunk.frame_length <= i64::MAX
            &&& staged.chunk.start_row <= i64::MAX
            &&& staged.chunk.end_row_exclusive <= i64::MAX
            &&& staged.chunk.row_count <= i64::MAX
            &&& staged.committed_length <= i64::MAX
            &&& current matches Some(row) && row.state is Writing && row.row_count
                == staged.chunk.start_row && row.committed_length == staged.chunk.file_offset
        },
        holds_chunk(columns, staged.chunk) <==> {
            &&& columns.ordinal == staged.chunk.ordinal
            &&& columns.file_offset == staged.chunk.file_offset
            &&& columns.frame_length == staged.chunk.frame_length
            &&& columns.start_row == staged.chunk.start_row
            &&& columns.end_row_exclusive == staged.chunk.end_row_exclusive
            &&& columns.row_count == staged.chunk.row_count
            &&& columns.sha256@ == staged.chunk.sha256@
        },
{
}

/// A result is completed exactly if its writer has not failed, nothing is staged and the engine sent
/// as many rows as were written; and if the database shows it still being written at that point.
pub proof fn law_result_may_be_completed(
    writer: WriterState,
    completed: QueryCompleted,
    current: Option<StoredResult>,
    committed_length: u64,
)
    ensures
        completion_check(writer, completed) is Ok <==> !writer.poisoned && writer.staged is None
            && completed.row_count == writer.next_row,
        completion_commit_check(current, completed, committed_length) is Ok <==> {
            &&& completed.row_count <= i64::MAX
            &&& committed_length <= i64::MAX
            &&& current matches Some(row) && row.state is Writing && row.row_count
                == completed.row_count && row.committed_length == committed_length
        },
{
}

/// The metadata of a completed result are the id and the times of its writer and what the engine
/// reported of its rows.
pub proof fn law_completion_reports_the_statistics(
    writer: WriterState,
    completed: QueryCompleted,
    row: StoredResult,
)
    ensures
        ({
            let metadata = written_metadata(writer, completed);
            &&& metadata.id == writer.id
            &&& metadata.row_count == completed.row_count
            &&& metadata.truncated_by_max_rows == completed.truncated_by_max_rows
            &&& metadata.truncated_by_max_result_bytes == completed.truncated_by_max_result_bytes
            &&& metadata.created_at_ms == writer.created_at_ms
            &&& metadata.expires_at_ms == writer.expires_at_ms
        }),
        ({
            let metadata = row.completion();
            &&& metadata.id == row.id
            &&& metadata.row_count == row.row_count
            &&& metadata.truncated_by_max_rows == row.truncated_by_max_rows
            &&& metadata.truncated_by_max_result_bytes == row.truncated_by_max_result_bytes
            &&& metadata.created_at_ms == row.created_at_ms
            &&& metadata.expires_at_ms == row.expires_at_ms
        }),
{
}

/// A completion has taken effect if its commit says so or the row of the result shows it, has had
/// none if the result is gone or still being written as before, and is unknown otherwise.
pub proof fn law_completion_is_settled_by_what_is_stored(
    writer: WriterState,
    completed: QueryCompleted,
    commit: CompletionCommit,
)
    ensures
        ({
            let settled = completion_settled(writer, completed, commit);
            &&& commit is Committed ==> settled == CommitOutcome::Applied(
                written_metadata(writer, completed),
            )
            &&& commit matches CompletionCommit::Failed(Readback::Unreadable) ==> settled is Unknown
            &&& commit matches CompletionCommit::Failed(Readback::Found(None)) ==> settled
                is NotApplied
            &&& commit matches CompletionCommit::Failed(Readback::Found(Some(row))) ==> {
                let done = row.state is Complete && row.row_count == completed.row_count
                    && row.committed_length == writer.committed_length && row.truncated_by_max_rows
                    == completed.truncated_by_max_rows && row.truncated_by_max_result_bytes
                    == completed.truncated_by_max_result_bytes;
                let untouched = row.state is Writing && row.row_count == writer.next_row
                    && row.committed_length == writer.committed_length;
                &&& done ==> settled == CommitOutcome::Applied(row.completion())
                &&& untouched ==> settled is NotApplied
                &&& !done && !untouched ==> settled is Unknown
            }
        }),
{
}

/// The beginning of a result has taken effect exactly if the index shows it being written with its
/// schema, and has had none exactly if the index does not have it.
pub proof fn law_beginning_is_settled_by_what_is_stored(
    new: NewResult,
    seen: Readback<StoredResult>,
)
    ensures
        begin_settled(new, seen) is Applied <==> (seen matches Readback::Found(Some(row))
            && row.state is Writing && row.committed_length == new.row.committed_length
            && row.schema_sha256@ == new.row.schema_sha256@),
        begin_settled(new, seen) is NotApplied <==> seen == Readback::<StoredResult>::Found(None),
{
}

/// The row of a result is read as it is, if its state is a known one and its numbers are not
/// negative.
pub proof fn law_result_row_is_read_as_it_is(raw: RawResult)
    ensures
        result_row(raw) is Ok <==> {
            &&& raw.state@ == "writing"@ || raw.state@ == "complete"@
            &&& raw.schema_frame_length >= 0
            &&& raw.committed_length >= 0
            &&& raw.row_count >= 0
        },
        result_row(raw) matches Ok(row) ==> {
            &&& row.id == raw.id
            &&& row.format_version == raw.format_version
            &&& row.schema_frame_length == raw.schema_frame_length
            &&& row.schema_sha256 == raw.schema_sha256
            &&& row.committed_length == raw.committed_length
            &&& row.row_count == raw.row_count
            &&& row.truncated_by_max_rows == raw.truncated_by_max_rows
            &&& row.truncated_by_max_result_bytes == raw.truncated_by_max_result_bytes
            &&& row.created_at_ms == raw.created_at_ms
            &&& row.expires_at_ms == raw.expires_at_ms
            &&& row.state is Writing <==> raw.state@ == "writing"@
            &&& row.state is Complete <==> raw.state@ == "complete"@
        },
{
    reveal_strlit("writing");
    reveal_strlit("complete");
    assert("writing"@.len() != "complete"@.len());
}

/// The row of a chunk is read and written as it is, if its numbers are within their range.
pub proof fn law_chunk_row_is_read_as_it_is(raw: RawChunk, chunk: ChunkIndex)
    ensures
        chunk_row(raw) is Ok <==> {
            &&& raw.ordinal >= 0
            &&& raw.file_offset >= 0
            &&& raw.frame_length >= 0
            &&& raw.start_row >= 0
            &&& raw.end_row_exclusive >= 0
            &&& raw.row_count >= 0
        },
        chunk_row(raw) matches Ok(read) ==> {
            &&& read.ordinal == raw.ordinal
            &&& read.file_offset == raw.file_offset
            &&& read.frame_length == raw.frame_length
            &&& read.start_row == raw.start_row
            &&& read.end_row_exclusive == raw.end_row_exclusive
            &&& read.row_count == raw.row_count
            &&& read.sha256 == raw.sha256
        },
        chunk_columns(chunk) is Ok <==> {
            &&& chunk.ordinal <= i64::MAX
            &&& chunk.file_offset <= i64::MAX
            &&& chunk.frame_length <= i64::MAX
            &&& chunk.start_row <= i64::MAX
            &&& chunk.end_row_exclusive <= i64::MAX
            &&& chunk.row_count <= i64::MAX
        },
        chunk_columns(chunk) matches Ok(written) ==> {
            &&& written.ordinal == chunk.ordinal
            &&& written.file_offset == chunk.file_offset
            &&& written.frame_length == chunk.frame_length
            &&& written.start_row == chunk.start_row
            &&& written.end_row_exclusive == chunk.end_row_exclusive
            &&& written.row_count == chunk.row_count
            &&& written.sha256 == chunk.sha256
        },
{
}

/// A result is live exactly if it is complete and its time has not come.
pub proof fn law_live_row_is_complete_and_unexpired(row: StoredResult, timestamp_ms: i64)
    ensures
        row.live(timestamp_ms) <==> row.state is Complete && timestamp_ms < row.expires_at_ms,
{
}

/// A page may be asked for with one to 4096 rows and eight to sixteen mebibytes. It ends with the
/// rows that were asked for, or with the last row of the result, and needs each chunk that has rows
/// between its beginning and its end.
pub proof fn law_page_covers_what_is_asked(request: PageRequest, row_count: u64, chunk: ChunkIndex)
    ensures
        page_request_check(request) is Ok <==> 1 <= request.max_rows <= 4096 && 8_388_608
            <= request.max_bytes <= 16_777_216,
        request.offset + request.max_rows <= row_count ==> page_end(request, row_count)
            == request.offset + request.max_rows,
        request.offset + request.max_rows > row_count ==> page_end(request, row_count) == row_count,
        in_page(chunk, request.offset, row_count) <==> chunk.start_row < row_count && request.offset
            < chunk.end_row_exclusive,
{
}

/// A page is read from a result exactly if the request is valid and the result is there, complete, not
/// expired and of the format that is supported; a page of another result is never read.
pub proof fn law_page_is_read_from_a_live_result(
    id: String,
    request: PageRequest,
    timestamp_ms: i64,
    stored: Option<StoredResult>,
)
    ensures
        page_source(id, request, timestamp_ms, stored) is Ok <==> {
            &&& page_request_check(request) is Ok
            &&& stored matches Some(row) && row.state is Complete && timestamp_ms < row.expires_at_ms
                && row.format_version == 1
            &&& uuid_text(id@) is Some
        },
        page_source(id, request, timestamp_ms, stored) matches Ok(row) ==> stored == Some(row),
{
}

/// The file of a complete result is accepted exactly if it has the length that the index covers.
pub proof fn law_complete_file_has_its_length(file: ResultFile, expected: u64, id: String)
    ensures
        file_length_check(file, expected, id) is Ok <==> file == ResultFile::Length(expected),
{
}

/// The schema of a result is what its first frame decodes to, if that frame is sound and the schema
/// is within the limits.
pub proof fn law_schema_is_that_of_the_first_frame(
    result: StoredResult,
    limits: ProtocolLimits,
    read: SchemaRead,
)
    ensures
        stored_schema(result, limits, read) is Ok <==> {
            &&& frame_check(
                result.id,
                result.schema_frame_length,
                result.schema_sha256@,
                read.frame@,
                limits.max_frame_bytes,
            ) is Ok
            &&& read.schema matches Some(schema) && schema.columns <= limits.max_columns
        },
        stored_schema(result, limits, read) matches Ok(schema) ==> read.schema == Some(schema),
{
}

/// A page holds the metadata of its result, its schema, its offset and its rows, and says that there
/// are more exactly if rows of the result follow its own. A page that should have rows has some.
pub proof fn law_page_says_whether_more_follow(
    id: String,
    result: StoredResult,
    schema: QueryStarted,
    request: PageRequest,
    rows: Seq<JdbcRow>,
)
    ensures
        page_of(id, result, schema, request, rows) is Err <==> request.offset < result.row_count
            && rows.len() == 0,
        page_of(id, result, schema, request, rows) matches Ok(page) ==> {
            &&& page.rows == rows
            &&& page.schema == schema
            &&& page.offset == request.offset
            &&& page.has_more <==> request.offset + rows.len() < result.row_count
            &&& page.metadata.id == result.id
            &&& page.metadata.row_count == result.row_count
            &&& page.metadata.truncated_by_max_rows == result.truncated_by_max_rows
            &&& page.metadata.truncated_by_max_result_bytes == result.truncated_by_max_result_bytes
            &&& page.metadata.created_at_ms == result.created_at_ms
            &&& page.metadata.expires_at_ms == result.expires_at_ms
        },
{
}

/// The file of a result covers its index exactly if the result is of the format that is supported, has
/// an id, and its file is there and no shorter than the index; it has a tail if it is longer.
pub proof fn law_file_covers_the_index(result: StoredResult, file_length: Option<u64>)
    ensures
        file_cover_check(result, file_length) is Ok <==> {
            &&& result.format_version == 1
            &&& uuid_text(result.id@) is Some
            &&& file_length matches Some(actual) && actual >= result.committed_length
        },
        file_cover_check(result, file_length) matches Ok(tail) ==> tail == (file_length->0
            > result.committed_length),
{
}

/// The chunk is sound, and its batch is the one that it holds.
pub open spec fn chunk_sound(
    id: String,
    columns: usize,
    limits: ProtocolLimits,
    read: ChunkRead,
) -> bool {
    &&& frame_check(
        id,
        read.chunk.frame_length,
        read.chunk.sha256@,
        read.frame@,
        8_388_608,
    ) is Ok
    &&& read.batch matches Some(batch) && indexed_batch_check(
        batch,
        read.chunk,
        columns,
        limits,
        id,
    ) is Ok
}

/// A chunk gives its batch exactly if its frame is sound and what it decodes to belongs to it.
pub proof fn law_chunk_gives_its_batch(
    id: String,
    columns: usize,
    limits: ProtocolLimits,
    read: ChunkRead,
)
    ensures
        chunk_batch(id, columns, limits, read) is Ok <==> chunk_sound(id, columns, limits, read),
        chunk_batch(id, columns, limits, read) matches Ok(batch) ==> read.batch == Some(batch),
{
}

/// Chunks are sound only if each of them is, and each begins where the one before it ends.
pub proof fn law_validated_chunks_are_contiguous(
    id: String,
    columns: usize,
    limits: ProtocolLimits,
    cursor: ChunkCursor,
    reads: Seq<ChunkRead>,
)
    requires
        chunks_validated(id, columns, limits, cursor, reads) is Ok,
    ensures
        forall|i: int| 0 <= i < reads.len() ==> chunk_sound(id, columns, limits, #[trigger] reads[i]),
        forall|i: int|
            0 <= i < reads.len() ==> (#[trigger] reads[i]).chunk.ordinal == cursor.ordinal + i,
        reads.len() > 0 ==> reads[0].chunk.file_offset == cursor.file_offset
            && reads[0].chunk.start_row == cursor.row,
        forall|i: int, j: int|
            0 <= i < reads.len() && j == i + 1 && j < reads.len() ==> {
                &&& (#[trigger] reads[j]).chunk.file_offset == (
                #[trigger] reads[i]).chunk.file_offset + reads[i].chunk.frame_length
                &&& reads[j].chunk.start_row == reads[i].chunk.end_row_exclusive
            },
        ({
            let end = chunks_validated(id, columns, limits, cursor, reads)->Ok_0;
            &&& end.ordinal == cursor.ordinal + reads.len()
            &&& reads.len() == 0 ==> end == cursor
            &&& reads.len() > 0 ==> end.row == reads.last().chunk.end_row_exclusive
                && end.file_offset == reads.last().chunk.file_offset
                + reads.last().chunk.frame_length
        }),
    decreases reads.len(),
{
    if reads.len() > 0 {
        let next = chunk_validated(id, columns, limits, cursor, reads[0])->Ok_0;
        let rest = reads.drop_first();
        law_validated_chunks_are_contiguous(id, columns, limits, next, rest);
        assert forall|i: int| 0 <= i < reads.len() implies chunk_sound(
            id,
            columns,
            limits,
            #[trigger] reads[i],
        ) && reads[i].chunk.ordinal == cursor.ordinal + i by {
            if i > 0 {
                assert(rest[i - 1] == reads[i]);
            }
        }
        assert forall|i: int, j: int| 0 <= i < reads.len() && j == i + 1 && j < reads.len() implies ({
            &&& (#[trigger] reads[j]).chunk.file_offset == (#[trigger] reads[i]).chunk.file_offset
                + reads[i].chunk.frame_length
            &&& reads[j].chunk.start_row == reads[i].chunk.end_row_exclusive
        }) by {
            assert(rest[j - 1] == reads[j]);
            if i > 0 {
                assert(rest[i - 1] == reads[i]);
            }
        }
    }
}

/// A complete result is sound only if its file covers its index, its schema can be read, its chunks
/// are sound and contiguous from behind the schema on, and they end where the row of the result says.
pub proof fn law_sound_result_has_sound_chunks(
    result: StoredResult,
    limits: ProtocolLimits,
    file_length: Option<u64>,
    first: SchemaRead,
    reads: Seq<ChunkRead>,
)
    requires
        result_validated(result, limits, file_length, first, reads) is Ok,
    ensures
        file_length matches Some(actual) && actual >= result.committed_length,
        result_validated(result, limits, file_length, first, reads)->Ok_0 == (file_length->0
            > result.committed_length),
        stored_schema(result, limits, first) is Ok,
        forall|i: int|
            0 <= i < reads.len() ==> chunk_sound(
                result.id,
                stored_schema(result, limits, first)->Ok_0.columns,
                limits,
                #[trigger] reads[i],
            ),
        reads.len() == 0 ==> result.row_count == 0 && result.committed_length
            == result.schema_frame_length,
        reads.len() > 0 ==> {
            &&& reads[0].chunk.file_offset == result.schema_frame_length
            &&& reads[0].chunk.start_row == 0
            &&& reads.last().chunk.end_row_exclusive == result.row_count
            &&& reads.last().chunk.file_offset + reads.last().chunk.frame_length
                == result.committed_length
        },
{
    let schema = stored_schema(result, limits, first)->Ok_0;
    law_validated_chunks_are_contiguous(
        result.id,
        schema.columns,
        limits,
        first_chunk(result),
        reads,
    );
}

/// Recovery removes a result that was never completed, one that has expired and one that is damaged;
/// it keeps one that is sound, and fails with what else its validation gave.
pub proof fn law_recovery_settles_a_result(
    result: StoredResult,
    timestamp_ms: i64,
    check: Result<bool, StorageError>,
)
    ensures
        result.state is Writing ==> disposed(result, timestamp_ms, check) == Ok::<
            Disposition,
            StorageError,
        >(Disposition::Writing),
        result.state is Complete && result.expires_at_ms <= timestamp_ms ==> disposed(
            result,
            timestamp_ms,
            check,
        ) == Ok::<Disposition, StorageError>(Disposition::Expired),
        result.state is Complete && result.expires_at_ms > timestamp_ms ==> match check {
            Ok(tail_truncated) => disposed(result, timestamp_ms, check) == Ok::<
                Disposition,
                StorageError,
            >(Disposition::Kept { tail_truncated }),
            Err(error) => if error is CorruptResult {
                disposed(result, timestamp_ms, check) == Ok::<Disposition, StorageError>(
                    Disposition::Corrupt,
                )
            } else {
                disposed(result, timestamp_ms, check) == Err::<Disposition, StorageError>(error)
            },
        },
{
}

/// Results are counted by what recovery does with them.
pub proof fn law_dispositions_are_counted(
    dispositions: Seq<Disposition>,
    wanted: Disposition,
    other: Disposition,
)
    ensures
        times(Seq::empty(), wanted) == 0,
        times(dispositions.push(other), wanted) == times(dispositions, wanted) + (
        if other == wanted {
            1nat
        } else {
            0nat
        }),
{
    assert(dispositions.push(other).drop_last() =~= dispositions);
}

/// A file is removed as an orphan exactly if it has the name of a result file and no result has it.
pub proof fn law_orphan_is_a_result_file_of_no_result(
    results: Seq<CheckedResult>,
    checked: CheckedResult,
    ids: Seq<String>,
    name: Seq<char>,
)
    ensures
        result_files(Seq::empty()).len() == 0,
        uuid_text(checked.result.id@) matches Some(uuid) ==> result_files(results.push(checked))
            == result_files(results).push(uuid + ".c2result"@),
        uuid_text(checked.result.id@) is None ==> result_files(results.push(checked))
            == result_files(results),
        unindexed(results, name) <==> names_result(name) && !result_files(results).contains(name),
        orphaned(ids, name) <==> names_result(name) && forall|i: int|
            0 <= i < ids.len() ==> name != named(uuid_text((#[trigger] ids[i])@)->0),
        names_result(name) <==> exists|stem: Seq<char>|
            name == #[trigger] named(stem) && uuid_text(stem) is Some,
        named(name) == name + ".c2result"@,
{
    assert(results.push(checked).drop_last() =~= results);
}

/// A result of another format stops recovery before it begins; otherwise every row is read, in order,
/// or the first broken one fails.
pub proof fn law_results_are_loaded_in_order(raw: Seq<RawResult>, row: RawResult)
    ensures
        first_unsupported(Seq::empty()) is None,
        row.format_version == 1 ==> first_unsupported(seq![row] + raw) == first_unsupported(raw),
        row.format_version != 1 ==> first_unsupported(seq![row] + raw) == Some(
            StorageError::UnsupportedResultFormat {
                id: row.id,
                found: row.format_version,
                supported: 1,
            },
        ),
        results_decoded(Seq::empty()) == Ok::<Seq<StoredResult>, StorageError>(Seq::empty()),
        (results_decoded(raw) is Ok && result_row(row) is Ok) ==> results_decoded(raw.push(row))
            == Ok::<Seq<StoredResult>, StorageError>(
            results_decoded(raw)->Ok_0.push(result_row(row)->Ok_0),
        ),
        (results_decoded(raw) is Ok && result_row(row) is Err) ==> results_decoded(raw.push(row))
            == Err::<Seq<StoredResult>, StorageError>(result_row(row)->Err_0),
        results_decoded(raw) is Err ==> results_decoded(raw.push(row)) == results_decoded(raw),
{
    assert((seq![row] + raw).drop_first() =~= raw);
    assert(raw.push(row).drop_last() =~= raw);
}

/// A purge removes each result whose time has come, in order, but none that a writer of the process
/// is still writing, and counts the bytes that the index has of them, up to the largest count.
pub proof fn law_purge_removes_expired_results(
    rows: Seq<ExpiryRow>,
    row: ExpiryRow,
    leases: Seq<String>,
    timestamp_ms: i64,
)
    ensures
        purgeable(row, leases, timestamp_ms) <==> row.expires_at_ms <= timestamp_ms && (row.state@
            != "writing"@ || forall|i: int|
            0 <= i < leases.len() ==> (#[trigger] leases[i])@ != row.id@),
        purged(Seq::empty(), leases, timestamp_ms).len() == 0,
        purged_bytes(Seq::empty(), leases, timestamp_ms) == 0,
        purgeable(row, leases, timestamp_ms) ==> purged(rows.push(row), leases, timestamp_ms)
            == purged(rows, leases, timestamp_ms).push(row.id),
        !purgeable(row, leases, timestamp_ms) ==> {
            &&& purged(rows.push(row), leases, timestamp_ms) == purged(rows, leases, timestamp_ms)
            &&& purged_bytes(rows.push(row), leases, timestamp_ms) == purged_bytes(
                rows,
                leases,
                timestamp_ms,
            )
        },
        purgeable(row, leases, timestamp_ms) && row.committed_length >= 0 ==> {
            let sum = purged_bytes(rows, leases, timestamp_ms) + row.committed_length;
            purged_bytes(rows.push(row), leases, timestamp_ms) == (if sum <= u64::MAX {
                sum
            } else {
                u64::MAX as int
            })
        },
{
    assert(rows.push(row).drop_last() =~= rows);
}

/// A page is that of the result it was asked of: it has the metadata and the schema of the result, the
/// offset of the request, and the rows that the chunks give from there on, none behind the last row.
/// It is read exactly if the result may be read, its file has its length, its schema is sound and, where
/// the page begins before the last row, its chunks give rows.
pub proof fn law_page_is_that_of_its_result(
    id: String,
    request: PageRequest,
    timestamp_ms: i64,
    limits: ProtocolLimits,
    stored: Option<StoredResult>,
    file: ResultFile,
    first: SchemaRead,
    reads: Seq<ChunkRead>,
)
    ensures
        ({
            let outcome = result_page(
                id,
                request,
                timestamp_ms,
                limits,
                stored,
                file,
                first,
                reads,
            );
            let found = stored->0;
            let rows = page_rows(
                id,
                stored_schema(found, limits, first)->Ok_0.columns,
                limits,
                request,
                page_end(request, found.row_count),
                reads,
            );
            &&& outcome is Ok <==> {
                &&& page_source(id, request, timestamp_ms, stored) is Ok
                &&& file == ResultFile::Length(found.committed_length)
                &&& stored_schema(found, limits, first) is Ok
                &&& request.offset < found.row_count ==> rows is Ok && rows->Ok_0.len() > 0
            }
            &&& outcome matches Ok(page) ==> {
                &&& page.metadata.id == found.id
                &&& page.metadata.row_count == found.row_count
                &&& page.metadata.truncated_by_max_rows == found.truncated_by_max_rows
                &&& page.metadata.truncated_by_max_result_bytes == found.truncated_by_max_result_bytes
                &&& page.metadata.created_at_ms == found.created_at_ms
                &&& page.metadata.expires_at_ms == found.expires_at_ms
                &&& first.schema == Some(page.schema)
                &&& page.offset == request.offset
                &&& request.offset >= found.row_count ==> page.rows.len() == 0
                &&& request.offset < found.row_count ==> rows == Ok::<Seq<JdbcRow>, StorageError>(
                    page.rows,
                )
                &&& page.has_more <==> request.offset + page.rows.len() < found.row_count
            }
        }),
{
}

/// Every id is that of a result exactly if each of them is a UUID.
pub proof fn law_ids_are_valid_one_by_one(ids: Seq<String>, id: String)
    ensures
        ids_valid(Seq::empty()),
        ids_valid(ids.push(id)) <==> ids_valid(ids) && uuid_text(id@) is Some,
{
    let longer = ids.push(id);
    if ids_valid(longer) {
        assert forall|i: int| 0 <= i < ids.len() implies uuid_text((#[trigger] ids[i])@) is Some by {
            assert(longer[i] == ids[i]);
        }
        assert(longer[ids.len() as int] == id);
    }
}

/// A recovery that settles every result removes the files that belong to none, and reports how many
/// results it removed as unfinished, expired and damaged, how many files it shortened and how many it
/// removed. One that meets a result it cannot settle removes no such file and ends with the failure.
pub proof fn law_recovery_reports_what_it_does(
    recovery: ResultRecovery,
    results: Seq<CheckedResult>,
    files: Seq<String>,
    timestamp_ms: i64,
)
    requires
        results_recovered(recovery, results, files, timestamp_ms),
    ensures
        all_disposed(results, timestamp_ms) matches Err(error) ==> recovery.outcome == Err::<
            RecoveryReport,
            StorageError,
        >(error) && recovery.orphans@.len() == 0,
        all_disposed(results, timestamp_ms) matches Ok(dispositions) ==> {
            &&& recovery.orphans@ == files.filter(|name: String| unindexed(results, name@))
            &&& recovery.outcome matches Ok(report) && {
                &&& report.writing_removed == times(dispositions, Disposition::Writing)
                &&& report.expired_removed == times(dispositions, Disposition::Expired)
                &&& report.corrupt_removed == times(dispositions, Disposition::Corrupt)
                &&& report.tails_truncated == times(
                    dispositions,
                    Disposition::Kept { tail_truncated: true },
                )
                &&& report.orphan_files_removed == recovery.orphans@.len()
            }
        },
        all_disposed(results, timestamp_ms) is Ok ==> recovery.removed@ == results_settled(
            results,
            timestamp_ms,
            false,
        ).map_values(|checked: CheckedResult| checked.result.id),
{
}

/// Recovery removes each result that it does not keep, in order, and no other, and settles one more
/// result after those before it.
pub proof fn law_recovery_removes_what_it_does_not_keep(
    results: Seq<CheckedResult>,
    checked: CheckedResult,
    timestamp_ms: i64,
)
    ensures
        results_settled(Seq::empty(), timestamp_ms, false).len() == 0,
        all_disposed(Seq::empty(), timestamp_ms) == Ok::<Seq<Disposition>, StorageError>(
            Seq::empty(),
        ),
        ({
            let longer = results.push(checked);
            let outcome = disposed(checked.result, timestamp_ms, checked.check);
            let kept = outcome matches Ok(disposition) && disposition is Kept;
            &&& kept ==> results_settled(longer, timestamp_ms, false) == results_settled(
                results,
                timestamp_ms,
                false,
            )
            &&& !kept ==> results_settled(longer, timestamp_ms, false) == results_settled(
                results,
                timestamp_ms,
                false,
            ).push(checked)
            &&& all_disposed(results, timestamp_ms) is Err ==> all_disposed(longer, timestamp_ms)
                == all_disposed(results, timestamp_ms)
            &&& all_disposed(results, timestamp_ms) is Ok && outcome is Err ==> all_disposed(
                longer,
                timestamp_ms,
            ) == Err::<Seq<Disposition>, StorageError>(outcome->Err_0)
            &&& all_disposed(results, timestamp_ms) is Ok && outcome is Ok && (!kept || uuid_text(
                checked.result.id@,
            ) is Some) ==> all_disposed(longer, timestamp_ms) == Ok::<
                Seq<Disposition>,
                StorageError,
            >(all_disposed(results, timestamp_ms)->Ok_0.push(outcome->Ok_0))
        }),
{
    assert(results.push(checked).drop_last() =~= results);
}

} // verus!
