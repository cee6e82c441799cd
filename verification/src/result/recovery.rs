use vstd::prelude::*;

use crate::error::StorageError;
use crate::identity::uuid_text;
use crate::result::batch::{validate_indexed_batch, ProtocolLimits, MAX_BATCH_BYTES};
use crate::result::frame::{
    check_frame_index, corrupt, corrupted, frame_index_check, open_frame, require_decoded,
};
use crate::result::naming::{is_named, is_result_file_name, named, names_result, result_file_name};
use crate::result::page::{chunk_batch, ChunkRead};
use crate::result::read::{read_schema, stored_schema, SchemaRead};
use crate::result::rows::{
    decode_result, result_row, ChunkIndex, RawResult, ResultState, StoredResult,
    RESULT_FORMAT_VERSION,
};
use crate::storage::Storage;
use crate::text::same_text;

verus! {

/// Expired-result cleanup summary.
#[derive(Debug, Clone, Copy, PartialEq, Eq, Default, Structural)]
pub struct PurgeReport {
    /// Expired result records removed from `SQLite`.
    pub results_removed: usize,
    /// Indexed bytes made reclaimable.
    pub indexed_bytes_removed: u64,
    /// Unindexed result files removed from the results directory.
    pub orphan_files_removed: usize,
}

/// Idempotent retained-result startup recovery summary.
#[derive(Debug, Clone, Copy, PartialEq, Eq, Default, Structural)]
pub struct RecoveryReport {
    /// Incomplete writing results removed.
    pub writing_removed: usize,
    /// Expired completed results removed.
    pub expired_removed: usize,
    /// Completed results evicted after validation failed.
    pub corrupt_removed: usize,
    /// Unreferenced result files removed.
    pub orphan_files_removed: usize,
    /// Completed files whose unindexed tail was truncated.
    pub tails_truncated: usize,
}

/// Where the next chunk of a result has to start.
#[derive(Debug, Clone, Copy, PartialEq, Eq, Structural)]
pub struct ChunkCursor {
    /// Position among the chunks.
    pub ordinal: u64,
    /// Offset in the file.
    pub file_offset: u64,
    /// First row.
    pub row: u64,
}

/// What recovery does with a result.
#[derive(Debug, Clone, Copy, PartialEq, Eq, Structural)]
pub enum Disposition {
    /// It was never completed and is removed.
    Writing,
    /// It has expired and is removed.
    Expired,
    /// It is damaged and is removed.
    Corrupt,
    /// It is kept.
    Kept {
        /// Whether its file had more bytes than the index covers.
        tail_truncated: bool,
    },
}

/// A result of the index, and what its validation gave.
pub struct CheckedResult {
    /// The result.
    pub result: StoredResult,
    /// Whether it is sound, and if so, whether its file had more bytes than the index covers.
    pub check: Result<bool, StorageError>,
}

/// What recovery does to the retained results of a store.
pub struct ResultRecovery {
    /// The ids of the results that it removes with their files, in order.
    pub removed: Vec<String>,
    /// The result files without a result, which it removes once all results are settled.
    pub orphans: Vec<String>,
    /// Its summary, or the failure that ends it after the removals.
    pub outcome: Result<RecoveryReport, StorageError>,
}

/// A row of the index with what decides its removal.
pub struct ExpiryRow {
    /// Opaque result id.
    pub id: String,
    /// Length of the file that the index covers.
    pub committed_length: i64,
    /// Persisted state.
    pub state: String,
    /// Expiry time as Unix epoch milliseconds.
    pub expires_at_ms: i64,
}

/// The file of a complete result covers its index; `true` if it has more bytes than that.
pub open spec fn file_cover_check(result: StoredResult, file_length: Option<u64>) -> Result<
    bool,
    StorageError,
> {
    if result.format_version != RESULT_FORMAT_VERSION {
        Err(
            StorageError::UnsupportedResultFormat {
                id: result.id,
                found: result.format_version,
                supported: RESULT_FORMAT_VERSION,
            },
        )
    } else if uuid_text(result.id@) is None {
        Err(StorageError::InvalidResult("result id is invalid"))
    } else {
        match file_length {
            None => Err(corrupted(result.id, "result file is missing")),
            Some(actual) => if actual < result.committed_length {
                Err(corrupted(result.id, "result file is shorter than its index"))
            } else {
                Ok(actual > result.committed_length)
            },
        }
    }
}

/// The chunk starts where the one before it ends.
pub open spec fn chunk_continues(cursor: ChunkCursor, chunk: ChunkIndex) -> bool {
    &&& chunk.ordinal == cursor.ordinal
    &&& chunk.file_offset == cursor.file_offset
    &&& chunk.start_row == cursor.row
}

/// Where the next chunk has to start, once this one is found sound.
pub open spec fn chunk_validated(
    id: String,
    columns: usize,
    limits: ProtocolLimits,
    cursor: ChunkCursor,
    read: ChunkRead,
) -> Result<ChunkCursor, StorageError> {
    if !chunk_continues(cursor, read.chunk) {
        Err(corrupted(id, "result chunk index is not contiguous"))
    } else {
        match chunk_batch(id, columns, limits, read) {
            Err(error) => Err(error),
            Ok(_) => if cursor.ordinal == u64::MAX {
                Err(StorageError::NumericRange("result chunk ordinal"))
            } else if cursor.file_offset + read.chunk.frame_length > u64::MAX {
                Err(StorageError::NumericRange("result file offset"))
            } else {
                Ok(
                    ChunkCursor {
                        ordinal: (cursor.ordinal + 1) as u64,
                        file_offset: (cursor.file_offset + read.chunk.frame_length) as u64,
                        row: read.chunk.end_row_exclusive,
                    },
                )
            },
        }
    }
}

/// Where the chunks end, if all of them are sound.
pub open spec fn chunks_validated(
    id: String,
    columns: usize,
    limits: ProtocolLimits,
    cursor: ChunkCursor,
    reads: Seq<ChunkRead>,
) -> Result<ChunkCursor, StorageError>
    decreases reads.len(),
{
    if reads.len() == 0 {
        Ok(cursor)
    } else {
        match chunk_validated(id, columns, limits, cursor, reads[0]) {
            Err(error) => Err(error),
            Ok(next) => chunks_validated(id, columns, limits, next, reads.drop_first()),
        }
    }
}

/// Where the first chunk of a result starts.
pub open spec fn first_chunk(result: StoredResult) -> ChunkCursor {
    ChunkCursor { ordinal: 0, file_offset: result.schema_frame_length, row: 0 }
}

/// The chunks end where the row of the result says.
pub open spec fn aggregate_check(result: StoredResult, cursor: ChunkCursor) -> Result<
    (),
    StorageError,
> {
    if cursor.file_offset != result.committed_length || cursor.row != result.row_count {
        Err(corrupted(result.id, "result aggregate does not match its chunk index"))
    } else {
        Ok(())
    }
}

/// Whether a complete result is sound; `true` if its file has more bytes than the index covers.
pub open spec fn result_validated(
    result: StoredResult,
    limits: ProtocolLimits,
    file_length: Option<u64>,
    first: SchemaRead,
    reads: Seq<ChunkRead>,
) -> Result<bool, StorageError> {
    match file_cover_check(result, file_length) {
        Err(error) => Err(error),
        Ok(tail_truncated) => match stored_schema(result, limits, first) {
            Err(error) => Err(error),
            Ok(schema) => match chunks_validated(
                result.id,
                schema.columns,
                limits,
                first_chunk(result),
                reads,
            ) {
                Err(error) => Err(error),
                Ok(cursor) => match aggregate_check(result, cursor) {
                    Err(error) => Err(error),
                    Ok(_) => Ok(tail_truncated),
                },
            },
        },
    }
}

/// What recovery does with a result; `check` is what its validation gave, and counts only for a
/// complete result that has not expired.
pub open spec fn disposed(
    result: StoredResult,
    timestamp_ms: i64,
    check: Result<bool, StorageError>,
) -> Result<Disposition, StorageError> {
    if result.state == ResultState::Writing {
        Ok(Disposition::Writing)
    } else if result.expires_at_ms <= timestamp_ms {
        Ok(Disposition::Expired)
    } else {
        match check {
            Ok(tail_truncated) => Ok(Disposition::Kept { tail_truncated }),
            Err(error) => if error is CorruptResult {
                Ok(Disposition::Corrupt)
            } else {
                Err(error)
            },
        }
    }
}

/// What recovery does with each result, or the failure of the first that it cannot settle.
pub open spec fn all_disposed(results: Seq<CheckedResult>, timestamp_ms: i64) -> Result<
    Seq<Disposition>,
    StorageError,
>
    decreases results.len(),
{
    if results.len() == 0 {
        Ok(Seq::empty())
    } else {
        match all_disposed(results.drop_last(), timestamp_ms) {
            Err(error) => Err(error),
            Ok(before) => {
                let last = results.last();
                match disposed(last.result, timestamp_ms, last.check) {
                    Err(error) => Err(error),
                    Ok(disposition) => if disposition is Kept && uuid_text(last.result.id@) is None {
                        Err(StorageError::InvalidResult("result id is invalid"))
                    } else {
                        Ok(before.push(disposition))
                    },
                }
            },
        }
    }
}

/// Recovery keeps the result.
pub open spec fn result_kept(checked: CheckedResult, timestamp_ms: i64) -> bool {
    disposed(checked.result, timestamp_ms, checked.check) matches Ok(disposition)
        && disposition is Kept
}

/// The results that recovery keeps, or those that it removes, in order.
pub open spec fn results_settled(
    results: Seq<CheckedResult>,
    timestamp_ms: i64,
    kept: bool,
) -> Seq<CheckedResult>
    decreases results.len(),
{
    if results.len() == 0 {
        Seq::empty()
    } else {
        let before = results_settled(results.drop_last(), timestamp_ms, kept);
        if result_kept(results.last(), timestamp_ms) == kept {
            before.push(results.last())
        } else {
            before
        }
    }
}

/// The names of the files of results, in order.
pub open spec fn result_files(results: Seq<CheckedResult>) -> Seq<Seq<char>>
    decreases results.len(),
{
    if results.len() == 0 {
        Seq::empty()
    } else {
        match uuid_text(results.last().result.id@) {
            Some(uuid) => result_files(results.drop_last()).push(named(uuid)),
            None => result_files(results.drop_last()),
        }
    }
}

/// A result file that belongs to none of the results.
pub open spec fn unindexed(results: Seq<CheckedResult>, name: Seq<char>) -> bool {
    names_result(name) && !result_files(results).contains(name)
}

/// The results before the first one that recovery cannot settle, or all of them.
pub open spec fn settled_before(results: Seq<CheckedResult>, timestamp_ms: i64) -> Seq<
    CheckedResult,
>
    decreases results.len(),
{
    if results.len() == 0 || all_disposed(results, timestamp_ms) is Ok {
        results
    } else {
        settled_before(results.drop_last(), timestamp_ms)
    }
}

/// The summary of a recovery that settles every result.
pub open spec fn recovery_summed(
    report: RecoveryReport,
    dispositions: Seq<Disposition>,
    orphans: nat,
) -> bool {
    &&& report.writing_removed == times(dispositions, Disposition::Writing)
    &&& report.expired_removed == times(dispositions, Disposition::Expired)
    &&& report.corrupt_removed == times(dispositions, Disposition::Corrupt)
    &&& report.tails_truncated == times(dispositions, Disposition::Kept { tail_truncated: true })
    &&& report.orphan_files_removed == orphans
}

/// What recovery does to the retained results of a store: it settles them in order, and the first
/// one that it cannot settle ends it, with what came before removed and no further file touched.
pub open spec fn results_recovered(
    recovery: ResultRecovery,
    results: Seq<CheckedResult>,
    files: Seq<String>,
    timestamp_ms: i64,
) -> bool {
    &&& recovery.removed@ == results_settled(
        settled_before(results, timestamp_ms),
        timestamp_ms,
        false,
    ).map_values(|checked: CheckedResult| checked.result.id)
    &&& match all_disposed(results, timestamp_ms) {
        Ok(dispositions) => {
            &&& recovery.orphans@ == files.filter(|name: String| unindexed(results, name@))
            &&& recovery.outcome matches Ok(report) && recovery_summed(
                report,
                dispositions,
                recovery.orphans@.len(),
            )
        },
        Err(error) => {
            &&& recovery.orphans@.len() == 0
            &&& recovery.outcome == Err::<RecoveryReport, StorageError>(error)
        },
    }
}

/// How often a disposition was reached.
pub open spec fn times(dispositions: Seq<Disposition>, wanted: Disposition) -> nat
    decreases dispositions.len(),
{
    if dispositions.len() == 0 {
        0
    } else {
        times(dispositions.drop_last(), wanted) + (if dispositions.last() == wanted {
            1nat
        } else {
            0nat
        })
    }
}

/// A row of another format stops recovery before anything is removed.
pub open spec fn results_loaded(raw: Seq<RawResult>) -> Result<Seq<StoredResult>, StorageError> {
    match first_unsupported(raw) {
        Some(error) => Err(error),
        None => results_decoded(raw),
    }
}

/// The failure of the first row of another format.
pub open spec fn first_unsupported(raw: Seq<RawResult>) -> Option<StorageError>
    decreases raw.len(),
{
    if raw.len() == 0 {
        None
    } else if raw[0].format_version != RESULT_FORMAT_VERSION {
        Some(
            StorageError::UnsupportedResultFormat {
                id: raw[0].id,
                found: raw[0].format_version,
                supported: RESULT_FORMAT_VERSION,
            },
        )
    } else {
        first_unsupported(raw.drop_first())
    }
}

/// The rows of results, or the failure of the first broken one.
pub open spec fn results_decoded(raw: Seq<RawResult>) -> Result<Seq<StoredResult>, StorageError>
    decreases raw.len(),
{
    if raw.len() == 0 {
        Ok(Seq::empty())
    } else {
        match results_decoded(raw.drop_last()) {
            Err(error) => Err(error),
            Ok(rows) => match result_row(raw.last()) {
                Err(error) => Err(error),
                Ok(row) => Ok(rows.push(row)),
            },
        }
    }
}

/// A writer of the process holds the result.
pub open spec fn leased(leases: Seq<String>, id: Seq<char>) -> bool {
    exists|i: int| 0 <= i < leases.len() && (#[trigger] leases[i])@ == id
}

/// The row has expired, and no writer of the process holds it.
pub open spec fn purgeable(row: ExpiryRow, leases: Seq<String>, timestamp_ms: i64) -> bool {
    &&& row.expires_at_ms <= timestamp_ms
    &&& !(row.state@ == "writing"@ && leased(leases, row.id@))
}

/// The ids of the rows that are purged, in order.
pub open spec fn purged(rows: Seq<ExpiryRow>, leases: Seq<String>, timestamp_ms: i64) -> Seq<String>
    decreases rows.len(),
{
    if rows.len() == 0 {
        Seq::empty()
    } else if purgeable(rows.last(), leases, timestamp_ms) {
        purged(rows.drop_last(), leases, timestamp_ms).push(rows.last().id)
    } else {
        purged(rows.drop_last(), leases, timestamp_ms)
    }
}

/// The sum of two counts, or the largest count if the sum is larger.
pub open spec fn saturated(left: u64, right: int) -> u64 {
    if left + right > u64::MAX {
        u64::MAX
    } else {
        (left + right) as u64
    }
}

/// Indexed bytes of the rows that are purged.
pub open spec fn purged_bytes(rows: Seq<ExpiryRow>, leases: Seq<String>, timestamp_ms: i64) -> u64
    decreases rows.len(),
{
    if rows.len() == 0 {
        0
    } else {
        let before = purged_bytes(rows.drop_last(), leases, timestamp_ms);
        if purgeable(rows.last(), leases, timestamp_ms) && rows.last().committed_length > 0 {
            saturated(before, rows.last().committed_length as int)
        } else {
            before
        }
    }
}

/// Every id is the id of a result.
pub open spec fn ids_valid(ids: Seq<String>) -> bool {
    forall|i: int| 0 <= i < ids.len() ==> uuid_text((#[trigger] ids[i])@) is Some
}

/// The name is that of the file of one of the results.
pub open spec fn file_referenced(ids: Seq<String>, name: Seq<char>) -> bool {
    exists|i: int| 0 <= i < ids.len() && named(uuid_text((#[trigger] ids[i])@)->0) == name
}

/// A result file that belongs to none of the results.
pub open spec fn orphaned(ids: Seq<String>, name: Seq<char>) -> bool {
    names_result(name) && !file_referenced(ids, name)
}

impl ChunkCursor {
    /// Checks the place of a chunk before its frame is read.
    pub fn check_chunk(&self, id: &String, chunk: &ChunkIndex) -> (result: Result<(), StorageError>)
        ensures
            result == (if !chunk_continues(*self, *chunk) {
                Err::<(), StorageError>(corrupted(*id, "result chunk index is not contiguous"))
            } else {
                frame_index_check(*id, chunk.frame_length, chunk.sha256@, MAX_BATCH_BYTES)
            }),
    {
        if chunk.ordinal != self.ordinal || chunk.file_offset != self.file_offset || chunk.start_row
            != self.row {
            return Err(corrupt(id, "result chunk index is not contiguous"));
        }
        check_frame_index(id, chunk.frame_length, &chunk.sha256, MAX_BATCH_BYTES)
    }

    /// Checks a chunk, and moves to where the next one has to start.
    pub fn advance(
        &self,
        id: &String,
        columns: usize,
        limits: &ProtocolLimits,
        read: ChunkRead,
    ) -> (result: Result<ChunkCursor, StorageError>)
        ensures
            result == chunk_validated(*id, columns, *limits, *self, read),
    {
        self.check_chunk(id, &read.chunk)?;
        open_frame(id, read.chunk.frame_length, &read.chunk.sha256, &read.frame, MAX_BATCH_BYTES)?;
        let batch = require_decoded(id, read.batch)?;
        validate_indexed_batch(&batch, &read.chunk, columns, limits, id)?;
        let ordinal: u64 = match self.ordinal.checked_add(1) {
            Some(ordinal) => ordinal,
            None => return Err(StorageError::NumericRange("result chunk ordinal")),
        };
        let file_offset: u64 = match self.file_offset.checked_add(read.chunk.frame_length) {
            Some(file_offset) => file_offset,
            None => return Err(StorageError::NumericRange("result file offset")),
        };
        Ok(ChunkCursor { ordinal, file_offset, row: read.chunk.end_row_exclusive })
    }
}

/// Checks that the file of a complete result covers its index, and tells whether it has more bytes.
pub fn check_file_cover(result: &StoredResult, file_length: Option<u64>) -> (covered: Result<
    bool,
    StorageError,
>)
    ensures
        covered == file_cover_check(*result, file_length),
{
    if result.format_version != RESULT_FORMAT_VERSION {
        return Err(
            StorageError::UnsupportedResultFormat {
                id: result.id.clone(),
                found: result.format_version,
                supported: RESULT_FORMAT_VERSION,
            },
        );
    }
    result_file_name(result.id.as_str())?;
    match file_length {
        None => Err(corrupt(&result.id, "result file is missing")),
        Some(actual) => if actual < result.committed_length {
            Err(corrupt(&result.id, "result file is shorter than its index"))
        } else {
            Ok(actual > result.committed_length)
        },
    }
}

/// Checks that the chunks end where the row of the result says.
pub fn check_aggregate(result: &StoredResult, cursor: &ChunkCursor) -> (checked: Result<
    (),
    StorageError,
>)
    ensures
        checked == aggregate_check(*result, *cursor),
{
    if cursor.file_offset != result.committed_length || cursor.row != result.row_count {
        return Err(corrupt(&result.id, "result aggregate does not match its chunk index"));
    }
    Ok(())
}

/// Returns where the first chunk of a result starts.
pub fn first_chunk_cursor(result: &StoredResult) -> (cursor: ChunkCursor)
    ensures
        cursor == first_chunk(*result),
{
    ChunkCursor { ordinal: 0, file_offset: result.schema_frame_length, row: 0 }
}

/// Checks a complete result against its file.
pub fn validate_completed_result(
    result: &StoredResult,
    limits: &ProtocolLimits,
    file_length: Option<u64>,
    first: SchemaRead,
    reads: Vec<ChunkRead>,
) -> (validated: Result<bool, StorageError>)
    ensures
        validated == result_validated(*result, *limits, file_length, first, reads@),
{
    let tail_truncated = check_file_cover(result, file_length)?;
    let schema = read_schema(result, limits, first)?;
    let ghost all = reads@;
    let ghost columns = schema.columns;
    let ghost goal = chunks_validated(result.id, columns, *limits, first_chunk(*result), all);
    let mut cursor = first_chunk_cursor(result);
    proof {
        assert(all.skip(0) =~= all);
    }
    for read in it: reads
        invariant
            it.seq() == all,
            columns == schema.columns,
            goal == chunks_validated(
                result.id,
                columns,
                *limits,
                cursor,
                all.skip(it.index() as int),
            ),
            goal is Err ==> result_validated(*result, *limits, file_length, first, all) == Err::<
                bool,
                StorageError,
            >(goal->Err_0),
    {
        proof {
            assert(all.skip(it.index() as int)[0] == read);
            assert(all.skip(it.index() as int).drop_first() =~= all.skip(it.index() + 1));
        }
        cursor = cursor.advance(&result.id, schema.columns, limits, read)?;
    }
    check_aggregate(result, &cursor)?;
    Ok(tail_truncated)
}

impl Storage {
    /// Reads the rows of all results, and refuses all of them if one has another format.
    pub fn load_results(raw: Vec<RawResult>) -> (result: Result<Vec<StoredResult>, StorageError>)
        ensures
            match result {
                Ok(rows) => results_loaded(raw@) == Ok::<Seq<StoredResult>, StorageError>(rows@),
                Err(error) => results_loaded(raw@) == Err::<Seq<StoredResult>, StorageError>(error),
            },
    {
        let mut i: usize = 0;
        proof {
            assert(raw@.skip(0) =~= raw@);
        }
        while i < raw.len()
            invariant
                i <= raw@.len(),
                first_unsupported(raw@) == first_unsupported(raw@.skip(i as int)),
            decreases raw@.len() - i,
        {
            proof {
                assert(raw@.skip(i as int).drop_first() =~= raw@.skip(i + 1));
            }
            if raw[i].format_version != RESULT_FORMAT_VERSION {
                return Err(
                    StorageError::UnsupportedResultFormat {
                        id: raw[i].id.clone(),
                        found: raw[i].format_version,
                        supported: RESULT_FORMAT_VERSION,
                    },
                );
            }
            i = i + 1;
        }
        proof {
            assert(raw@.skip(raw@.len() as int).len() == 0);
        }
        let ghost all = raw@;
        let mut rows: Vec<StoredResult> = Vec::new();
        proof {
            assert(rows@ =~= Seq::empty());
            assert(all.take(0).len() == 0);
        }
        for row in it: raw
            invariant
                it.seq() == all,
                first_unsupported(all) is None,
                results_decoded(all.take(it.index() as int)) == Ok::<
                    Seq<StoredResult>,
                    StorageError,
                >(rows@),
        {
            proof {
                let next = all.take(it.index() + 1);
                assert(next.drop_last() =~= all.take(it.index() as int));
                assert(next.last() == row);
            }
            match decode_result(row) {
                Ok(decoded) => rows.push(decoded),
                Err(error) => {
                    proof {
                        lemma_decoding_stops(all, it.index() + 1);
                    }
                    return Err(error);
                },
            }
        }
        proof {
            assert(all.take(all.len() as int) =~= all);
        }
        Ok(rows)
    }

    /// Decides what recovery does with a result.
    pub fn settle_result(
        result: &StoredResult,
        timestamp_ms: i64,
        check: Result<bool, StorageError>,
    ) -> (settled: Result<Disposition, StorageError>)
        ensures
            settled == disposed(*result, timestamp_ms, check),
    {
        if result.state == ResultState::Writing {
            return Ok(Disposition::Writing);
        }
        if result.expires_at_ms <= timestamp_ms {
            return Ok(Disposition::Expired);
        }
        match check {
            Ok(tail_truncated) => Ok(Disposition::Kept { tail_truncated }),
            Err(StorageError::CorruptResult { .. }) => Ok(Disposition::Corrupt),
            Err(error) => Err(error),
        }
    }

    /// Sums up a recovery.
    pub fn recovery_report(dispositions: &Vec<Disposition>, orphan_files_removed: usize) -> (result:
        RecoveryReport)
        ensures
            result.writing_removed == times(dispositions@, Disposition::Writing),
            result.expired_removed == times(dispositions@, Disposition::Expired),
            result.corrupt_removed == times(dispositions@, Disposition::Corrupt),
            result.tails_truncated == times(
                dispositions@,
                Disposition::Kept { tail_truncated: true },
            ),
            result.orphan_files_removed == orphan_files_removed,
    {
        let mut report = RecoveryReport {
            writing_removed: 0,
            expired_removed: 0,
            corrupt_removed: 0,
            orphan_files_removed,
            tails_truncated: 0,
        };
        let mut i: usize = 0;
        proof {
            assert(dispositions@.take(0).len() == 0);
        }
        while i < dispositions.len()
            invariant
                i <= dispositions@.len(),
                report.writing_removed == times(
                    dispositions@.take(i as int),
                    Disposition::Writing,
                ),
                report.expired_removed == times(
                    dispositions@.take(i as int),
                    Disposition::Expired,
                ),
                report.corrupt_removed == times(
                    dispositions@.take(i as int),
                    Disposition::Corrupt,
                ),
                report.tails_truncated == times(
                    dispositions@.take(i as int),
                    Disposition::Kept { tail_truncated: true },
                ),
                report.orphan_files_removed == orphan_files_removed,
                report.writing_removed <= i,
                report.expired_removed <= i,
                report.corrupt_removed <= i,
                report.tails_truncated <= i,
            decreases dispositions@.len() - i,
        {
            proof {
                assert(dispositions@.take(i + 1).drop_last() =~= dispositions@.take(i as int));
            }
            match dispositions[i] {
                Disposition::Writing => {
                    report.writing_removed = report.writing_removed + 1;
                },
                Disposition::Expired => {
                    report.expired_removed = report.expired_removed + 1;
                },
                Disposition::Corrupt => {
                    report.corrupt_removed = report.corrupt_removed + 1;
                },
                Disposition::Kept { tail_truncated } => {
                    if tail_truncated {
                        report.tails_truncated = report.tails_truncated + 1;
                    }
                },
            }
            i = i + 1;
        }
        proof {
            assert(dispositions@.take(dispositions@.len() as int) =~= dispositions@);
        }
        report
    }

    /// Decides what recovery does to the retained results of a store: to the results of the index and
    /// to the files of the results directory.
    pub fn recover_at(results: Vec<CheckedResult>, files: &Vec<String>, timestamp_ms: i64) -> (result:
        ResultRecovery)
        ensures
            results_recovered(result, results@, files@, timestamp_ms),
    {
        let ghost all = results@;
        let ghost id_of = |checked: CheckedResult| checked.result.id;
        let mut dispositions: Vec<Disposition> = Vec::new();
        let mut removed: Vec<String> = Vec::new();
        let mut names: Vec<String> = Vec::new();
        proof {
            assert(all.take(0).len() == 0);
            assert(dispositions@ =~= Seq::empty());
            assert(removed@ =~= Seq::<CheckedResult>::empty().map_values(id_of));
        }
        for checked in it: results
            invariant
                it.seq() == all,
                id_of == (|checked: CheckedResult| checked.result.id),
                all_disposed(all.take(it.index() as int), timestamp_ms) == Ok::<
                    Seq<Disposition>,
                    StorageError,
                >(dispositions@),
                removed@ == results_settled(
                    all.take(it.index() as int),
                    timestamp_ms,
                    false,
                ).map_values(id_of),
                names@.len() == result_files(all.take(it.index() as int)).len(),
                forall|j: int|
                    0 <= j < names@.len() ==> (#[trigger] names@[j])@ == result_files(
                        all.take(it.index() as int),
                    )[j],
        {
            let ghost before = all.take(it.index() as int);
            let ghost next = all.take(it.index() + 1);
            proof {
                assert(next.drop_last() =~= before);
                assert(next.last() == checked);
                assert(results_settled(before, timestamp_ms, false).push(checked).map_values(id_of)
                    =~= results_settled(before, timestamp_ms, false).map_values(id_of).push(
                    checked.result.id,
                ));
            }
            let disposition = match Storage::settle_result(
                &checked.result,
                timestamp_ms,
                checked.check,
            ) {
                Ok(disposition) => disposition,
                Err(error) => {
                    proof {
                        lemma_disposing_stops(all, timestamp_ms, it.index() + 1);
                    }
                    return ResultRecovery { removed, orphans: Vec::new(), outcome: Err(error) };
                },
            };
            let name = result_file_name(checked.result.id.as_str());
            if let Disposition::Kept { .. } = disposition {
                match name {
                    Ok(name) => names.push(name),
                    Err(error) => {
                        proof {
                            lemma_disposing_stops(all, timestamp_ms, it.index() + 1);
                        }
                        return ResultRecovery { removed, orphans: Vec::new(), outcome: Err(error) };
                    },
                }
            } else {
                if let Ok(name) = name {
                    names.push(name);
                }
                removed.push(checked.result.id);
            }
            dispositions.push(disposition);
        }
        proof {
            assert(all.take(all.len() as int) =~= all);
        }
        let mut orphans: Vec<String> = Vec::new();
        let mut k: usize = 0;
        let ghost wanted = |name: String| unindexed(all, name@);
        proof {
            reveal(Seq::filter);
            assert(files@.take(0).filter(wanted) =~= Seq::empty());
        }
        while k < files.len()
            invariant
                k <= files@.len(),
                names@.len() == result_files(all).len(),
                forall|j: int|
                    0 <= j < names@.len() ==> (#[trigger] names@[j])@ == result_files(all)[j],
                wanted == (|name: String| unindexed(all, name@)),
                orphans@ == files@.take(k as int).filter(wanted),
            decreases files@.len() - k,
        {
            proof {
                reveal(Seq::filter);
                assert(files@.take(k + 1).drop_last() =~= files@.take(k as int));
            }
            let name = &files[k];
            let known = is_named(&names, name.as_str());
            proof {
                if known {
                    let j = choose|j: int|
                        0 <= j < names@.len() && (#[trigger] names@[j])@ == name@;
                    assert(result_files(all)[j] == name@);
                } else if result_files(all).contains(name@) {
                    let j = choose|j: int|
                        0 <= j < result_files(all).len() && result_files(all)[j] == name@;
                    assert(names@[j]@ == name@);
                }
            }
            if is_result_file_name(name.as_str()) && !known {
                orphans.push(name.clone());
            }
            k = k + 1;
        }
        proof {
            assert(files@.take(files@.len() as int) =~= files@);
        }
        let report = Storage::recovery_report(&dispositions, orphans.len());
        ResultRecovery { removed, orphans, outcome: Ok(report) }
    }

    /// Decides which expired results are removed; a result that a writer of the process holds is
    /// not. Returns their ids and the indexed bytes that they free.
    pub fn purge_expired_at(rows: &Vec<ExpiryRow>, leases: &Vec<String>, timestamp_ms: i64) -> (
    result: (Vec<String>, u64))
        ensures
            result.0@ == purged(rows@, leases@, timestamp_ms),
            result.1 == purged_bytes(rows@, leases@, timestamp_ms),
    {
        let mut removed: Vec<String> = Vec::new();
        let mut bytes: u64 = 0;
        let mut i: usize = 0;
        proof {
            assert(rows@.take(0).len() == 0);
            assert(removed@ =~= Seq::empty());
        }
        while i < rows.len()
            invariant
                i <= rows@.len(),
                removed@ == purged(rows@.take(i as int), leases@, timestamp_ms),
                bytes == purged_bytes(rows@.take(i as int), leases@, timestamp_ms),
            decreases rows@.len() - i,
        {
            proof {
                assert(rows@.take(i + 1).drop_last() =~= rows@.take(i as int));
            }
            let row = &rows[i];
            if row.expires_at_ms <= timestamp_ms && !(same_text(row.state.as_str(), "writing")
                && is_named(leases, row.id.as_str())) {
                removed.push(row.id.clone());
                if row.committed_length > 0 {
                    bytes =
                    match bytes.checked_add(row.committed_length as u64) {
                        Some(total) => total,
                        None => u64::MAX,
                    };
                }
            }
            i = i + 1;
        }
        proof {
            assert(rows@.take(rows@.len() as int) =~= rows@);
        }
        (removed, bytes)
    }

    /// Finds the result files that belong to none of the results.
    pub fn orphan_files(ids: &Vec<String>, files: &Vec<String>) -> (result: Result<
        Vec<String>,
        StorageError,
    >)
        ensures
            match result {
                Ok(orphans) => {
                    &&& ids_valid(ids@)
                    &&& orphans@ == files@.filter(|name: String| orphaned(ids@, name@))
                },
                Err(error) => {
                    &&& !ids_valid(ids@)
                    &&& error == StorageError::InvalidResult("result id is invalid")
                },
            },
    {
        let mut referenced: Vec<String> = Vec::new();
        let mut i: usize = 0;
        while i < ids.len()
            invariant
                i <= ids@.len(),
                referenced@.len() == i,
                forall|j: int| 0 <= j < i ==> uuid_text((#[trigger] ids@[j])@) is Some,
                forall|j: int|
                    0 <= j < i ==> (#[trigger] referenced@[j])@ == named(
                        uuid_text(ids@[j]@)->0,
                    ),
            decreases ids@.len() - i,
        {
            match result_file_name(ids[i].as_str()) {
                Ok(name) => referenced.push(name),
                Err(error) => {
                    assert(uuid_text(ids@[i as int]@) is None);
                    return Err(error);
                },
            }
            i = i + 1;
        }
        let mut orphans: Vec<String> = Vec::new();
        let mut k: usize = 0;
        let ghost wanted = |name: String| orphaned(ids@, name@);
        proof {
            reveal(Seq::filter);
            assert(files@.take(0).filter(wanted) =~= Seq::empty());
        }
        while k < files.len()
            invariant
                k <= files@.len(),
                referenced@.len() == ids@.len(),
                ids_valid(ids@),
                wanted == (|name: String| orphaned(ids@, name@)),
                forall|j: int|
                    0 <= j < ids@.len() ==> (#[trigger] referenced@[j])@ == named(
                        uuid_text(ids@[j]@)->0,
                    ),
                orphans@ == files@.take(k as int).filter(wanted),
            decreases files@.len() - k,
        {
            proof {
                reveal(Seq::filter);
                assert(files@.take(k + 1).drop_last() =~= files@.take(k as int));
            }
            let name = &files[k];
            let known = is_named(&referenced, name.as_str());
            proof {
                if known {
                    let j = choose|j: int|
                        0 <= j < referenced@.len() && (#[trigger] referenced@[j])@ == name@;
                    assert(named(uuid_text(ids@[j]@)->0) == name@);
                } else if file_referenced(ids@, name@) {
                    let j = choose|j: int|
                        0 <= j < ids@.len() && named(uuid_text((#[trigger] ids@[j])@)->0) == name@;
                    assert(referenced@[j]@ == name@);
                }
            }
            if is_result_file_name(name.as_str()) && !known {
                orphans.push(name.clone());
            }
            k = k + 1;
        }
        proof {
            assert(files@.take(files@.len() as int) =~= files@);
        }
        Ok(orphans)
    }

    /// Sums up a purge.
    pub fn purge_report(removed: &Vec<String>, bytes: u64, orphans: &Vec<String>) -> (result:
        PurgeReport)
        ensures
            result == (PurgeReport {
                results_removed: removed@.len() as usize,
                indexed_bytes_removed: bytes,
                orphan_files_removed: orphans@.len() as usize,
            }),
    {
        PurgeReport {
            results_removed: removed.len(),
            indexed_bytes_removed: bytes,
            orphan_files_removed: orphans.len(),
        }
    }
}

proof fn lemma_disposing_stops(results: Seq<CheckedResult>, timestamp_ms: i64, count: int)
    requires
        0 < count <= results.len(),
        all_disposed(results.take(count - 1), timestamp_ms) is Ok,
        all_disposed(results.take(count), timestamp_ms) is Err,
    ensures
        all_disposed(results, timestamp_ms) == all_disposed(results.take(count), timestamp_ms),
        settled_before(results, timestamp_ms) == results.take(count - 1),
    decreases results.len(),
{
    if count == results.len() {
        assert(results.take(count) =~= results);
        assert(results.drop_last() =~= results.take(count - 1));
        reveal_with_fuel(settled_before, 2);
    } else {
        assert(results.drop_last().take(count) =~= results.take(count));
        assert(results.drop_last().take(count - 1) =~= results.take(count - 1));
        lemma_disposing_stops(results.drop_last(), timestamp_ms, count);
    }
}

proof fn lemma_decoding_stops(raw: Seq<RawResult>, count: int)
    requires
        0 <= count <= raw.len(),
        results_decoded(raw.take(count)) is Err,
    ensures
        results_decoded(raw) == results_decoded(raw.take(count)),
    decreases raw.len(),
{
    if count == raw.len() {
        assert(raw.take(count) =~= raw);
    } else {
        assert(raw.drop_last().take(count) =~= raw.take(count));
        lemma_decoding_stops(raw.drop_last(), count);
    }
}

} // verus!
