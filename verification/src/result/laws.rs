//! What holds of a result from its first batch to its last page.

use vstd::prelude::*;

use crate::digest::sha256_digest;
use crate::error::StorageError;
use crate::identity::uuid_text;
use crate::result::batch::{
    batch_check, indexed_batch_check, JdbcRow, ProtocolLimits, RowBatch, MAX_BATCH_BYTES,
};
use crate::result::frame::{framed, law_frame_round_trip, payload_check};
use crate::result::naming::{named, names_result};
use crate::result::page::{
    chunk_batch, chunk_taken, chunks_taken, empty_page, in_page, page_end, page_request_check,
    page_rows, rows_taken, ChunkRead, PageProgress, PageRequest,
};
use crate::result::quota::{FileEntry, IndexedBytes};
use crate::result::read::{stored_schema, SchemaRead};
use crate::result::recovery::{
    all_disposed, chunk_validated, chunks_validated, disposed, file_cover_check, first_chunk,
    first_unsupported, purgeable, purged, result_files, result_kept, result_validated,
    results_loaded, results_recovered, results_settled, settled_before, times, unindexed,
    CheckedResult, ChunkCursor, Disposition, ExpiryRow, RecoveryReport, ResultRecovery,
};
use crate::result::rows::{QueryCompleted, RawResult, StoredResult, RESULT_FORMAT_VERSION};
use crate::result::writer::{
    advanced, completion_check, stage_check, stages, writer_poisoned, StagedChunk, WriterState,
};

verus! {

/// All rows of batches, in order.
pub open spec fn all_rows(batches: Seq<RowBatch>) -> Seq<JdbcRow>
    decreases batches.len(),
{
    if batches.len() == 0 {
        Seq::empty()
    } else {
        all_rows(batches.drop_last()) + batches.last().rows@
    }
}

/// The file of a result: the frame of its schema, then the frames of its batches.
pub open spec fn result_file(schema: Seq<u8>, batches: Seq<RowBatch>) -> Seq<u8>
    decreases batches.len(),
{
    if batches.len() == 0 {
        framed(schema)
    } else {
        result_file(schema, batches.drop_last()) + framed(batches.last().payload@)
    }
}

/// Encoded bytes of rows.
pub open spec fn row_bytes(rows: Seq<JdbcRow>) -> int
    decreases rows.len(),
{
    if rows.len() == 0 {
        0
    } else {
        row_bytes(rows.drop_last()) + rows.last().encoded@.len()
    }
}

/// The chunk is found as the batch that was written behind the batches before it: indexed where
/// it lies in the file, its frame intact, and its payload decoding to the batch.
pub open spec fn found_as_written(
    read: ChunkRead,
    schema: Seq<u8>,
    before: Seq<RowBatch>,
    batch: RowBatch,
) -> bool {
    let file = result_file(schema, before);
    let frame = framed(batch.payload@);
    &&& read.chunk.ordinal == before.len()
    &&& read.chunk.file_offset == file.len()
    &&& read.chunk.frame_length == frame.len()
    &&& read.chunk.start_row == all_rows(before).len()
    &&& read.chunk.end_row_exclusive == all_rows(before).len() + batch.rows@.len()
    &&& read.chunk.row_count == batch.rows@.len()
    &&& read.chunk.sha256@ == sha256_digest(frame)
    &&& read.chunk.sha256@.len() == 32
    &&& read.frame@ == frame
    &&& read.batch == Some(batch)
}

/// Every chunk is found as it was written.
pub open spec fn run_found(reads: Seq<ChunkRead>, schema: Seq<u8>, batches: Seq<RowBatch>) -> bool {
    &&& reads.len() == batches.len()
    &&& forall|i: int|
        0 <= i < batches.len() ==> found_as_written(
            #[trigger] reads[i],
            schema,
            batches.take(i),
            batches[i],
        )
}

/// Every batch was accepted where it was written, and none of its rows is longer than a batch may
/// be.
pub open spec fn run_accepted(
    batches: Seq<RowBatch>,
    columns: usize,
    limits: ProtocolLimits,
) -> bool {
    &&& forall|i: int|
        0 <= i < batches.len() ==> {
            &&& batch_check(
                #[trigger] batches[i],
                all_rows(batches.take(i)).len() as u64,
                columns,
                limits,
            ) is Ok
            &&& payload_check(batches[i].payload@.len(), MAX_BATCH_BYTES) is Ok
            &&& all_rows(batches.take(i)).len() + batches[i].rows@.len() <= u64::MAX
        }
    &&& forall|i: int|
        0 <= i < all_rows(batches).len() ==> (#[trigger] all_rows(batches)[i]).encoded@.len()
            <= MAX_BATCH_BYTES
}

/// The writer stands behind the batches that it has written.
pub open spec fn writer_behind(writer: WriterState, schema: Seq<u8>, batches: Seq<RowBatch>) -> bool {
    &&& writer.next_ordinal == batches.len()
    &&& writer.committed_length == result_file(schema, batches).len()
    &&& writer.next_row == all_rows(batches).len()
}

/// A page holds consecutive rows from its offset on, as many as its bounds admit.
pub open spec fn page_is_exact(
    rows: Seq<JdbcRow>,
    all: Seq<JdbcRow>,
    request: PageRequest,
    end: u64,
) -> bool {
    let next = request.offset + rows.len();
    &&& 0 < rows.len() <= request.max_rows
    &&& next <= end
    &&& rows == all.subrange(request.offset as int, next)
    &&& row_bytes(rows) <= request.max_bytes
    &&& next < end ==> row_bytes(rows) + all[next].encoded@.len() > request.max_bytes
}

/// A chunk that is staged and then settled is found as it was written, and the writer stands
/// behind it.
pub proof fn law_appended_batch_continues_the_result(
    writer: WriterState,
    schema: Seq<u8>,
    batches: Seq<RowBatch>,
    reads: Seq<ChunkRead>,
    batch: RowBatch,
    staged: StagedChunk,
    read: ChunkRead,
)
    requires
        writer_behind(writer, schema, batches),
        run_found(reads, schema, batches),
        stages(staged, writer, batch),
        writer.next_ordinal < u64::MAX,
        read.chunk == staged.chunk,
        read.frame@ == staged.frame@,
        read.batch == Some(batch),
    ensures
        writer_behind(advanced(writer, staged), schema, batches.push(batch)),
        run_found(reads.push(read), schema, batches.push(batch)),
        result_file(schema, batches.push(batch)) == result_file(schema, batches) + staged.frame@,
{
    let longer = batches.push(batch);
    assert(longer.drop_last() =~= batches);
    assert forall|i: int| 0 <= i < longer.len() implies found_as_written(
        #[trigger] reads.push(read)[i],
        schema,
        longer.take(i),
        longer[i],
    ) by {
        if i < batches.len() {
            assert(longer.take(i) =~= batches.take(i));
            assert(reads.push(read)[i] == reads[i]);
        } else {
            assert(longer.take(i) =~= batches);
        }
    }
}

/// The index places each frame where the file holds it.
pub proof fn law_file_holds_every_frame(schema: Seq<u8>, batches: Seq<RowBatch>, i: int)
    requires
        0 <= i < batches.len(),
    ensures
        ({
            let start = result_file(schema, batches.take(i)).len() as int;
            let frame = framed(batches[i].payload@);
            &&& start + frame.len() <= result_file(schema, batches).len()
            &&& result_file(schema, batches).subrange(start, start + frame.len()) == frame
        }),
    decreases batches.len(),
{
    let start = result_file(schema, batches.take(i)).len() as int;
    let frame = framed(batches[i].payload@);
    let before = result_file(schema, batches.drop_last());
    let whole = result_file(schema, batches);
    if i == batches.len() - 1 {
        assert(batches.take(i) =~= batches.drop_last());
        assert(whole.subrange(start, start + frame.len()) =~= frame);
    } else {
        law_file_holds_every_frame(schema, batches.drop_last(), i);
        assert(batches.drop_last().take(i) =~= batches.take(i));
        assert(whole.subrange(start, start + frame.len()) =~= before.subrange(
            start,
            start + frame.len(),
        ));
    }
}

proof fn lemma_rows_of_batch(batches: Seq<RowBatch>, i: int)
    requires
        0 <= i < batches.len(),
    ensures
        ({
            let start = all_rows(batches.take(i)).len() as int;
            let count = batches[i].rows@.len() as int;
            &&& start + count <= all_rows(batches).len()
            &&& all_rows(batches.take(i + 1)).len() == start + count
            &&& all_rows(batches).subrange(start, start + count) == batches[i].rows@
        }),
    decreases batches.len(),
{
    let start = all_rows(batches.take(i)).len() as int;
    let count = batches[i].rows@.len() as int;
    assert(batches.take(i + 1).drop_last() =~= batches.take(i));
    if i == batches.len() - 1 {
        assert(batches.take(i) =~= batches.drop_last());
        assert(batches.take(i + 1) =~= batches);
        assert(all_rows(batches).subrange(start, start + count) =~= batches[i].rows@);
    } else {
        lemma_rows_of_batch(batches.drop_last(), i);
        assert(batches.drop_last().take(i) =~= batches.take(i));
        assert(all_rows(batches).subrange(start, start + count) =~= all_rows(
            batches.drop_last(),
        ).subrange(start, start + count));
    }
}

proof fn lemma_rows_grow(batches: Seq<RowBatch>, i: int, j: int)
    requires
        0 <= i <= j <= batches.len(),
    ensures
        all_rows(batches.take(i)).len() <= all_rows(batches.take(j)).len(),
    decreases j - i,
{
    if i < j {
        lemma_rows_of_batch(batches, i);
        lemma_rows_grow(batches, i + 1, j);
    }
}

/// The batch that holds a row.
spec fn batch_of_row(batches: Seq<RowBatch>, row: int) -> int
    decreases batches.len(),
{
    if batches.len() == 0 {
        0
    } else if row < all_rows(batches.drop_last()).len() {
        batch_of_row(batches.drop_last(), row)
    } else {
        batches.len() - 1
    }
}

proof fn lemma_batch_of_row(batches: Seq<RowBatch>, row: int)
    requires
        0 <= row < all_rows(batches).len(),
    ensures
        0 <= batch_of_row(batches, row) < batches.len(),
        all_rows(batches.take(batch_of_row(batches, row))).len() <= row,
        row < all_rows(batches.take(batch_of_row(batches, row) + 1)).len(),
    decreases batches.len(),
{
    if row < all_rows(batches.drop_last()).len() {
        lemma_batch_of_row(batches.drop_last(), row);
        let i = batch_of_row(batches, row);
        assert(batches.drop_last().take(i) =~= batches.take(i));
        assert(batches.drop_last().take(i + 1) =~= batches.take(i + 1));
    } else {
        assert(batches.take(batches.len() - 1) =~= batches.drop_last());
        assert(batches.take(batches.len() as int) =~= batches);
    }
}

proof fn lemma_filter_interval<A>(items: Seq<A>, wanted: spec_fn(A) -> bool, lo: int, hi: int)
    requires
        0 <= lo <= hi <= items.len(),
        forall|i: int| 0 <= i < items.len() ==> wanted(#[trigger] items[i]) == (lo <= i < hi),
    ensures
        items.filter(wanted) == items.subrange(lo, hi),
    decreases items.len(),
{
    reveal(Seq::filter);
    if items.len() == 0 {
        assert(items.filter(wanted) =~= items.subrange(lo, hi));
    } else {
        let shorter = items.drop_last();
        let last = items.len() - 1;
        assert(wanted(items[last]) == (lo <= last < hi));
        assert forall|i: int| 0 <= i < shorter.len() implies wanted(#[trigger] shorter[i]) == (lo
            <= i < hi) by {
            assert(shorter[i] == items[i]);
        }
        if hi == items.len() && lo < items.len() {
            lemma_filter_interval(shorter, wanted, lo, hi - 1);
            assert(items.subrange(lo, hi) =~= shorter.subrange(lo, hi - 1).push(items[last]));
        } else if lo == items.len() {
            lemma_filter_interval(shorter, wanted, lo - 1, lo - 1);
            assert(items.subrange(lo, hi) =~= shorter.subrange(lo - 1, lo - 1));
        } else {
            lemma_filter_interval(shorter, wanted, lo, hi);
            assert(items.subrange(lo, hi) =~= shorter.subrange(lo, hi));
        }
    }
}

/// The page has taken the rows from its offset up to a row, and is not full.
spec fn page_reached(page: PageProgress, all: Seq<JdbcRow>, request: PageRequest, at: int) -> bool {
    &&& request.offset <= at <= all.len()
    &&& page.rows == all.subrange(request.offset as int, at)
    &&& page.row_bytes == row_bytes(page.rows)
    &&& page.row_bytes <= request.max_bytes
    &&& !page.full
}

spec fn reached(request: PageRequest, row: int) -> int {
    if row < request.offset {
        request.offset as int
    } else {
        row
    }
}

proof fn lemma_rows_taken(
    id: String,
    request: PageRequest,
    end: u64,
    first: int,
    batch: Seq<JdbcRow>,
    page: PageProgress,
    all: Seq<JdbcRow>,
)
    requires
        page_request_check(request) is Ok,
        request.offset < end <= all.len(),
        end - request.offset <= request.max_rows,
        0 <= first,
        first + batch.len() <= all.len(),
        batch == all.subrange(first, first + batch.len()),
        page_reached(page, all, request, reached(request, first)),
        reached(request, first) <= end,
        forall|i: int|
            0 <= i < all.len() ==> (#[trigger] all[i]).encoded@.len() <= MAX_BATCH_BYTES,
    ensures
        ({
            let next = reached(request, first + batch.len());
            match rows_taken(id, request, end, first, batch, page) {
                Err(_) => false,
                Ok(after) => {
                    &&& after.next_row == page.next_row
                    &&& after.full ==> page_is_exact(after.rows, all, request, end)
                    &&& !after.full ==> page_reached(after, all, request, next) && next <= end
                },
            }
        }),
    decreases batch.len(),
{
    if batch.len() > 0 {
        let rest = batch.drop_first();
        assert(batch[0] == all[first]);
        assert(rest =~= all.subrange(first + 1, first + 1 + rest.len()));
        if first < request.offset {
            lemma_rows_taken(id, request, end, first + 1, rest, page, all);
        } else if first >= end || page.rows.len() >= request.max_rows {
            assert(page.rows.len() == first - request.offset);
        } else if page.row_bytes + batch[0].encoded@.len() > request.max_bytes {
            assert(page.rows.len() == first - request.offset);
            if page.rows.len() == 0 {
                assert(page.row_bytes == 0);
            }
        } else {
            let longer = page.rows.push(batch[0]);
            assert(longer.drop_last() =~= page.rows);
            assert(longer =~= all.subrange(request.offset as int, first + 1));
            lemma_rows_taken(
                id,
                request,
                end,
                first + 1,
                rest,
                PageProgress {
                    rows: longer,
                    row_bytes: page.row_bytes + batch[0].encoded@.len(),
                    ..page
                },
                all,
            );
        }
    }
}

proof fn lemma_chunk_is_sound(
    id: String,
    read: ChunkRead,
    schema: Seq<u8>,
    batches: Seq<RowBatch>,
    i: int,
    columns: usize,
    limits: ProtocolLimits,
)
    requires
        0 <= i < batches.len(),
        run_accepted(batches, columns, limits),
        found_as_written(read, schema, batches.take(i), batches[i]),
    ensures
        chunk_batch(id, columns, limits, read) == Ok::<RowBatch, StorageError>(batches[i]),
{
    let batch = batches[i];
    assert(payload_check(batch.payload@.len(), MAX_BATCH_BYTES) is Ok);
    law_frame_round_trip(id, batch.payload@, MAX_BATCH_BYTES);
    assert(batch_check(batch, read.chunk.start_row, columns, limits) is Ok);
    assert(indexed_batch_check(batch, read.chunk, columns, limits, id) is Ok);
}

/// The page stands before a chunk: it has taken all earlier rows, and expects this chunk.
#[verifier::opaque]
spec fn page_before(
    page: PageProgress,
    batches: Seq<RowBatch>,
    request: PageRequest,
    end: u64,
    lo: int,
    at: int,
) -> bool {
    let first = all_rows(batches.take(at)).len() as int;
    &&& page_reached(page, all_rows(batches), request, reached(request, first))
    &&& reached(request, first) <= end
    &&& if at == lo {
        page.next_row is None
    } else {
        page.next_row == Some(first as u64)
    }
}

/// The page begins in one chunk, and ends in the last of the chunks before another.
#[verifier::opaque]
spec fn page_within(
    batches: Seq<RowBatch>,
    request: PageRequest,
    end: u64,
    lo: int,
    hi: int,
) -> bool {
    &&& page_request_check(request) is Ok
    &&& request.offset < end <= all_rows(batches).len()
    &&& end - request.offset <= request.max_rows
    &&& 0 <= lo < hi <= batches.len()
    &&& all_rows(batches.take(lo)).len() <= request.offset
    &&& request.offset < all_rows(batches.take(lo + 1)).len()
    &&& end <= all_rows(batches.take(hi)).len()
    &&& all_rows(batches).len() <= u64::MAX
}

proof fn lemma_chunk_taken(
    id: String,
    request: PageRequest,
    end: u64,
    reads: Seq<ChunkRead>,
    schema: Seq<u8>,
    batches: Seq<RowBatch>,
    columns: usize,
    limits: ProtocolLimits,
    lo: int,
    at: int,
    hi: int,
    page: PageProgress,
)
    requires
        run_found(reads, schema, batches),
        run_accepted(batches, columns, limits),
        page_within(batches, request, end, lo, hi),
        lo <= at < hi,
        page_before(page, batches, request, end, lo, at),
    ensures
        match chunk_taken(id, columns, limits, request, end, reads[at], page) {
            Err(_) => false,
            Ok(after) => {
                &&& after.full ==> page_is_exact(after.rows, all_rows(batches), request, end)
                &&& !after.full ==> page_before(after, batches, request, end, lo, at + 1)
            },
        },
{
    reveal(page_within);
    reveal(page_before);
    let read = reads[at];
    let batch = batches[at];
    let first = all_rows(batches.take(at)).len() as int;
    assert(found_as_written(read, schema, batches.take(at), batch));
    lemma_rows_of_batch(batches, at);
    lemma_chunk_is_sound(id, read, schema, batches, at, columns, limits);
    let entered = PageProgress { next_row: Some(read.chunk.end_row_exclusive), ..page };
    lemma_rows_taken(id, request, end, first, batch.rows@, entered, all_rows(batches));
}

proof fn lemma_page_is_done(
    request: PageRequest,
    end: u64,
    batches: Seq<RowBatch>,
    lo: int,
    hi: int,
    page: PageProgress,
)
    requires
        page_within(batches, request, end, lo, hi),
        page_before(page, batches, request, end, lo, hi),
    ensures
        page_is_exact(page.rows, all_rows(batches), request, end),
{
    reveal(page_within);
    reveal(page_before);
    assert(page.rows.len() == end - request.offset);
}

proof fn lemma_chunks_taken(
    id: String,
    request: PageRequest,
    end: u64,
    reads: Seq<ChunkRead>,
    schema: Seq<u8>,
    batches: Seq<RowBatch>,
    columns: usize,
    limits: ProtocolLimits,
    lo: int,
    at: int,
    hi: int,
    page: PageProgress,
)
    requires
        run_found(reads, schema, batches),
        run_accepted(batches, columns, limits),
        page_within(batches, request, end, lo, hi),
        0 <= lo <= at <= hi <= reads.len(),
        !page.full,
        page_before(page, batches, request, end, lo, at),
    ensures
        match chunks_taken(id, columns, limits, request, end, reads.subrange(at, hi), page) {
            Err(_) => false,
            Ok(after) => page_is_exact(after.rows, all_rows(batches), request, end),
        },
    decreases hi - at,
{
    let rest = reads.subrange(at, hi);
    if at == hi {
        lemma_page_is_done(request, end, batches, lo, hi, page);
    } else {
        assert(rest[0] == reads[at]);
        assert(rest.drop_first() =~= reads.subrange(at + 1, hi));
        lemma_chunk_taken(
            id,
            request,
            end,
            reads,
            schema,
            batches,
            columns,
            limits,
            lo,
            at,
            hi,
            page,
        );
        let after = chunk_taken(id, columns, limits, request, end, rest[0], page)->Ok_0;
        if !after.full {
            lemma_chunks_taken(
                id,
                request,
                end,
                reads,
                schema,
                batches,
                columns,
                limits,
                lo,
                at + 1,
                hi,
                after,
            );
        }
    }
}

/// A page gives back what was written: of all rows of all batches, in order, those from its offset
/// on, as many as its row and byte bounds admit.
pub proof fn law_page_returns_written_rows(
    id: String,
    request: PageRequest,
    reads: Seq<ChunkRead>,
    schema: Seq<u8>,
    batches: Seq<RowBatch>,
    columns: usize,
    limits: ProtocolLimits,
)
    requires
        page_request_check(request) is Ok,
        run_found(reads, schema, batches),
        run_accepted(batches, columns, limits),
        request.offset < all_rows(batches).len() <= u64::MAX,
    ensures
        ({
            let end = page_end(request, all_rows(batches).len() as u64);
            let selected = reads.filter(
                |read: ChunkRead| in_page(read.chunk, request.offset, end),
            );
            match page_rows(id, columns, limits, request, end, selected) {
                Err(_) => false,
                Ok(rows) => page_is_exact(rows, all_rows(batches), request, end),
            }
        }),
{
    let all = all_rows(batches);
    let end = page_end(request, all.len() as u64);
    let wanted = |read: ChunkRead| in_page(read.chunk, request.offset, end);
    let lo = batch_of_row(batches, request.offset as int);
    let hi = batch_of_row(batches, end - 1) + 1;
    lemma_batch_of_row(batches, request.offset as int);
    lemma_batch_of_row(batches, end - 1);
    if hi <= lo {
        lemma_rows_grow(batches, hi, lo);
    }
    assert forall|i: int| 0 <= i < reads.len() implies wanted(#[trigger] reads[i]) == (lo <= i
        < hi) by {
        assert(found_as_written(reads[i], schema, batches.take(i), batches[i]));
        lemma_rows_of_batch(batches, i);
        if i < lo {
            lemma_rows_grow(batches, i + 1, lo);
        } else {
            lemma_rows_grow(batches, lo + 1, i + 1);
        }
        if i < hi {
            lemma_rows_grow(batches, i, hi - 1);
        } else {
            lemma_rows_grow(batches, hi, i);
        }
    }
    lemma_filter_interval(reads, wanted, lo, hi);
    assert(page_within(batches, request, end, lo, hi)) by {
        reveal(page_within);
    }
    assert(page_before(empty_page(), batches, request, end, lo, lo)) by {
        reveal(page_before);
        assert(empty_page().rows =~= all.subrange(request.offset as int, request.offset as int));
    }
    lemma_chunks_taken(
        id,
        request,
        end,
        reads,
        schema,
        batches,
        columns,
        limits,
        lo,
        lo,
        hi,
        empty_page(),
    );
}

/// Where the chunks before one end.
spec fn cursor_before(schema: Seq<u8>, batches: Seq<RowBatch>, at: int) -> ChunkCursor {
    ChunkCursor {
        ordinal: at as u64,
        file_offset: result_file(schema, batches.take(at)).len() as u64,
        row: all_rows(batches.take(at)).len() as u64,
    }
}

proof fn lemma_chunk_validates(
    id: String,
    reads: Seq<ChunkRead>,
    schema: Seq<u8>,
    batches: Seq<RowBatch>,
    columns: usize,
    limits: ProtocolLimits,
    at: int,
)
    requires
        run_found(reads, schema, batches),
        run_accepted(batches, columns, limits),
        0 <= at < batches.len(),
        batches.len() <= u64::MAX,
        result_file(schema, batches).len() <= u64::MAX,
        all_rows(batches).len() <= u64::MAX,
    ensures
        chunk_validated(id, columns, limits, cursor_before(schema, batches, at), reads[at]) == Ok::<
            ChunkCursor,
            StorageError,
        >(cursor_before(schema, batches, at + 1)),
{
    assert(found_as_written(reads[at], schema, batches.take(at), batches[at]));
    lemma_chunk_is_sound(id, reads[at], schema, batches, at, columns, limits);
    law_file_holds_every_frame(schema, batches, at);
    lemma_rows_of_batch(batches, at);
    assert(batches.take(at + 1).drop_last() =~= batches.take(at));
}

proof fn lemma_run_validates(
    id: String,
    reads: Seq<ChunkRead>,
    schema: Seq<u8>,
    batches: Seq<RowBatch>,
    columns: usize,
    limits: ProtocolLimits,
    at: int,
)
    requires
        run_found(reads, schema, batches),
        run_accepted(batches, columns, limits),
        0 <= at <= batches.len() == reads.len(),
        batches.len() <= u64::MAX,
        result_file(schema, batches).len() <= u64::MAX,
        all_rows(batches).len() <= u64::MAX,
    ensures
        chunks_validated(
            id,
            columns,
            limits,
            cursor_before(schema, batches, at),
            reads.skip(at),
        ) == Ok::<ChunkCursor, StorageError>(
            cursor_before(schema, batches, batches.len() as int),
        ),
    decreases batches.len() - at,
{
    if at < batches.len() {
        let rest = reads.skip(at);
        assert(rest[0] == reads[at]);
        assert(rest.drop_first() =~= reads.skip(at + 1));
        lemma_chunk_validates(id, reads, schema, batches, columns, limits, at);
        lemma_run_validates(id, reads, schema, batches, columns, limits, at + 1);
    }
}

/// Recovery finds a completed result sound if all of it is found as it was written, and reports a
/// tail only if the file is longer than the index.
pub proof fn law_written_result_is_sound(
    result: StoredResult,
    limits: ProtocolLimits,
    file_length: u64,
    first: SchemaRead,
    reads: Seq<ChunkRead>,
    schema: Seq<u8>,
    batches: Seq<RowBatch>,
)
    requires
        file_cover_check(result, Some(file_length)) is Ok,
        stored_schema(result, limits, first) is Ok,
        result.schema_frame_length == framed(schema).len(),
        result.committed_length == result_file(schema, batches).len(),
        result.row_count == all_rows(batches).len(),
        batches.len() <= u64::MAX,
        run_found(reads, schema, batches),
        run_accepted(batches, stored_schema(result, limits, first)->Ok_0.columns, limits),
    ensures
        result_validated(result, limits, Some(file_length), first, reads) == Ok::<
            bool,
            StorageError,
        >(file_length > result.committed_length),
{
    let columns = stored_schema(result, limits, first)->Ok_0.columns;
    assert(batches.take(0) =~= Seq::empty());
    assert(reads.skip(0) =~= reads);
    assert(batches.take(batches.len() as int) =~= batches);
    assert(cursor_before(schema, batches, 0) == first_chunk(result));
    lemma_run_validates(result.id, reads, schema, batches, columns, limits, 0);
}

/// A writer that has failed accepts nothing any more.
pub proof fn law_poisoned_writer_accepts_nothing(
    writer: WriterState,
    quota: u64,
    batch: RowBatch,
    limits: ProtocolLimits,
    index: Seq<IndexedBytes>,
    files: Seq<FileEntry>,
    completed: QueryCompleted,
)
    requires
        writer.poisoned,
    ensures
        stage_check(writer, quota, batch, limits, index, files) == Err::<(), StorageError>(
            writer_poisoned(),
        ),
        completion_check(writer, completed) == Err::<(), StorageError>(writer_poisoned()),
{
}

/// A result that a writer of the process holds is never purged, however long it has expired.
pub proof fn law_purge_spares_active_writers(row: ExpiryRow, leases: Seq<String>, timestamp_ms: i64)
    requires
        row.state@ == "writing"@,
        exists|i: int| 0 <= i < leases.len() && (#[trigger] leases[i])@ == row.id@,
    ensures
        !purgeable(row, leases, timestamp_ms),
{
}

/// What a purge leaves behind, the same purge leaves alone.
pub proof fn law_purge_is_idempotent(rows: Seq<ExpiryRow>, leases: Seq<String>, timestamp_ms: i64)
    ensures
        purged(
            rows.filter(|row: ExpiryRow| !purgeable(row, leases, timestamp_ms)),
            leases,
            timestamp_ms,
        ) == Seq::<String>::empty(),
{
    let kept = |row: ExpiryRow| !purgeable(row, leases, timestamp_ms);
    let left = rows.filter(kept);
    assert forall|i: int| 0 <= i < left.len() implies !purgeable(
        #[trigger] left[i],
        leases,
        timestamp_ms,
    ) by {
        rows.lemma_filter_pred(kept, i);
    }
    lemma_nothing_purged(left, leases, timestamp_ms);
}

proof fn lemma_nothing_purged(rows: Seq<ExpiryRow>, leases: Seq<String>, timestamp_ms: i64)
    requires
        forall|i: int|
            0 <= i < rows.len() ==> !purgeable(#[trigger] rows[i], leases, timestamp_ms),
    ensures
        purged(rows, leases, timestamp_ms) == Seq::<String>::empty(),
    decreases rows.len(),
{
    if rows.len() > 0 {
        let last = rows.len() - 1;
        assert(!purgeable(rows[last], leases, timestamp_ms));
        assert forall|i: int| 0 <= i < rows.drop_last().len() implies !purgeable(
            #[trigger] rows.drop_last()[i],
            leases,
            timestamp_ms,
        ) by {
            assert(rows.drop_last()[i] == rows[i]);
        }
        lemma_nothing_purged(rows.drop_last(), leases, timestamp_ms);
    }
}

/// The results that recovery leaves; they are sound, and their tails are cut off.
pub open spec fn results_left(results: Seq<CheckedResult>, timestamp_ms: i64) -> Seq<
    CheckedResult,
> {
    results_settled(results, timestamp_ms, true).map_values(
        |checked: CheckedResult| CheckedResult { result: checked.result, check: Ok(false) },
    )
}

/// The files that recovery leaves: no result file without a result, and none of a removed result.
pub open spec fn result_files_left(
    after: Seq<String>,
    results: Seq<CheckedResult>,
    files: Seq<String>,
    timestamp_ms: i64,
) -> bool {
    forall|i: int|
        0 <= i < after.len() ==> {
            &&& files.contains(#[trigger] after[i])
            &&& !unindexed(results, after[i]@)
            &&& !result_files(results_settled(results, timestamp_ms, false)).contains(after[i]@)
        }
}

/// A second recovery of a store finds nothing to do: it keeps every result, cuts off no tail and
/// removes no file.
pub proof fn law_store_recovers_once(
    second: ResultRecovery,
    results: Seq<CheckedResult>,
    files: Seq<String>,
    files_after: Seq<String>,
    timestamp_ms: i64,
)
    requires
        all_disposed(results, timestamp_ms) is Ok,
        result_files_left(files_after, results, files, timestamp_ms),
    ensures
        all_disposed(results_left(results, timestamp_ms), timestamp_ms) is Ok,
        results_recovered(
            second,
            results_left(results, timestamp_ms),
            files_after,
            timestamp_ms,
        ) ==> {
            &&& second.removed@.len() == 0
            &&& second.orphans@.len() == 0
            &&& second.outcome == Ok::<RecoveryReport, StorageError>(
                RecoveryReport {
                    writing_removed: 0,
                    expired_removed: 0,
                    corrupt_removed: 0,
                    orphan_files_removed: 0,
                    tails_truncated: 0,
                },
            )
        },
{
    let after = results_left(results, timestamp_ms);
    lemma_kept_results_stay(results, timestamp_ms);
    let dispositions = all_disposed(after, timestamp_ms)->Ok_0;
    lemma_all_kept(dispositions);
    let wanted = |name: String| unindexed(after, name@);
    assert forall|i: int| 0 <= i < files_after.len() implies !wanted(#[trigger] files_after[i]) by {
        let name = files_after[i]@;
        assert(files.contains(files_after[i]));
        if names_result(name) {
            lemma_files_are_settled(results, timestamp_ms, name);
        }
    }
    lemma_no_name_filtered(files_after, wanted);
}

/// A result that recovery cannot settle ends it: the results before it are settled, and it and those
/// behind it stay.
pub proof fn law_unsettled_result_ends_recovery(results: Seq<CheckedResult>, timestamp_ms: i64)
    requires
        all_disposed(results, timestamp_ms) is Err,
    ensures
        ({
            let settled = settled_before(results, timestamp_ms);
            &&& settled.len() < results.len()
            &&& settled == results.take(settled.len() as int)
            &&& all_disposed(settled, timestamp_ms) is Ok
            &&& all_disposed(results.take(settled.len() as int + 1), timestamp_ms) == all_disposed(
                results,
                timestamp_ms,
            )
        }),
    decreases results.len(),
{
    let earlier = results.drop_last();
    if all_disposed(earlier, timestamp_ms) is Ok {
        assert(earlier =~= results.take(earlier.len() as int));
        assert(results.take(results.len() as int) =~= results);
    } else {
        law_unsettled_result_ends_recovery(earlier, timestamp_ms);
        let settled = settled_before(results, timestamp_ms);
        assert(earlier.take(settled.len() as int) =~= results.take(settled.len() as int));
        assert(earlier.take(settled.len() as int + 1) =~= results.take(settled.len() as int + 1));
    }
}

proof fn lemma_kept_results_stay(results: Seq<CheckedResult>, timestamp_ms: i64)
    requires
        all_disposed(results, timestamp_ms) is Ok,
    ensures
        ({
            let after = results_left(results, timestamp_ms);
            &&& all_disposed(after, timestamp_ms) is Ok
            &&& forall|i: int|
                0 <= i < all_disposed(after, timestamp_ms)->Ok_0.len()
                    ==> #[trigger] all_disposed(after, timestamp_ms)->Ok_0[i]
                    == (Disposition::Kept { tail_truncated: false })
            &&& results_settled(after, timestamp_ms, false).len() == 0
            &&& result_files(after) == result_files(results_settled(results, timestamp_ms, true))
        }),
    decreases results.len(),
{
    let after = results_left(results, timestamp_ms);
    if results.len() > 0 {
        let earlier = results.drop_last();
        lemma_kept_results_stay(earlier, timestamp_ms);
        let kept = results_settled(earlier, timestamp_ms, true);
        if result_kept(results.last(), timestamp_ms) {
            let last = CheckedResult { result: results.last().result, check: Ok(false) };
            assert(after =~= results_left(earlier, timestamp_ms).push(last));
            assert(after.drop_last() =~= results_left(earlier, timestamp_ms));
            assert(kept.push(results.last()).drop_last() =~= kept);
        } else {
            assert(after =~= results_left(earlier, timestamp_ms));
        }
    } else {
        assert(after =~= Seq::empty());
    }
}

proof fn lemma_all_kept(dispositions: Seq<Disposition>)
    requires
        forall|i: int|
            0 <= i < dispositions.len() ==> #[trigger] dispositions[i] == (Disposition::Kept {
                tail_truncated: false,
            }),
    ensures
        times(dispositions, Disposition::Writing) == 0,
        times(dispositions, Disposition::Expired) == 0,
        times(dispositions, Disposition::Corrupt) == 0,
        times(dispositions, Disposition::Kept { tail_truncated: true }) == 0,
    decreases dispositions.len(),
{
    if dispositions.len() > 0 {
        assert(dispositions[dispositions.len() - 1] == dispositions.last());
        lemma_all_kept(dispositions.drop_last());
    }
}

proof fn lemma_files_are_settled(
    results: Seq<CheckedResult>,
    timestamp_ms: i64,
    name: Seq<char>,
)
    requires
        result_files(results).contains(name),
    ensures
        result_files(results_settled(results, timestamp_ms, true)).contains(name) || result_files(
            results_settled(results, timestamp_ms, false),
        ).contains(name),
    decreases results.len(),
{
    if results.len() > 0 {
        let earlier = results.drop_last();
        let last = results.last();
        let kept = result_kept(last, timestamp_ms);
        let before = results_settled(earlier, timestamp_ms, kept);
        let files = result_files(results_settled(results, timestamp_ms, kept));
        assert(before.push(last).drop_last() =~= before);
        if uuid_text(last.result.id@) is Some && named(uuid_text(last.result.id@)->0) == name {
            assert(files[files.len() - 1] == name);
        } else {
            let j = choose|j: int|
                0 <= j < result_files(results).len() && result_files(results)[j] == name;
            assert(result_files(earlier)[j] == name);
            lemma_files_are_settled(earlier, timestamp_ms, name);
            if result_files(before).contains(name) {
                let k = choose|k: int|
                    0 <= k < result_files(before).len() && result_files(before)[k] == name;
                assert(files[k] == name);
            }
        }
    }
}

proof fn lemma_no_name_filtered(names: Seq<String>, wanted: spec_fn(String) -> bool)
    requires
        forall|i: int| 0 <= i < names.len() ==> !wanted(#[trigger] names[i]),
    ensures
        names.filter(wanted).len() == 0,
    decreases names.len(),
{
    reveal(Seq::filter);
    if names.len() > 0 {
        assert(!wanted(names[names.len() - 1]));
        assert forall|i: int| 0 <= i < names.drop_last().len() implies !wanted(
            #[trigger] names.drop_last()[i],
        ) by {
            assert(names.drop_last()[i] == names[i]);
        }
        lemma_no_name_filtered(names.drop_last(), wanted);
    }
}

/// Recovery removes a complete, live result only if its validation found damage.
pub proof fn law_recovery_removes_only_damage(
    result: StoredResult,
    timestamp_ms: i64,
    check: Result<bool, StorageError>,
)
    requires
        result.live(timestamp_ms),
        disposed(result, timestamp_ms, check) is Ok,
    ensures
        match disposed(result, timestamp_ms, check)->Ok_0 {
            Disposition::Kept { tail_truncated } => check == Ok::<bool, StorageError>(
                tail_truncated,
            ),
            Disposition::Corrupt => check is Err && check->Err_0 is CorruptResult,
            _ => false,
        },
{
}

/// One result of another format stops recovery, whatever the other results are.
pub proof fn law_newer_format_fails_closed(raw: Seq<RawResult>, i: int)
    requires
        0 <= i < raw.len(),
        raw[i].format_version != RESULT_FORMAT_VERSION,
    ensures
        results_loaded(raw) is Err,
        results_loaded(raw)->Err_0 is UnsupportedResultFormat,
{
    lemma_newer_format_is_found(raw, i);
}

proof fn lemma_newer_format_is_found(raw: Seq<RawResult>, i: int)
    requires
        0 <= i < raw.len(),
        raw[i].format_version != RESULT_FORMAT_VERSION,
    ensures
        first_unsupported(raw) is Some,
        first_unsupported(raw)->0 is UnsupportedResultFormat,
    decreases raw.len(),
{
    if raw[0].format_version == RESULT_FORMAT_VERSION {
        assert(raw.drop_first()[i - 1] == raw[i]);
        lemma_newer_format_is_found(raw.drop_first(), i - 1);
    }
}

} // verus!
