use vstd::prelude::*;

use crate::error::StorageError;
use crate::result::batch::{
    indexed_batch_check, validate_indexed_batch, JdbcRow, ProtocolLimits, RowBatch, MAX_BATCH_BYTES,
};
use crate::result::frame::{
    check_frame_index, corrupt, corrupted, frame_check, frame_index_check, open_frame,
    require_decoded,
};
use crate::result::rows::ChunkIndex;

verus! {

/// Maximum rows returned by one retained-result page.
pub const MAX_RESULT_PAGE_ROWS: u32 = 4096;

/// Maximum decoded row bytes returned by one retained-result page.
pub const MAX_RESULT_PAGE_BYTES: u64 = 16 * 1024 * 1024;

/// Minimum page budget, chosen so every protocol-valid single row can fit.
pub const MIN_RESULT_PAGE_BYTES: u64 = 8 * 1024 * 1024;

/// Bounded retained-result page request.
#[derive(Debug, Clone, Copy, PartialEq, Eq, Structural)]
pub struct PageRequest {
    /// Zero-based row offset.
    pub offset: u64,
    /// Maximum number of returned rows.
    pub max_rows: u32,
    /// Maximum cumulative encoded row bytes.
    pub max_bytes: u64,
}

impl Default for PageRequest {
    fn default() -> (result: PageRequest)
        ensures
            result == (PageRequest {
                offset: 0,
                max_rows: MAX_RESULT_PAGE_ROWS,
                max_bytes: MAX_RESULT_PAGE_BYTES,
            }),
    {
        PageRequest { offset: 0, max_rows: MAX_RESULT_PAGE_ROWS, max_bytes: MAX_RESULT_PAGE_BYTES }
    }
}

/// A chunk as it is found: its row of the index, as much of the indexed length as the file holds
/// where the index places the frame, and what the payload of the frame decodes to.
pub struct ChunkRead {
    /// Row of the index.
    pub chunk: ChunkIndex,
    /// Bytes of the file.
    pub frame: Vec<u8>,
    /// The batch, if the payload decodes.
    pub batch: Option<RowBatch>,
}

/// The rows of a page while its chunks are read.
pub struct PageProgress {
    /// Rows taken so far.
    pub rows: Seq<JdbcRow>,
    /// Their encoded bytes.
    pub row_bytes: int,
    /// First row of the next chunk, once a chunk was read.
    pub next_row: Option<u64>,
    /// Whether the page takes no more rows.
    pub full: bool,
}

/// The bounds of a page request.
pub open spec fn page_request_check(request: PageRequest) -> Result<(), StorageError> {
    if request.max_rows == 0 || request.max_rows > MAX_RESULT_PAGE_ROWS {
        Err(StorageError::InvalidResult("page row limit must be between 1 and 4096"))
    } else if !(MIN_RESULT_PAGE_BYTES <= request.max_bytes <= MAX_RESULT_PAGE_BYTES) {
        Err(StorageError::InvalidResult("page byte limit must be between 8 MiB and 16 MiB"))
    } else {
        Ok(())
    }
}

/// The row after the last one that a page may hold.
pub open spec fn page_end(request: PageRequest, row_count: u64) -> u64 {
    if request.offset + request.max_rows < row_count {
        (request.offset + request.max_rows) as u64
    } else {
        row_count
    }
}

/// A chunk holds rows of the page.
pub open spec fn in_page(chunk: ChunkIndex, offset: u64, end: u64) -> bool {
    chunk.start_row < end && chunk.end_row_exclusive > offset
}

/// The rows of one batch that a page takes; `first` is the position of the first row.
pub open spec fn rows_taken(
    id: String,
    request: PageRequest,
    end: u64,
    first: int,
    batch: Seq<JdbcRow>,
    page: PageProgress,
) -> Result<PageProgress, StorageError>
    decreases batch.len(),
{
    if batch.len() == 0 {
        Ok(page)
    } else if first < request.offset {
        rows_taken(id, request, end, first + 1, batch.drop_first(), page)
    } else if first >= end || page.rows.len() >= request.max_rows {
        Ok(PageProgress { full: true, ..page })
    } else if batch[0].encoded@.len() > request.max_bytes {
        Err(corrupted(id, "one row exceeds the minimum page byte budget"))
    } else if page.row_bytes + batch[0].encoded@.len() > request.max_bytes {
        Ok(PageProgress { full: true, ..page })
    } else {
        rows_taken(
            id,
            request,
            end,
            first + 1,
            batch.drop_first(),
            PageProgress {
                rows: page.rows.push(batch[0]),
                row_bytes: page.row_bytes + batch[0].encoded@.len(),
                ..page
            },
        )
    }
}

/// The chunk continues the page, or covers its first row if it is the first chunk.
pub open spec fn page_chunk_check(
    id: String,
    request: PageRequest,
    next_row: Option<u64>,
    chunk: ChunkIndex,
) -> Result<(), StorageError> {
    match next_row {
        None => if chunk.start_row > request.offset || chunk.end_row_exclusive <= request.offset {
            Err(corrupted(id, "first result page chunk does not cover its offset"))
        } else {
            Ok(())
        },
        Some(expected) => if chunk.start_row != expected {
            Err(corrupted(id, "result page chunk rows are not contiguous"))
        } else {
            Ok(())
        },
    }
}

/// The batch that a chunk holds, or what is damaged.
pub open spec fn chunk_batch(
    id: String,
    columns: usize,
    limits: ProtocolLimits,
    read: ChunkRead,
) -> Result<RowBatch, StorageError> {
    match frame_check(
        id,
        read.chunk.frame_length,
        read.chunk.sha256@,
        read.frame@,
        MAX_BATCH_BYTES,
    ) {
        Err(error) => Err(error),
        Ok(_) => match read.batch {
            None => Err(corrupted(id, "indexed protobuf payload cannot be decoded")),
            Some(batch) => match indexed_batch_check(batch, read.chunk, columns, limits, id) {
                Err(error) => Err(error),
                Ok(_) => Ok(batch),
            },
        },
    }
}

/// What a page is after one more chunk.
pub open spec fn chunk_taken(
    id: String,
    columns: usize,
    limits: ProtocolLimits,
    request: PageRequest,
    end: u64,
    read: ChunkRead,
    page: PageProgress,
) -> Result<PageProgress, StorageError> {
    match page_chunk_check(id, request, page.next_row, read.chunk) {
        Err(error) => Err(error),
        Ok(_) => match chunk_batch(id, columns, limits, read) {
            Err(error) => Err(error),
            Ok(batch) => rows_taken(
                id,
                request,
                end,
                read.chunk.start_row as int,
                batch.rows@,
                PageProgress { next_row: Some(read.chunk.end_row_exclusive), ..page },
            ),
        },
    }
}

/// What a page is after all chunks, or after the chunk with which it was full.
pub open spec fn chunks_taken(
    id: String,
    columns: usize,
    limits: ProtocolLimits,
    request: PageRequest,
    end: u64,
    reads: Seq<ChunkRead>,
    page: PageProgress,
) -> Result<PageProgress, StorageError>
    decreases reads.len(),
{
    if reads.len() == 0 || page.full {
        Ok(page)
    } else {
        match chunk_taken(id, columns, limits, request, end, reads[0], page) {
            Err(error) => Err(error),
            Ok(next) => chunks_taken(
                id,
                columns,
                limits,
                request,
                end,
                reads.drop_first(),
                next,
            ),
        }
    }
}

/// A page before its first chunk.
pub open spec fn empty_page() -> PageProgress {
    PageProgress { rows: Seq::empty(), row_bytes: 0, next_row: None, full: false }
}

/// The rows of a page.
pub open spec fn page_rows(
    id: String,
    columns: usize,
    limits: ProtocolLimits,
    request: PageRequest,
    end: u64,
    reads: Seq<ChunkRead>,
) -> Result<Seq<JdbcRow>, StorageError> {
    if reads.len() == 0 {
        Err(corrupted(id, "result page has no indexed chunks"))
    } else {
        match chunks_taken(id, columns, limits, request, end, reads, empty_page()) {
            Err(error) => Err(error),
            Ok(page) => Ok(page.rows),
        }
    }
}

/// Checks the bounds of a page request.
pub fn validate_page_request(request: &PageRequest) -> (result: Result<(), StorageError>)
    ensures
        result == page_request_check(*request),
{
    if request.max_rows == 0 || request.max_rows > MAX_RESULT_PAGE_ROWS {
        return Err(StorageError::InvalidResult("page row limit must be between 1 and 4096"));
    }
    if request.max_bytes < MIN_RESULT_PAGE_BYTES || request.max_bytes > MAX_RESULT_PAGE_BYTES {
        return Err(
            StorageError::InvalidResult("page byte limit must be between 8 MiB and 16 MiB"),
        );
    }
    Ok(())
}

/// Reads a page chunk by chunk.
///
/// A chunk is checked before its frame is read, and taken once the payload of the frame has been
/// decoded.
pub struct PageReader {
    id: String,
    columns: usize,
    limits: ProtocolLimits,
    request: PageRequest,
    end: u64,
    rows: Vec<JdbcRow>,
    row_bytes: u64,
    next_row: Option<u64>,
    full: bool,
}

impl View for PageReader {
    type V = PageProgress;

    closed spec fn view(&self) -> PageProgress {
        PageProgress {
            rows: self.rows@,
            row_bytes: self.row_bytes as int,
            next_row: self.next_row,
            full: self.full,
        }
    }
}

impl PageReader {
    #[verifier::type_invariant]
    spec fn bounded(self) -> bool {
        &&& page_request_check(self.request) is Ok
        &&& self.row_bytes <= self.request.max_bytes
    }

    /// The result that is read.
    pub closed spec fn result_id(&self) -> String {
        self.id
    }

    /// Columns of its schema.
    pub closed spec fn width(&self) -> usize {
        self.columns
    }

    /// Limits that its batches keep.
    pub closed spec fn protocol(&self) -> ProtocolLimits {
        self.limits
    }

    /// The page that was requested.
    pub closed spec fn requested(&self) -> PageRequest {
        self.request
    }

    /// The row after the last one that the page may hold.
    pub closed spec fn requested_end(&self) -> u64 {
        self.end
    }

    /// Everything but the progress is the same.
    pub open spec fn same_page(&self, other: &PageReader) -> bool {
        &&& self.result_id() == other.result_id()
        &&& self.width() == other.width()
        &&& self.protocol() == other.protocol()
        &&& self.requested() == other.requested()
        &&& self.requested_end() == other.requested_end()
    }

    /// Starts a page.
    pub fn new(
        id: &String,
        columns: usize,
        limits: &ProtocolLimits,
        request: &PageRequest,
        end: u64,
    ) -> (result: Result<PageReader, StorageError>)
        ensures
            match result {
                Ok(reader) => {
                    &&& page_request_check(*request) is Ok
                    &&& reader.result_id() == *id
                    &&& reader.width() == columns
                    &&& reader.protocol() == *limits
                    &&& reader.requested() == *request
                    &&& reader.requested_end() == end
                    &&& reader@ == empty_page()
                },
                Err(error) => page_request_check(*request) == Err::<(), StorageError>(error),
            },
    {
        validate_page_request(request)?;
        let reader = PageReader {
            id: id.clone(),
            columns,
            limits: *limits,
            request: *request,
            end,
            rows: Vec::new(),
            row_bytes: 0,
            next_row: None,
            full: false,
        };
        assert(reader@.rows =~= empty_page().rows);
        Ok(reader)
    }

    /// Tests whether the page takes no more rows.
    pub fn is_full(&self) -> (result: bool)
        ensures
            result == self@.full,
    {
        self.full
    }

    /// Checks a chunk before its frame is read.
    pub fn check_chunk(&self, chunk: &ChunkIndex) -> (result: Result<(), StorageError>)
        ensures
            result == (match page_chunk_check(
                self.result_id(),
                self.requested(),
                self@.next_row,
                *chunk,
            ) {
                Err(error) => Err::<(), StorageError>(error),
                Ok(_) => frame_index_check(
                    self.result_id(),
                    chunk.frame_length,
                    chunk.sha256@,
                    MAX_BATCH_BYTES,
                ),
            }),
    {
        match self.next_row {
            None => if chunk.start_row > self.request.offset || chunk.end_row_exclusive
                <= self.request.offset {
                return Err(corrupt(&self.id, "first result page chunk does not cover its offset"));
            },
            Some(expected) => if chunk.start_row != expected {
                return Err(corrupt(&self.id, "result page chunk rows are not contiguous"));
            },
        }
        check_frame_index(&self.id, chunk.frame_length, &chunk.sha256, MAX_BATCH_BYTES)
    }

    /// Takes the payload out of the frame of a chunk.
    pub fn open_chunk(&self, chunk: &ChunkIndex, frame: &Vec<u8>) -> (result: Result<
        Vec<u8>,
        StorageError,
    >)
        ensures
            match result {
                Ok(payload) => {
                    &&& frame_check(
                        self.result_id(),
                        chunk.frame_length,
                        chunk.sha256@,
                        frame@,
                        MAX_BATCH_BYTES,
                    ) is Ok
                    &&& payload@ == frame@.skip(4)
                },
                Err(error) => frame_check(
                    self.result_id(),
                    chunk.frame_length,
                    chunk.sha256@,
                    frame@,
                    MAX_BATCH_BYTES,
                ) == Err::<(), StorageError>(error),
            },
    {
        open_frame(&self.id, chunk.frame_length, &chunk.sha256, frame, MAX_BATCH_BYTES)
    }

    /// Takes the rows of a chunk whose payload was decoded.
    pub fn take_batch(&mut self, chunk: &ChunkIndex, decoded: Option<RowBatch>) -> (result: Result<
        (),
        StorageError,
    >)
        ensures
            final(self).same_page(old(self)),
            ({
                let id = old(self).result_id();
                let checked = match decoded {
                    None => Err::<RowBatch, StorageError>(
                        corrupted(id, "indexed protobuf payload cannot be decoded"),
                    ),
                    Some(batch) => match indexed_batch_check(
                        batch,
                        *chunk,
                        old(self).width(),
                        old(self).protocol(),
                        id,
                    ) {
                        Err(error) => Err(error),
                        Ok(_) => Ok(batch),
                    },
                };
                match checked {
                    Err(error) => result == Err::<(), StorageError>(error) && final(self)@ == old(
                        self,
                    )@,
                    Ok(batch) => match rows_taken(
                        id,
                        old(self).requested(),
                        old(self).requested_end(),
                        chunk.start_row as int,
                        batch.rows@,
                        PageProgress { next_row: Some(chunk.end_row_exclusive), ..old(self)@ },
                    ) {
                        Err(error) => result == Err::<(), StorageError>(error),
                        Ok(page) => result is Ok && final(self)@ == page,
                    },
                }
            }),
    {
        proof {
            use_type_invariant(&*self);
        }
        let batch = require_decoded(&self.id, decoded)?;
        validate_indexed_batch(&batch, chunk, self.columns, &self.limits, &self.id)?;
        self.next_row = Some(chunk.end_row_exclusive);
        self.take_rows(chunk.start_row, batch.rows)
    }

    fn take_rows(&mut self, start_row: u64, batch: Vec<JdbcRow>) -> (result: Result<
        (),
        StorageError,
    >)
        requires
            start_row + batch@.len() <= u64::MAX,
        ensures
            final(self).same_page(old(self)),
            match rows_taken(
                old(self).result_id(),
                old(self).requested(),
                old(self).requested_end(),
                start_row as int,
                batch@,
                old(self)@,
            ) {
                Err(error) => result == Err::<(), StorageError>(error),
                Ok(page) => result is Ok && final(self)@ == page,
            },
    {
        proof {
            use_type_invariant(&*self);
        }
        let ghost all = batch@;
        let ghost before = self@;
        let request = self.request;
        let end: u64 = self.end;
        let mut rows: Vec<JdbcRow> = Vec::new();
        std::mem::swap(&mut rows, &mut self.rows);
        let mut row_bytes: u64 = self.row_bytes;
        let mut full: bool = self.full;
        let mut ended: bool = false;
        let mut failed: bool = false;
        let mut index: u64 = 0;
        let ghost goal = rows_taken(
            self.result_id(),
            request,
            end,
            start_row as int,
            all,
            before,
        );
        proof {
            assert(all.skip(0) =~= all);
        }
        for row in it: batch
            invariant
                it.seq() == all,
                index == it.index(),
                start_row + all.len() <= u64::MAX,
                page_request_check(request) is Ok,
                row_bytes <= request.max_bytes,
                failed ==> ended,
                !ended ==> full == before.full && goal == rows_taken(
                    self.result_id(),
                    request,
                    end,
                    start_row + index,
                    all.skip(index as int),
                    PageProgress { rows: rows@, row_bytes: row_bytes as int, full, ..before },
                ),
                ended && !failed ==> goal == Ok::<PageProgress, StorageError>(
                    PageProgress { rows: rows@, row_bytes: row_bytes as int, full, ..before },
                ),
                failed ==> goal == Err::<PageProgress, StorageError>(
                    corrupted(self.result_id(), "one row exceeds the minimum page byte budget"),
                ),
        {
            let ghost rest = all.skip(index as int);
            proof {
                assert(rest[0] == row);
                assert(rest.drop_first() =~= all.skip(index + 1));
            }
            let global_row: u64 = start_row + index;
            index = index + 1;
            if !ended && global_row >= request.offset {
                let encoded: u64 = row.encoded.len() as u64;
                if global_row >= end || rows.len() >= request.max_rows as usize {
                    ended = true;
                    full = true;
                } else if encoded > request.max_bytes {
                    ended = true;
                    failed = true;
                } else if row_bytes + encoded > request.max_bytes {
                    ended = true;
                    full = true;
                } else {
                    row_bytes = row_bytes + encoded;
                    rows.push(row);
                }
            }
        }
        self.row_bytes = row_bytes;
        self.full = full;
        std::mem::swap(&mut rows, &mut self.rows);
        if failed {
            return Err(corrupt(&self.id, "one row exceeds the minimum page byte budget"));
        }
        Ok(())
    }

    /// Ends the page.
    pub fn into_rows(self) -> (result: Vec<JdbcRow>)
        ensures
            result@ == self@.rows,
    {
        self.rows
    }
}

/// Reads the rows of a page from its chunks.
pub fn read_page_rows(
    id: &String,
    columns: usize,
    limits: &ProtocolLimits,
    request: &PageRequest,
    end: u64,
    reads: Vec<ChunkRead>,
) -> (result: Result<Vec<JdbcRow>, StorageError>)
    requires
        page_request_check(*request) is Ok,
    ensures
        match result {
            Ok(rows) => page_rows(*id, columns, *limits, *request, end, reads@) == Ok::<
                Seq<JdbcRow>,
                StorageError,
            >(rows@),
            Err(error) => page_rows(*id, columns, *limits, *request, end, reads@) == Err::<
                Seq<JdbcRow>,
                StorageError,
            >(error),
        },
{
    if reads.len() == 0 {
        return Err(corrupt(id, "result page has no indexed chunks"));
    }
    let mut reader = PageReader::new(id, columns, limits, request, end)?;
    let ghost all = reads@;
    let ghost goal = chunks_taken(*id, columns, *limits, *request, end, all, empty_page());
    proof {
        assert(all.skip(0) =~= all);
    }
    for read in it: reads
        invariant
            it.seq() == all,
            reader.result_id() == *id,
            reader.width() == columns,
            reader.protocol() == *limits,
            reader.requested() == *request,
            reader.requested_end() == end,
            goal == chunks_taken(
                *id,
                columns,
                *limits,
                *request,
                end,
                all.skip(it.index() as int),
                reader@,
            ),
            page_rows(*id, columns, *limits, *request, end, all) == (match goal {
                Err(error) => Err::<Seq<JdbcRow>, StorageError>(error),
                Ok(page) => Ok(page.rows),
            }),
    {
        let ghost rest = all.skip(it.index() as int);
        proof {
            assert(rest[0] == read);
            assert(rest.drop_first() =~= all.skip(it.index() + 1));
        }
        if !reader.is_full() {
            reader.check_chunk(&read.chunk)?;
            reader.open_chunk(&read.chunk, &read.frame)?;
            reader.take_batch(&read.chunk, read.batch)?;
        }
    }
    Ok(reader.into_rows())
}

/// Two readers read the same page exactly if they read the same result with the same schema width and
/// limits, for the same request and to the same end.
pub proof fn law_same_page_has_the_same_request(left: &PageReader, right: &PageReader)
    ensures
        left.same_page(right) <==> {
            &&& left.result_id() == right.result_id()
            &&& left.width() == right.width()
            &&& left.protocol() == right.protocol()
            &&& left.requested() == right.requested()
            &&& left.requested_end() == right.requested_end()
        },
{
}

/// A page begins without rows, and its first chunk has to hold its first row; each later chunk begins
/// where the one before it ended.
pub proof fn law_page_chunks_follow_each_other(
    id: String,
    request: PageRequest,
    expected: u64,
    chunk: ChunkIndex,
)
    ensures
        empty_page().rows.len() == 0,
        empty_page().row_bytes == 0,
        empty_page().next_row is None,
        !empty_page().full,
        page_chunk_check(id, request, None, chunk) is Ok <==> chunk.start_row <= request.offset
            < chunk.end_row_exclusive,
        page_chunk_check(id, request, Some(expected), chunk) is Ok <==> chunk.start_row == expected,
{
}

} // verus!
