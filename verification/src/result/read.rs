use vstd::prelude::*;

use crate::error::StorageError;
use crate::identity::uuid_text;
use crate::result::batch::{schema_check, validate_schema, JdbcRow, ProtocolLimits, QueryStarted};
use crate::result::frame::{corrupt, corrupted, frame_check, open_frame, require_decoded};
use crate::result::naming::result_file_name;
use crate::result::page::{
    in_page, page_end, page_request_check, page_rows, read_page_rows, validate_page_request,
    ChunkRead, PageRequest,
};
use crate::result::rows::{ChunkIndex, ResultMetadata, StoredResult, RESULT_FORMAT_VERSION};
use crate::storage::Storage;

verus! {

/// The file of a result as it is found.
#[derive(Debug, Clone, Copy, PartialEq, Eq, Structural)]
pub enum ResultFile {
    /// There is no such file.
    Missing,
    /// The file is open, but its length cannot be read.
    Unreadable,
    /// The file is open and has this length.
    Length(u64),
}

/// The first frame of a result as it is found: as much of its indexed length as the file holds,
/// and what its payload decodes to.
pub struct SchemaRead {
    /// Bytes of the file.
    pub frame: Vec<u8>,
    /// The schema, if the payload decodes.
    pub schema: Option<QueryStarted>,
}

/// One bounded page plus the schema required to interpret its rows.
pub struct ResultPage {
    /// Durable completion metadata.
    pub metadata: ResultMetadata,
    /// Column schema emitted before the first row batch.
    pub schema: QueryStarted,
    /// Actual zero-based offset of the first returned row.
    pub offset: u64,
    /// Retained rows, bounded by both request limits.
    pub rows: Vec<JdbcRow>,
    /// Whether another retained row exists after this page.
    pub has_more: bool,
}

/// The contents of a page.
pub struct PageContents {
    /// Durable completion metadata.
    pub metadata: ResultMetadata,
    /// Column schema.
    pub schema: QueryStarted,
    /// Offset of the first row.
    pub offset: u64,
    /// The rows in order.
    pub rows: Seq<JdbcRow>,
    /// Whether another row exists after the page.
    pub has_more: bool,
}

impl View for ResultPage {
    type V = PageContents;

    open spec fn view(&self) -> PageContents {
        PageContents {
            metadata: self.metadata,
            schema: self.schema,
            offset: self.offset,
            rows: self.rows@,
            has_more: self.has_more,
        }
    }
}

/// The result that a page may be read from.
pub open spec fn page_source(
    id: String,
    request: PageRequest,
    timestamp_ms: i64,
    stored: Option<StoredResult>,
) -> Result<StoredResult, StorageError> {
    match page_request_check(request) {
        Err(error) => Err(error),
        Ok(_) => match stored {
            None => Err(StorageError::ResultNotFound(id)),
            Some(result) => if !result.live(timestamp_ms) {
                Err(StorageError::ResultNotFound(id))
            } else if result.format_version != RESULT_FORMAT_VERSION {
                Err(
                    StorageError::UnsupportedResultFormat {
                        id,
                        found: result.format_version,
                        supported: RESULT_FORMAT_VERSION,
                    },
                )
            } else if uuid_text(id@) is None {
                Err(StorageError::InvalidResult("result id is invalid"))
            } else {
                Ok(result)
            },
        },
    }
}

/// The file of a complete result is there and has the indexed length.
pub open spec fn file_length_check(file: ResultFile, expected: u64, id: String) -> Result<
    (),
    StorageError,
> {
    match file {
        ResultFile::Missing => Err(corrupted(id, "result file is missing")),
        ResultFile::Unreadable => Err(corrupted(id, "result file metadata cannot be read")),
        ResultFile::Length(actual) => if actual != expected {
            Err(corrupted(id, "completed result file length changed"))
        } else {
            Ok(())
        },
    }
}

/// The schema of a result, or what is damaged.
pub open spec fn stored_schema(
    result: StoredResult,
    limits: ProtocolLimits,
    read: SchemaRead,
) -> Result<QueryStarted, StorageError> {
    match frame_check(
        result.id,
        result.schema_frame_length,
        result.schema_sha256@,
        read.frame@,
        limits.max_frame_bytes,
    ) {
        Err(error) => Err(error),
        Ok(_) => match read.schema {
            None => Err(corrupted(result.id, "indexed protobuf payload cannot be decoded")),
            Some(schema) => if schema_check(schema, limits) is Err {
                Err(corrupted(result.id, "stored schema is invalid"))
            } else {
                Ok(schema)
            },
        },
    }
}

/// The page that its rows make.
pub open spec fn page_of(
    id: String,
    result: StoredResult,
    schema: QueryStarted,
    request: PageRequest,
    rows: Seq<JdbcRow>,
) -> Result<PageContents, StorageError> {
    if request.offset < result.row_count && rows.len() == 0 {
        Err(corrupted(id, "live page range produced no rows"))
    } else {
        Ok(
            PageContents {
                metadata: result.completion(),
                schema,
                offset: request.offset,
                rows,
                has_more: request.offset + rows.len() < result.row_count,
            },
        )
    }
}

/// A page of a result; the chunks are those that hold rows of the page.
pub open spec fn result_page(
    id: String,
    request: PageRequest,
    timestamp_ms: i64,
    limits: ProtocolLimits,
    stored: Option<StoredResult>,
    file: ResultFile,
    first: SchemaRead,
    reads: Seq<ChunkRead>,
) -> Result<PageContents, StorageError> {
    match page_source(id, request, timestamp_ms, stored) {
        Err(error) => Err(error),
        Ok(result) => match file_length_check(file, result.committed_length, id) {
            Err(error) => Err(error),
            Ok(_) => match stored_schema(result, limits, first) {
                Err(error) => Err(error),
                Ok(schema) => if request.offset >= result.row_count {
                    page_of(id, result, schema, request, Seq::empty())
                } else {
                    match page_rows(
                        id,
                        schema.columns,
                        limits,
                        request,
                        page_end(request, result.row_count),
                        reads,
                    ) {
                        Err(error) => Err(error),
                        Ok(rows) => page_of(id, result, schema, request, rows),
                    }
                },
            },
        },
    }
}

/// Checks that the file of a complete result is there and has the indexed length.
pub fn ensure_exact_file_length(file: &ResultFile, expected: u64, id: &String) -> (result: Result<
    (),
    StorageError,
>)
    ensures
        result == file_length_check(*file, expected, *id),
{
    match file {
        ResultFile::Missing => Err(corrupt(id, "result file is missing")),
        ResultFile::Unreadable => Err(corrupt(id, "result file metadata cannot be read")),
        ResultFile::Length(actual) => if *actual != expected {
            Err(corrupt(id, "completed result file length changed"))
        } else {
            Ok(())
        },
    }
}

/// Accepts the schema of a result.
pub fn read_schema(result: &StoredResult, limits: &ProtocolLimits, read: SchemaRead) -> (schema:
    Result<QueryStarted, StorageError>)
    ensures
        schema == stored_schema(*result, *limits, read),
{
    open_frame(
        &result.id,
        result.schema_frame_length,
        &result.schema_sha256,
        &read.frame,
        limits.max_frame_bytes,
    )?;
    let schema = require_decoded(&result.id, read.schema)?;
    match validate_schema(&schema, limits) {
        Ok(()) => Ok(schema),
        Err(_) => Err(corrupt(&result.id, "stored schema is invalid")),
    }
}

/// Returns the row after the last one that a page may hold.
pub fn requested_end(request: &PageRequest, row_count: u64) -> (result: u64)
    ensures
        result == page_end(*request, row_count),
{
    if request.offset >= row_count || row_count - request.offset <= request.max_rows as u64 {
        row_count
    } else {
        request.offset + request.max_rows as u64
    }
}

/// Selects the chunks that hold rows of a page.
pub fn select_page_chunks(chunks: Vec<ChunkIndex>, offset: u64, end: u64) -> (result: Vec<
    ChunkIndex,
>)
    ensures
        result@ == chunks@.filter(|chunk: ChunkIndex| in_page(chunk, offset, end)),
{
    let ghost all = chunks@;
    let ghost wanted = |chunk: ChunkIndex| in_page(chunk, offset, end);
    let mut selected: Vec<ChunkIndex> = Vec::new();
    proof {
        reveal(Seq::filter);
        assert(all.take(0).filter(wanted) =~= Seq::empty());
    }
    for chunk in it: chunks
        invariant
            it.seq() == all,
            wanted == (|chunk: ChunkIndex| in_page(chunk, offset, end)),
            selected@ == all.take(it.index() as int).filter(wanted),
    {
        proof {
            reveal(Seq::filter);
            assert(all.take(it.index() + 1).drop_last() =~= all.take(it.index() as int));
        }
        if chunk.start_row < end && chunk.end_row_exclusive > offset {
            selected.push(chunk);
        }
    }
    assert(all.take(all.len() as int) =~= all);
    selected
}

impl Storage {
    /// Returns the completion metadata of a result only while it is complete and live.
    pub fn result_metadata_at(stored: &Option<StoredResult>, timestamp_ms: i64) -> (result: Result<
        Option<ResultMetadata>,
        StorageError,
    >)
        ensures
            result == Ok::<Option<ResultMetadata>, StorageError>(
                match *stored {
                    Some(row) => if row.live(timestamp_ms) {
                        Some(row.completion())
                    } else {
                        None
                    },
                    None => None,
                },
            ),
    {
        match stored {
            Some(row) => if row.is_live(timestamp_ms) {
                Ok(Some(row.metadata()?))
            } else {
                Ok(None)
            },
            None => Ok(None),
        }
    }

    /// Accepts a page request and finds the result that it may be read from.
    pub fn open_result_page(
        id: &String,
        request: &PageRequest,
        timestamp_ms: i64,
        stored: Option<StoredResult>,
    ) -> (result: Result<StoredResult, StorageError>)
        ensures
            result == page_source(*id, *request, timestamp_ms, stored),
    {
        validate_page_request(request)?;
        let found = match stored {
            Some(found) => found,
            None => return Err(StorageError::ResultNotFound(id.clone())),
        };
        if !found.is_live(timestamp_ms) {
            return Err(StorageError::ResultNotFound(id.clone()));
        }
        if found.format_version != RESULT_FORMAT_VERSION {
            return Err(
                StorageError::UnsupportedResultFormat {
                    id: id.clone(),
                    found: found.format_version,
                    supported: RESULT_FORMAT_VERSION,
                },
            );
        }
        result_file_name(id.as_str())?;
        Ok(found)
    }

    /// Puts a page together from the rows that were read for it.
    pub fn close_result_page(
        id: &String,
        stored: &StoredResult,
        schema: QueryStarted,
        request: &PageRequest,
        rows: Vec<JdbcRow>,
    ) -> (result: Result<ResultPage, StorageError>)
        requires
            stored.state == crate::result::rows::ResultState::Complete,
        ensures
            match result {
                Ok(page) => page_of(*id, *stored, schema, *request, rows@) == Ok::<
                    PageContents,
                    StorageError,
                >(page@),
                Err(error) => page_of(*id, *stored, schema, *request, rows@) == Err::<
                    PageContents,
                    StorageError,
                >(error),
            },
    {
        if request.offset < stored.row_count && rows.len() == 0 {
            return Err(corrupt(id, "live page range produced no rows"));
        }
        let metadata = stored.metadata()?;
        let has_more = request.offset < stored.row_count && (rows.len() as u64) < stored.row_count
            - request.offset;
        Ok(ResultPage { metadata, schema, offset: request.offset, rows, has_more })
    }

    /// Reads one row- and byte-bounded page from a live complete result, given its file, its first
    /// frame and the chunks that hold rows of the page.
    pub fn read_result_page_at(
        id: &String,
        request: &PageRequest,
        timestamp_ms: i64,
        limits: &ProtocolLimits,
        stored: Option<StoredResult>,
        file: &ResultFile,
        first: SchemaRead,
        reads: Vec<ChunkRead>,
    ) -> (result: Result<ResultPage, StorageError>)
        ensures
            match result {
                Ok(page) => result_page(
                    *id,
                    *request,
                    timestamp_ms,
                    *limits,
                    stored,
                    *file,
                    first,
                    reads@,
                ) == Ok::<PageContents, StorageError>(page@),
                Err(error) => result_page(
                    *id,
                    *request,
                    timestamp_ms,
                    *limits,
                    stored,
                    *file,
                    first,
                    reads@,
                ) == Err::<PageContents, StorageError>(error),
            },
    {
        let found = Storage::open_result_page(id, request, timestamp_ms, stored)?;
        ensure_exact_file_length(file, found.committed_length, id)?;
        let schema = read_schema(&found, limits, first)?;
        if request.offset >= found.row_count {
            let rows: Vec<JdbcRow> = Vec::new();
            assert(rows@ =~= Seq::empty());
            return Storage::close_result_page(id, &found, schema, request, rows);
        }
        let end: u64 = requested_end(request, found.row_count);
        let rows = read_page_rows(id, schema.columns, limits, request, end, reads)?;
        Storage::close_result_page(id, &found, schema, request, rows)
    }
}

} // verus!
