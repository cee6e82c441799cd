use vstd::prelude::*;

use crate::error::StorageError;
use crate::listing::{arrange, law_page_is_ordered, shows, take_page, Entry, ListOrder};
use crate::query::{
    first_of_page, has_value, holds_key, is_too_long, is_wanted, law_occurrence_needs_a_text,
    law_search_key_is_trimmed, lemma_filter_of_longer, occurs_in, page_offset, too_long,
    trimmed_key, wanted_key,
};
use crate::storage::Storage;
use crate::text::{
    blank, byte_len, contains_key, is_blank, law_occurrence_ignores_ascii_case, occurs,
    optional_holds, same_text, text_holds, text_len, white_space,
};

verus! {

/// Maximum UTF-8 bytes of a name.
pub const MAX_NAME_BYTES: usize = 512;

/// Maximum UTF-8 bytes of a datasource id.
pub const MAX_DATASOURCE_ID_BYTES: usize = 512;

/// Maximum UTF-8 bytes of the name of a datasource, a database, a schema or a user.
pub const MAX_SCOPE_BYTES: usize = 1_024;

/// Maximum UTF-8 bytes of a database type.
pub const MAX_DATABASE_TYPE_BYTES: usize = 255;

/// Maximum UTF-8 bytes of a status or of an operation type.
pub const MAX_STATE_BYTES: usize = 255;

/// Maximum UTF-8 bytes of an SQL text.
pub const MAX_DDL_BYTES: usize = 16 * 1024 * 1024;

/// Maximum UTF-8 bytes of the extended information.
pub const MAX_EXTEND_INFO_BYTES: usize = 16 * 1024 * 1024;

/// Maximum UTF-8 bytes of a search key.
pub const MAX_SEARCH_KEY_BYTES: usize = 256;

/// Maximum records of a page.
pub const MAX_PAGE_SIZE: u32 = 1_000;

/// Fields captured for one durable SQL execution-history entry.
#[derive(Debug, Clone, PartialEq, Eq)]
pub struct CreateOperationLog {
    pub name: Option<String>,
    /// Opaque datasource id that the user interface calls `dataSourceId`.
    pub data_source_id: Option<String>,
    pub data_source_name: Option<String>,
    pub connectable: Option<bool>,
    pub database_name: Option<String>,
    /// Community database type code, exposed as the historical `type` field.
    pub database_type: Option<String>,
    pub ddl: String,
    pub status: String,
    pub operation_rows: Option<i64>,
    /// Execution duration in milliseconds, exposed as the historical `useTime` field.
    pub use_time: Option<i64>,
    /// Opaque JSON-like metadata retained without interpretation.
    pub extend_info: Option<String>,
    pub schema_name: Option<String>,
    pub organization_id: Option<i64>,
    pub user_name: Option<String>,
    /// Whether the list representation's SQL text is truncated.
    pub more: bool,
    /// Community history discriminator, normally `SQL_EXECUTE` or `SQL_AUDIT`.
    pub operation_type: String,
}

/// Community-compatible filters and stable paging controls for execution history.
#[derive(Debug, Clone, PartialEq, Eq)]
pub struct OperationLogListQuery {
    pub data_source_id: Option<String>,
    pub database_name: Option<String>,
    pub schema_name: Option<String>,
    pub operation_type: Option<String>,
    pub search_key: Option<String>,
    pub page_no: u32,
    pub page_size: u32,
}

/// One durable SQL execution-history entry.
#[derive(Debug, Clone, PartialEq, Eq)]
pub struct OperationLogRecord {
    pub id: i64,
    pub name: Option<String>,
    pub data_source_id: Option<String>,
    pub data_source_name: Option<String>,
    pub connectable: Option<bool>,
    pub database_name: Option<String>,
    pub database_type: Option<String>,
    pub ddl: String,
    pub status: String,
    pub operation_rows: Option<i64>,
    pub use_time: Option<i64>,
    pub extend_info: Option<String>,
    pub schema_name: Option<String>,
    pub organization_id: Option<i64>,
    pub user_name: Option<String>,
    pub more: bool,
    pub operation_type: String,
    /// Creation time as Unix epoch milliseconds.
    pub created_at_ms: i64,
    /// Last update time as Unix epoch milliseconds.
    pub updated_at_ms: i64,
}

/// One newest-first stable page of durable execution history.
#[derive(Debug, Clone, PartialEq, Eq)]
pub struct OperationLogPage {
    pub records: Vec<OperationLogRecord>,
    pub total: u64,
    pub page_no: u32,
    pub page_size: u32,
}

impl Default for OperationLogListQuery {
    fn default() -> (result: OperationLogListQuery)
        ensures
            result == (OperationLogListQuery {
                data_source_id: None,
                database_name: None,
                schema_name: None,
                operation_type: None,
                search_key: None,
                page_no: 1,
                page_size: 20,
            }),
    {
        OperationLogListQuery {
            data_source_id: None,
            database_name: None,
            schema_name: None,
            operation_type: None,
            search_key: None,
            page_no: 1,
            page_size: 20,
        }
    }
}

impl Entry for OperationLogRecord {
    open spec fn number(self) -> i64 {
        self.id
    }

    open spec fn created(self) -> i64 {
        self.created_at_ms
    }

    open spec fn changed(self) -> i64 {
        self.updated_at_ms
    }

    fn entry_id(&self) -> (result: i64) {
        self.id
    }

    fn entry_created(&self) -> (result: i64) {
        self.created_at_ms
    }

    fn entry_changed(&self) -> (result: i64) {
        self.updated_at_ms
    }
}

/// The fields of an entry that are bounded.
pub open spec fn log_fields(record: OperationLogRecord) -> CreateOperationLog {
    CreateOperationLog {
        name: record.name,
        data_source_id: record.data_source_id,
        data_source_name: record.data_source_name,
        connectable: record.connectable,
        database_name: record.database_name,
        database_type: record.database_type,
        ddl: record.ddl,
        status: record.status,
        operation_rows: record.operation_rows,
        use_time: record.use_time,
        extend_info: record.extend_info,
        schema_name: record.schema_name,
        organization_id: record.organization_id,
        user_name: record.user_name,
        more: record.more,
        operation_type: record.operation_type,
    }
}

/// The rules of an entry; the first one broken decides the failure.
pub open spec fn log_fields_check(input: CreateOperationLog) -> Result<(), StorageError> {
    if too_long(input.name, MAX_NAME_BYTES) {
        Err(StorageError::InvalidOperationLog("name must be at most 512 UTF-8 bytes"))
    } else if too_long(input.data_source_id, MAX_DATASOURCE_ID_BYTES) {
        Err(StorageError::InvalidOperationLog("datasource id must be at most 512 UTF-8 bytes"))
    } else if too_long(input.data_source_name, MAX_SCOPE_BYTES) || too_long(
        input.database_name,
        MAX_SCOPE_BYTES,
    ) || too_long(input.schema_name, MAX_SCOPE_BYTES) || too_long(
        input.user_name,
        MAX_SCOPE_BYTES,
    ) {
        Err(
            StorageError::InvalidOperationLog(
                "datasource, database, schema, and user names must be at most 1024 UTF-8 bytes",
            ),
        )
    } else if too_long(input.database_type, MAX_DATABASE_TYPE_BYTES) {
        Err(StorageError::InvalidOperationLog("database type must be at most 255 UTF-8 bytes"))
    } else if blank(input.ddl@) || byte_len(input.ddl@) > MAX_DDL_BYTES {
        Err(StorageError::InvalidOperationLog("SQL text must be non-empty and at most 16 MiB"))
    } else if input.status@.len() == 0 || byte_len(input.status@) > MAX_STATE_BYTES {
        Err(
            StorageError::InvalidOperationLog(
                "status must be non-empty and at most 255 UTF-8 bytes",
            ),
        )
    } else if input.operation_rows matches Some(rows) && rows < 0 {
        Err(StorageError::InvalidOperationLog("operation rows must be non-negative"))
    } else if input.use_time matches Some(time) && time < 0 {
        Err(StorageError::InvalidOperationLog("use time must be non-negative"))
    } else if too_long(input.extend_info, MAX_EXTEND_INFO_BYTES) {
        Err(StorageError::InvalidOperationLog("extended information must be at most 16 MiB"))
    } else if input.operation_type@.len() == 0 || byte_len(input.operation_type@)
        > MAX_STATE_BYTES {
        Err(
            StorageError::InvalidOperationLog(
                "operation type must be non-empty and at most 255 UTF-8 bytes",
            ),
        )
    } else {
        Ok(())
    }
}

/// The rules of a stored entry.
pub open spec fn log_record_check(record: OperationLogRecord) -> Result<(), StorageError> {
    if record.id <= 0 {
        Err(
            StorageError::InvalidOperationLog(
                "persisted id must be a positive signed 64-bit integer",
            ),
        )
    } else if record.created_at_ms < 0 || record.updated_at_ms < record.created_at_ms {
        Err(StorageError::InvalidOperationLog("persisted timestamps are invalid"))
    } else {
        log_fields_check(log_fields(record))
    }
}

/// An entry as it is created.
pub open spec fn log_created(id: i64, input: CreateOperationLog, timestamp: i64) -> Result<
    OperationLogRecord,
    StorageError,
> {
    let record = OperationLogRecord {
        id,
        name: input.name,
        data_source_id: input.data_source_id,
        data_source_name: input.data_source_name,
        connectable: input.connectable,
        database_name: input.database_name,
        database_type: input.database_type,
        ddl: input.ddl,
        status: input.status,
        operation_rows: input.operation_rows,
        use_time: input.use_time,
        extend_info: input.extend_info,
        schema_name: input.schema_name,
        organization_id: input.organization_id,
        user_name: input.user_name,
        more: input.more,
        operation_type: input.operation_type,
        created_at_ms: timestamp,
        updated_at_ms: timestamp,
    };
    if log_fields_check(input) is Err {
        Err(log_fields_check(input)->Err_0)
    } else if log_record_check(record) is Err {
        Err(log_record_check(record)->Err_0)
    } else {
        Ok(record)
    }
}

/// The bounds of a list query.
pub open spec fn log_query_check(query: OperationLogListQuery) -> Result<(), StorageError> {
    if query.page_no == 0 {
        Err(StorageError::InvalidOperationLog("page number must be greater than zero"))
    } else if query.page_size == 0 || query.page_size > MAX_PAGE_SIZE {
        Err(StorageError::InvalidOperationLog("page size must be between 1 and 1000"))
    } else if too_long(query.search_key, MAX_SEARCH_KEY_BYTES) {
        Err(StorageError::InvalidOperationLog("search key must be at most 256 UTF-8 bytes"))
    } else {
        Ok(())
    }
}

/// The entry is in the scope of the query, and its SQL, or one of its names or states, holds the
/// search key.
pub open spec fn log_matches(query: OperationLogListQuery, record: OperationLogRecord) -> bool {
    &&& is_wanted(record.data_source_id, query.data_source_id)
    &&& is_wanted(record.database_name, query.database_name)
    &&& is_wanted(record.schema_name, query.schema_name)
    &&& query.operation_type matches Some(wanted) ==> record.operation_type@ == wanted@
    &&& wanted_key(query.search_key) matches Some(key) ==> {
        ||| occurs_in(key, record.name)
        ||| occurs_in(key, record.data_source_name)
        ||| occurs_in(key, record.database_name)
        ||| occurs_in(key, record.schema_name)
        ||| occurs(key, record.ddl@)
        ||| occurs(key, record.status@)
        ||| occurs_in(key, record.database_type)
        ||| occurs_in(key, record.user_name)
    }
}

/// The entries that match a query.
pub open spec fn logs_matching(
    query: OperationLogListQuery,
    records: Seq<OperationLogRecord>,
) -> Seq<OperationLogRecord> {
    records.filter(|record: OperationLogRecord| log_matches(query, record))
}

/// The first failure of stored entries.
pub open spec fn log_records_check(records: Seq<OperationLogRecord>) -> Result<(), StorageError>
    decreases records.len(),
{
    if records.len() == 0 {
        Ok(())
    } else if log_record_check(records[0]) is Err {
        log_record_check(records[0])
    } else {
        log_records_check(records.drop_first())
    }
}

/// The entries are shown on the page that was asked for.
pub open spec fn logs_shown(
    shown: Seq<OperationLogRecord>,
    query: OperationLogListQuery,
    records: Seq<OperationLogRecord>,
) -> bool {
    shows(
        shown,
        logs_matching(query, records),
        ListOrder::NewestFirst,
        page_offset(query.page_no, query.page_size),
        query.page_size as int,
    )
}

/// Checks an entry.
pub fn validate_operation_log(input: &CreateOperationLog) -> (result: Result<(), StorageError>)
    ensures
        result == log_fields_check(*input),
{
    if is_too_long(&input.name, MAX_NAME_BYTES) {
        return Err(StorageError::InvalidOperationLog("name must be at most 512 UTF-8 bytes"));
    }
    if is_too_long(&input.data_source_id, MAX_DATASOURCE_ID_BYTES) {
        return Err(
            StorageError::InvalidOperationLog("datasource id must be at most 512 UTF-8 bytes"),
        );
    }
    if is_too_long(&input.data_source_name, MAX_SCOPE_BYTES) || is_too_long(
        &input.database_name,
        MAX_SCOPE_BYTES,
    ) || is_too_long(&input.schema_name, MAX_SCOPE_BYTES) || is_too_long(
        &input.user_name,
        MAX_SCOPE_BYTES,
    ) {
        return Err(
            StorageError::InvalidOperationLog(
                "datasource, database, schema, and user names must be at most 1024 UTF-8 bytes",
            ),
        );
    }
    if is_too_long(&input.database_type, MAX_DATABASE_TYPE_BYTES) {
        return Err(
            StorageError::InvalidOperationLog("database type must be at most 255 UTF-8 bytes"),
        );
    }
    if is_blank(input.ddl.as_str()) || text_len(input.ddl.as_str()) > MAX_DDL_BYTES {
        return Err(
            StorageError::InvalidOperationLog("SQL text must be non-empty and at most 16 MiB"),
        );
    }
    if input.status.as_str().is_empty() || text_len(input.status.as_str()) > MAX_STATE_BYTES {
        return Err(
            StorageError::InvalidOperationLog(
                "status must be non-empty and at most 255 UTF-8 bytes",
            ),
        );
    }
    if let Some(rows) = input.operation_rows {
        if rows < 0 {
            return Err(StorageError::InvalidOperationLog("operation rows must be non-negative"));
        }
    }
    if let Some(time) = input.use_time {
        if time < 0 {
            return Err(StorageError::InvalidOperationLog("use time must be non-negative"));
        }
    }
    if is_too_long(&input.extend_info, MAX_EXTEND_INFO_BYTES) {
        return Err(
            StorageError::InvalidOperationLog("extended information must be at most 16 MiB"),
        );
    }
    if input.operation_type.as_str().is_empty() || text_len(input.operation_type.as_str())
        > MAX_STATE_BYTES {
        return Err(
            StorageError::InvalidOperationLog(
                "operation type must be non-empty and at most 255 UTF-8 bytes",
            ),
        );
    }
    Ok(())
}

/// Accepts a stored entry.
pub fn decode_operation_log(record: OperationLogRecord) -> (result: Result<
    OperationLogRecord,
    StorageError,
>)
    ensures
        result == (match log_record_check(record) {
            Ok(_) => Ok::<OperationLogRecord, StorageError>(record),
            Err(error) => Err(error),
        }),
{
    if record.id <= 0 {
        return Err(
            StorageError::InvalidOperationLog(
                "persisted id must be a positive signed 64-bit integer",
            ),
        );
    }
    if record.created_at_ms < 0 || record.updated_at_ms < record.created_at_ms {
        return Err(StorageError::InvalidOperationLog("persisted timestamps are invalid"));
    }
    let fields = CreateOperationLog {
        name: record.name,
        data_source_id: record.data_source_id,
        data_source_name: record.data_source_name,
        connectable: record.connectable,
        database_name: record.database_name,
        database_type: record.database_type,
        ddl: record.ddl,
        status: record.status,
        operation_rows: record.operation_rows,
        use_time: record.use_time,
        extend_info: record.extend_info,
        schema_name: record.schema_name,
        organization_id: record.organization_id,
        user_name: record.user_name,
        more: record.more,
        operation_type: record.operation_type,
    };
    validate_operation_log(&fields)?;
    Ok(
        OperationLogRecord {
            id: record.id,
            name: fields.name,
            data_source_id: fields.data_source_id,
            data_source_name: fields.data_source_name,
            connectable: fields.connectable,
            database_name: fields.database_name,
            database_type: fields.database_type,
            ddl: fields.ddl,
            status: fields.status,
            operation_rows: fields.operation_rows,
            use_time: fields.use_time,
            extend_info: fields.extend_info,
            schema_name: fields.schema_name,
            organization_id: fields.organization_id,
            user_name: fields.user_name,
            more: fields.more,
            operation_type: fields.operation_type,
            created_at_ms: record.created_at_ms,
            updated_at_ms: record.updated_at_ms,
        },
    )
}

/// Checks a list query.
pub fn validate_operation_log_query(query: &OperationLogListQuery) -> (result: Result<
    (),
    StorageError,
>)
    ensures
        result == log_query_check(*query),
{
    if query.page_no == 0 {
        return Err(StorageError::InvalidOperationLog("page number must be greater than zero"));
    }
    if query.page_size == 0 || query.page_size > MAX_PAGE_SIZE {
        return Err(StorageError::InvalidOperationLog("page size must be between 1 and 1000"));
    }
    if is_too_long(&query.search_key, MAX_SEARCH_KEY_BYTES) {
        return Err(
            StorageError::InvalidOperationLog("search key must be at most 256 UTF-8 bytes"),
        );
    }
    Ok(())
}

/// Tests whether an entry matches a query.
pub fn matches_operation_log(query: &OperationLogListQuery, record: &OperationLogRecord) -> (result:
    bool)
    ensures
        result == log_matches(*query, *record),
{
    if !has_value(&record.data_source_id, &query.data_source_id) || !has_value(
        &record.database_name,
        &query.database_name,
    ) || !has_value(&record.schema_name, &query.schema_name) {
        return false;
    }
    if let Some(wanted) = &query.operation_type {
        if !same_text(record.operation_type.as_str(), wanted.as_str()) {
            return false;
        }
    }
    match trimmed_key(&query.search_key) {
        None => true,
        Some(key) => holds_key(key, &record.name) || holds_key(key, &record.data_source_name)
            || holds_key(key, &record.database_name) || holds_key(key, &record.schema_name)
            || contains_key(record.ddl.as_str(), key) || contains_key(record.status.as_str(), key)
            || holds_key(key, &record.database_type) || holds_key(key, &record.user_name),
    }
}

impl Storage {
    /// Creates one execution-history entry.
    pub fn create_operation_log(id: i64, input: CreateOperationLog, timestamp: i64) -> (result:
        Result<OperationLogRecord, StorageError>)
        ensures
            result == log_created(id, input, timestamp),
    {
        validate_operation_log(&input)?;
        decode_operation_log(
            OperationLogRecord {
                id,
                name: input.name,
                data_source_id: input.data_source_id,
                data_source_name: input.data_source_name,
                connectable: input.connectable,
                database_name: input.database_name,
                database_type: input.database_type,
                ddl: input.ddl,
                status: input.status,
                operation_rows: input.operation_rows,
                use_time: input.use_time,
                extend_info: input.extend_info,
                schema_name: input.schema_name,
                organization_id: input.organization_id,
                user_name: input.user_name,
                more: input.more,
                operation_type: input.operation_type,
                created_at_ms: timestamp,
                updated_at_ms: timestamp,
            },
        )
    }

    /// Accepts the entry with an id, if there is one; no entry has an id that is not positive.
    pub fn get_operation_log(id: i64, row: Option<OperationLogRecord>) -> (result: Result<
        Option<OperationLogRecord>,
        StorageError,
    >)
        ensures
            result == (match row {
                None => Ok::<Option<OperationLogRecord>, StorageError>(None),
                Some(record) => if id <= 0 {
                    Ok(None)
                } else {
                    match log_record_check(record) {
                        Ok(_) => Ok(Some(record)),
                        Err(error) => Err(error),
                    }
                },
            }),
    {
        if id <= 0 {
            return Ok(None);
        }
        match row {
            None => Ok(None),
            Some(record) => {
                let accepted = decode_operation_log(record)?;
                Ok(Some(accepted))
            },
        }
    }

    /// Lists one page of the entries that match a query, the newest first.
    pub fn list_operation_logs(query: &OperationLogListQuery, records: Vec<OperationLogRecord>) -> (
    result: Result<OperationLogPage, StorageError>)
        ensures
            match result {
                Ok(page) => {
                    &&& log_query_check(*query) is Ok
                    &&& logs_shown(page.records@, *query, records@)
                    &&& log_records_check(page.records@) is Ok
                    &&& page.total == logs_matching(*query, records@).len()
                    &&& page.page_no == query.page_no
                    &&& page.page_size == query.page_size
                },
                Err(error) => if log_query_check(*query) is Err {
                    log_query_check(*query) == Err::<(), StorageError>(error)
                } else {
                    exists|shown: Seq<OperationLogRecord>| #[trigger]
                        logs_shown(shown, *query, records@) && log_records_check(shown) == Err::<
                            (),
                            StorageError,
                        >(error)
                },
            },
    {
        validate_operation_log_query(query)?;
        let offset: u64 = first_of_page(query.page_no, query.page_size);
        let ghost all = records@;
        let ghost wanted = |record: OperationLogRecord| log_matches(*query, record);
        let mut matching: Vec<OperationLogRecord> = Vec::new();
        proof {
            reveal(Seq::filter);
            assert(all.take(0).filter(wanted) =~= Seq::empty());
        }
        for record in it: records
            invariant
                it.seq() == all,
                wanted == (|record: OperationLogRecord| log_matches(*query, record)),
                matching@ == all.take(it.index() as int).filter(wanted),
        {
            proof {
                reveal(Seq::filter);
                assert(all.take(it.index() + 1).drop_last() =~= all.take(it.index() as int));
            }
            if matches_operation_log(query, &record) {
                matching.push(record);
            }
        }
        proof {
            assert(all.take(all.len() as int) =~= all);
        }
        let total: u64 = matching.len() as u64;
        let list = arrange(matching, ListOrder::NewestFirst);
        let shown = take_page(list, offset, query.page_size as u64);
        let ghost page = shown@;
        assert(logs_shown(page, *query, all));
        let mut accepted: Vec<OperationLogRecord> = Vec::new();
        proof {
            assert(page.skip(0) =~= page);
            assert(accepted@ =~= page.take(0));
        }
        for record in it: shown
            invariant
                it.seq() == page,
                all == records@,
                log_query_check(*query) is Ok,
                logs_shown(page, *query, all),
                accepted@ == page.take(it.index() as int),
                log_records_check(page) == log_records_check(page.skip(it.index() as int)),
        {
            proof {
                let rest = page.skip(it.index() as int);
                assert(rest[0] == record);
                assert(rest.drop_first() =~= page.skip(it.index() + 1));
                assert(page.take(it.index() + 1) =~= page.take(it.index() as int).push(record));
            }
            accepted.push(decode_operation_log(record)?);
        }
        proof {
            assert(page.take(page.len() as int) =~= page);
            assert(page.skip(page.len() as int).len() == 0);
        }
        Ok(
            OperationLogPage {
                records: accepted,
                total,
                page_no: query.page_no,
                page_size: query.page_size,
            },
        )
    }
}

/// An entry that was created is accepted when it is read back.
pub proof fn law_created_log_reads_back(id: i64, input: CreateOperationLog, timestamp: i64)
    requires
        log_created(id, input, timestamp) is Ok,
    ensures
        log_record_check(log_created(id, input, timestamp)->Ok_0) is Ok,
        log_fields(log_created(id, input, timestamp)->Ok_0) == input,
{
}

/// A search finds an entry exactly if it has every value that the query names and its SQL,
/// its status, or one of its names or its database type
/// holds the text between the white space at the ends of the search key, but for the case of ASCII
/// letters.
pub proof fn law_log_search_finds_what_holds_the_key(
    query: OperationLogListQuery,
    record: OperationLogRecord,
    before: Seq<char>,
    key: Seq<char>,
    after: Seq<char>,
)
    requires
        query.search_key matches Some(text) && text@ == before + key + after,
        blank(before),
        blank(after),
        key.len() > 0 && !white_space(key[0]) && !white_space(key.last()),
    ensures
        log_matches(query, record) <==> {
            &&& query.data_source_id matches Some(wanted)
                ==> (record.data_source_id matches Some(found) && found@
                == wanted@)
            &&& query.database_name matches Some(wanted)
                ==> (record.database_name matches Some(found) && found@
                == wanted@)
            &&& query.schema_name matches Some(wanted)
                ==> (record.schema_name matches Some(found) && found@
                == wanted@)
            &&& query.operation_type matches Some(wanted) ==> record.operation_type@ == wanted@
            &&& {
                ||| optional_holds(record.name, key)
                ||| optional_holds(record.data_source_name, key)
                ||| optional_holds(record.database_name, key)
                ||| optional_holds(record.schema_name, key)
                ||| text_holds(record.ddl@, key)
                ||| text_holds(record.status@, key)
                ||| optional_holds(record.database_type, key)
                ||| optional_holds(record.user_name, key)
            }
        },
{
    law_search_key_is_trimmed(before, key, after, query.search_key);
    law_occurrence_needs_a_text(key, record.name);
    law_occurrence_needs_a_text(key, record.data_source_name);
    law_occurrence_needs_a_text(key, record.database_name);
    law_occurrence_needs_a_text(key, record.schema_name);
    law_occurrence_ignores_ascii_case(key, record.ddl@);
    law_occurrence_ignores_ascii_case(key, record.status@);
    law_occurrence_needs_a_text(key, record.database_type);
    law_occurrence_needs_a_text(key, record.user_name);
}

/// Without a search key, or with one of white space alone, a query finds an entry exactly if it has
/// every value that the query names.
pub proof fn law_log_scope_is_what_the_query_names(query: OperationLogListQuery,
    record: OperationLogRecord)
    requires
        query.search_key matches Some(text) ==> blank(text@),
    ensures
        log_matches(query, record) <==> {
            &&& query.data_source_id matches Some(wanted)
                ==> (record.data_source_id matches Some(found) && found@
                == wanted@)
            &&& query.database_name matches Some(wanted)
                ==> (record.database_name matches Some(found) && found@
                == wanted@)
            &&& query.schema_name matches Some(wanted)
                ==> (record.schema_name matches Some(found) && found@
                == wanted@)
            &&& query.operation_type matches Some(wanted) ==> record.operation_type@ == wanted@
        },
{
    if let Some(text) = query.search_key {
        assert(text@ + Seq::<char>::empty() + Seq::<char>::empty() =~= text@);
        law_search_key_is_trimmed(text@, Seq::empty(), Seq::empty(), query.search_key);
    }
}

/// Each record that a query finds is listed and counted once, at its place, and no other one is.
pub proof fn law_log_found_is_counted(
    query: OperationLogListQuery,
    records: Seq<OperationLogRecord>,
    record: OperationLogRecord,
)
    ensures
        logs_matching(query, Seq::empty()).len() == 0,
        log_matches(query, record) ==> logs_matching(query, records.push(record))
            == logs_matching(query, records).push(record),
        !log_matches(query, record) ==> logs_matching(query, records.push(record))
            == logs_matching(query, records),
{
    lemma_filter_of_longer(records, record, |found: OperationLogRecord| log_matches(query, found));
}

/// An entry is created with every field that was given, under its id, created and last changed at
/// the given time. That succeeds exactly if the id is positive, the time is not negative, the SQL
/// is not blank, status and operation type are not empty, no number is negative and every text is
/// within its bound.
pub proof fn law_log_is_created_as_given(id: i64, input: CreateOperationLog, timestamp: i64)
    ensures
        log_created(id, input, timestamp) matches Ok(record) ==> {
            &&& record.id == id
            &&& record.name == input.name
            &&& record.data_source_id == input.data_source_id
            &&& record.data_source_name == input.data_source_name
            &&& record.connectable == input.connectable
            &&& record.database_name == input.database_name
            &&& record.database_type == input.database_type
            &&& record.ddl == input.ddl
            &&& record.status == input.status
            &&& record.operation_rows == input.operation_rows
            &&& record.use_time == input.use_time
            &&& record.extend_info == input.extend_info
            &&& record.schema_name == input.schema_name
            &&& record.organization_id == input.organization_id
            &&& record.user_name == input.user_name
            &&& record.more == input.more
            &&& record.operation_type == input.operation_type
            &&& record.created_at_ms == timestamp
            &&& record.updated_at_ms == timestamp
        },
        log_created(id, input, timestamp) is Ok <==> {
            &&& id > 0
            &&& timestamp >= 0
            &&& input.name matches Some(text) ==> byte_len(text@) <= 512
            &&& input.data_source_id matches Some(text) ==> byte_len(text@) <= 512
            &&& input.data_source_name matches Some(text) ==> byte_len(text@) <= 1024
            &&& input.database_name matches Some(text) ==> byte_len(text@) <= 1024
            &&& input.schema_name matches Some(text) ==> byte_len(text@) <= 1024
            &&& input.user_name matches Some(text) ==> byte_len(text@) <= 1024
            &&& input.database_type matches Some(text) ==> byte_len(text@) <= 255
            &&& !blank(input.ddl@) && byte_len(input.ddl@) <= 16_777_216
            &&& 0 < input.status@.len() && byte_len(input.status@) <= 255
            &&& input.operation_rows matches Some(rows) ==> rows >= 0
            &&& input.use_time matches Some(time) ==> time >= 0
            &&& input.extend_info matches Some(text) ==> byte_len(text@) <= 16_777_216
            &&& 0 < input.operation_type@.len() && byte_len(input.operation_type@) <= 255
        },
{
}

/// A stored entry is accepted exactly if its id is positive, it was not changed before it was
/// created, and its fields are such as a new entry may have.
pub proof fn law_stored_log_is_accepted(record: OperationLogRecord)
    ensures
        log_record_check(record) is Ok <==> {
            &&& record.id > 0
            &&& 0 <= record.created_at_ms <= record.updated_at_ms
            &&& record.name matches Some(text) ==> byte_len(text@) <= 512
            &&& record.data_source_id matches Some(text) ==> byte_len(text@) <= 512
            &&& record.data_source_name matches Some(text) ==> byte_len(text@) <= 1024
            &&& record.database_name matches Some(text) ==> byte_len(text@) <= 1024
            &&& record.schema_name matches Some(text) ==> byte_len(text@) <= 1024
            &&& record.user_name matches Some(text) ==> byte_len(text@) <= 1024
            &&& record.database_type matches Some(text) ==> byte_len(text@) <= 255
            &&& !blank(record.ddl@) && byte_len(record.ddl@) <= 16_777_216
            &&& 0 < record.status@.len() && byte_len(record.status@) <= 255
            &&& record.operation_rows matches Some(rows) ==> rows >= 0
            &&& record.use_time matches Some(time) ==> time >= 0
            &&& record.extend_info matches Some(text) ==> byte_len(text@) <= 16_777_216
            &&& 0 < record.operation_type@.len() && byte_len(record.operation_type@) <= 255
        },
{
}

/// A query is accepted exactly if it asks for a page from the first on, of one to a thousand
/// records, with a search key within its bound.
pub proof fn law_log_query_is_accepted(query: OperationLogListQuery)
    ensures
        log_query_check(query) is Ok <==> {
            &&& query.page_no >= 1
            &&& 1 <= query.page_size <= 1_000
            &&& query.search_key matches Some(text) ==> byte_len(text@) <= 256
        },
{
}

/// A page shows the entries that were found from the newest to the oldest, those of one time by
/// their ids, and the first page that has room for all leaves none out.
pub proof fn law_log_page_is_newest_first(
    shown: Seq<OperationLogRecord>,
    query: OperationLogListQuery,
    records: Seq<OperationLogRecord>,
)
    requires
        log_query_check(query) is Ok,
        logs_shown(shown, query, records),
    ensures
        ({
            let found = logs_matching(query, records);
            let skipped = (query.page_no - 1) * query.page_size;
            &&& found.len() <= skipped ==> shown.len() == 0
            &&& skipped < found.len() <= skipped + query.page_size ==> shown.len() == found.len()
                - skipped
            &&& skipped + query.page_size <= found.len() ==> shown.len() == query.page_size
            &&& forall|i: int| 0 <= i < shown.len() ==> found.contains(#[trigger] shown[i])
            &&& query.page_no == 1 && found.len() <= query.page_size ==> shown.to_multiset()
                == found.to_multiset()
        }),
        forall|i: int, j: int|
            0 <= i < j < shown.len() ==> {
                ||| (#[trigger] shown[i]).created_at_ms > (#[trigger] shown[j]).created_at_ms
                ||| shown[i].created_at_ms == shown[j].created_at_ms && shown[i].id >= shown[j].id
            },
{
    assert((query.page_no - 1) * query.page_size >= 0) by (nonlinear_arith)
        requires
            query.page_no >= 1,
            query.page_size >= 0,
    ;
    assert(query.page_no == 1 ==> (query.page_no - 1) * query.page_size == 0) by (nonlinear_arith);
    law_page_is_ordered(
        shown,
        logs_matching(query, records),
        ListOrder::NewestFirst,
        page_offset(query.page_no, query.page_size),
        query.page_size as int,
    );
    assert forall|i: int, j: int| 0 <= i < j < shown.len() implies ({
        ||| (#[trigger] shown[i]).created_at_ms > (#[trigger] shown[j]).created_at_ms
        ||| shown[i].created_at_ms == shown[j].created_at_ms && shown[i].id >= shown[j].id
    }) by {
        assert(shown[i].created() >= shown[j].created());
    }
}

/// Stored entries are accepted exactly if each of them is; otherwise the first one that is not decides
/// the failure.
pub proof fn law_first_broken_log_decides(records: Seq<OperationLogRecord>)
    ensures
        log_records_check(records) is Ok <==> forall|i: int|
            0 <= i < records.len() ==> log_record_check(#[trigger] records[i]) is Ok,
        log_records_check(records) is Err ==> exists|k: int|
            {
                &&& 0 <= k < records.len()
                &&& log_record_check(#[trigger] records[k]) == log_records_check(records)
                &&& forall|i: int| 0 <= i < k ==> log_record_check(#[trigger] records[i]) is Ok
            },
    decreases records.len(),
{
    if records.len() > 0 {
        let rest = records.drop_first();
        law_first_broken_log_decides(rest);
        if log_record_check(records[0]) is Ok {
            if log_records_check(records) is Ok {
                assert forall|i: int| 0 <= i < records.len() implies log_record_check(
                    #[trigger] records[i],
                ) is Ok by {
                    if i > 0 {
                        assert(rest[i - 1] == records[i]);
                    }
                }
            } else {
                let k = choose|k: int|
                    {
                        &&& 0 <= k < rest.len()
                        &&& log_record_check(#[trigger] rest[k]) == log_records_check(rest)
                        &&& forall|i: int| 0 <= i < k ==> log_record_check(#[trigger] rest[i]) is Ok
                    };
                assert(records[k + 1] == rest[k]);
                assert forall|i: int| 0 <= i < k + 1 implies log_record_check(#[trigger] records[i]) is Ok by {
                    if i > 0 {
                        assert(rest[i - 1] == records[i]);
                    }
                }
            }
        }
    }
}

} // verus!
