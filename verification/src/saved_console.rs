use vstd::prelude::*;

use crate::error::StorageError;
use crate::listing::{arrange, law_page_is_ordered, shows, take_page, Entry, ListOrder};
use crate::query::{
    first_of_page, has_value, holds_key, is_too_long, is_wanted, law_occurrence_needs_a_text,
    law_search_key_is_trimmed, lemma_filter_of_longer, occurs_in, page_offset, too_long,
    trimmed_key, wanted_key,
};
use crate::storage::Storage;
use crate::text::{
    blank, byte_len, contains_key, law_occurrence_ignores_ascii_case, occurs, optional_holds,
    same_text, text_holds, text_len, white_space,
};

verus! {

/// Maximum UTF-8 bytes of a name.
pub const MAX_NAME_BYTES: usize = 512;

/// Maximum UTF-8 bytes of a datasource id.
pub const MAX_DATASOURCE_ID_BYTES: usize = 512;

/// Maximum UTF-8 bytes of the name of a datasource, a database or a schema.
pub const MAX_SCOPE_BYTES: usize = 1_024;

/// Maximum UTF-8 bytes of a database type.
pub const MAX_DATABASE_TYPE_BYTES: usize = 255;

/// Maximum UTF-8 bytes of a status or of an operation type.
pub const MAX_STATE_BYTES: usize = 255;

/// Maximum UTF-8 bytes of an SQL text.
pub const MAX_DDL_BYTES: usize = 16 * 1024 * 1024;

/// Maximum UTF-8 bytes of a search key.
pub const MAX_SEARCH_KEY_BYTES: usize = 256;

/// Maximum records of a page.
pub const MAX_PAGE_SIZE: u32 = 1_000;

/// Fields used to create a durable Community SQL Console.
#[derive(Debug, Clone, PartialEq, Eq)]
pub struct CreateSavedConsole {
    /// Existing numeric identity to restore, or `None` to allocate one.
    pub id: Option<i64>,
    /// User-visible Console name.
    pub name: String,
    /// Opaque datasource id used by the compatibility layer.
    pub data_source_id: Option<String>,
    /// Datasource alias captured for the user interface.
    pub data_source_name: Option<String>,
    /// Bound database/catalog name.
    pub database_name: Option<String>,
    /// Bound schema name.
    pub schema_name: Option<String>,
    /// Community database type code, exposed as the historical `type` field.
    pub database_type: Option<String>,
    /// SQL editor contents.
    pub ddl: String,
    /// Community saved-state value, normally `DRAFT` or `RELEASE`.
    pub status: String,
    /// Community tab-open flag, either `y` or `n`.
    pub tab_opened: String,
    /// Community workspace operation type, normally `console`.
    pub operation_type: String,
}

/// Partial update for a durable Community SQL Console.
///
/// Nested options distinguish an unchanged nullable field (`None`) from a
/// field that should be cleared (`Some(None)`).
#[derive(Debug, Clone, Default, PartialEq, Eq)]
pub struct UpdateSavedConsole {
    pub name: Option<String>,
    pub data_source_id: Option<Option<String>>,
    pub data_source_name: Option<Option<String>>,
    pub database_name: Option<Option<String>>,
    pub schema_name: Option<Option<String>>,
    pub database_type: Option<Option<String>>,
    pub ddl: Option<String>,
    pub status: Option<String>,
    pub tab_opened: Option<String>,
    pub operation_type: Option<String>,
}

/// Filters and stable paging controls for saved Consoles.
#[derive(Debug, Clone, PartialEq, Eq)]
pub struct SavedConsoleListQuery {
    pub data_source_id: Option<String>,
    pub database_name: Option<String>,
    pub schema_name: Option<String>,
    pub status: Option<String>,
    pub tab_opened: Option<String>,
    pub operation_type: Option<String>,
    pub search_key: Option<String>,
    pub page_no: u32,
    pub page_size: u32,
    /// Sort by update time descending instead of creation time ascending.
    pub order_by_desc: bool,
}

/// One durable saved Console record.
#[derive(Debug, Clone, PartialEq, Eq)]
pub struct SavedConsoleRecord {
    pub id: i64,
    pub name: String,
    pub data_source_id: Option<String>,
    pub data_source_name: Option<String>,
    pub database_name: Option<String>,
    pub schema_name: Option<String>,
    pub database_type: Option<String>,
    pub ddl: String,
    pub status: String,
    pub tab_opened: String,
    pub operation_type: String,
    /// Creation time as Unix epoch milliseconds.
    pub created_at_ms: i64,
    /// Last update time as Unix epoch milliseconds.
    pub updated_at_ms: i64,
}

/// One stable page of durable saved Consoles.
#[derive(Debug, Clone, PartialEq, Eq)]
pub struct SavedConsolePage {
    pub records: Vec<SavedConsoleRecord>,
    pub total: u64,
    pub page_no: u32,
    pub page_size: u32,
}

impl Default for SavedConsoleListQuery {
    fn default() -> (result: SavedConsoleListQuery)
        ensures
            result == (SavedConsoleListQuery {
                data_source_id: None,
                database_name: None,
                schema_name: None,
                status: None,
                tab_opened: None,
                operation_type: None,
                search_key: None,
                page_no: 1,
                page_size: 20,
                order_by_desc: false,
            }),
    {
        SavedConsoleListQuery {
            data_source_id: None,
            database_name: None,
            schema_name: None,
            status: None,
            tab_opened: None,
            operation_type: None,
            search_key: None,
            page_no: 1,
            page_size: 20,
            order_by_desc: false,
        }
    }
}

impl Entry for SavedConsoleRecord {
    open spec fn number(self) -> i64 {
        self.id
    }

    open spec fn created(self) -> i64 {
        self.created_at_ms
    }

    open spec fn changed(self) -> i64 {
        self.updated_at_ms
    }

    fn entry_id(&self) -> (result: i64) {
        self.id
    }

    fn entry_created(&self) -> (result: i64) {
        self.created_at_ms
    }

    fn entry_changed(&self) -> (result: i64) {
        self.updated_at_ms
    }
}

/// The fields of a console that are bounded.
pub open spec fn console_fields_check(record: SavedConsoleRecord) -> Result<(), StorageError> {
    if byte_len(record.name@) > MAX_NAME_BYTES {
        Err(StorageError::InvalidSavedConsole("name must be at most 512 UTF-8 bytes"))
    } else if too_long(record.data_source_id, MAX_DATASOURCE_ID_BYTES) {
        Err(StorageError::InvalidSavedConsole("datasource id must be at most 512 UTF-8 bytes"))
    } else if too_long(record.data_source_name, MAX_SCOPE_BYTES) || too_long(
        record.database_name,
        MAX_SCOPE_BYTES,
    ) || too_long(record.schema_name, MAX_SCOPE_BYTES) {
        Err(
            StorageError::InvalidSavedConsole(
                "datasource, database, and schema names must be at most 1024 UTF-8 bytes",
            ),
        )
    } else if too_long(record.database_type, MAX_DATABASE_TYPE_BYTES) {
        Err(StorageError::InvalidSavedConsole("database type must be at most 255 UTF-8 bytes"))
    } else if byte_len(record.ddl@) > MAX_DDL_BYTES {
        Err(StorageError::InvalidSavedConsole("SQL text must be at most 16 MiB"))
    } else if record.status@.len() == 0 || byte_len(record.status@) > MAX_STATE_BYTES {
        Err(
            StorageError::InvalidSavedConsole(
                "status must be non-empty and at most 255 UTF-8 bytes",
            ),
        )
    } else if record.tab_opened@ != "y"@ && record.tab_opened@ != "n"@ {
        Err(StorageError::InvalidSavedConsole("tab-opened must be either y or n"))
    } else if record.operation_type@.len() == 0 || byte_len(record.operation_type@)
        > MAX_STATE_BYTES {
        Err(
            StorageError::InvalidSavedConsole(
                "operation type must be non-empty and at most 255 UTF-8 bytes",
            ),
        )
    } else {
        Ok(())
    }
}

/// The rules of a stored console.
pub open spec fn console_record_check(record: SavedConsoleRecord) -> Result<(), StorageError> {
    if record.id <= 0 {
        Err(
            StorageError::InvalidSavedConsole(
                "persisted id must be a positive signed 64-bit integer",
            ),
        )
    } else if record.created_at_ms < 0 || record.updated_at_ms < record.created_at_ms {
        Err(StorageError::InvalidSavedConsole("persisted timestamps are invalid"))
    } else {
        console_fields_check(record)
    }
}

/// A console with the fields of a request.
pub open spec fn console_record(
    input: CreateSavedConsole,
    allocated: i64,
    timestamp: i64,
) -> SavedConsoleRecord {
    SavedConsoleRecord {
        id: match input.id {
            Some(id) => id,
            None => allocated,
        },
        name: input.name,
        data_source_id: input.data_source_id,
        data_source_name: input.data_source_name,
        database_name: input.database_name,
        schema_name: input.schema_name,
        database_type: input.database_type,
        ddl: input.ddl,
        status: input.status,
        tab_opened: input.tab_opened,
        operation_type: input.operation_type,
        created_at_ms: timestamp,
        updated_at_ms: timestamp,
    }
}

/// A console as it is created: under the requested id, or under the one that was allocated.
pub open spec fn console_created(input: CreateSavedConsole, allocated: i64, timestamp: i64) -> Result<
    SavedConsoleRecord,
    StorageError,
> {
    let record = console_record(input, allocated, timestamp);
    if input.id matches Some(id) && id <= 0 {
        Err(StorageError::InvalidSavedConsole("id must be a positive signed 64-bit integer"))
    } else if console_fields_check(record) is Err {
        Err(console_fields_check(record)->Err_0)
    } else if console_record_check(record) is Err {
        Err(console_record_check(record)->Err_0)
    } else {
        Ok(record)
    }
}

/// A field after a partial update.
pub open spec fn or_kept<T>(change: Option<T>, current: T) -> T {
    match change {
        Some(value) => value,
        None => current,
    }
}

/// A console with the changes of a request; its update time never goes back.
pub open spec fn console_changed(
    current: SavedConsoleRecord,
    input: UpdateSavedConsole,
    now: i64,
) -> SavedConsoleRecord {
    SavedConsoleRecord {
        id: current.id,
        name: or_kept(input.name, current.name),
        data_source_id: or_kept(input.data_source_id, current.data_source_id),
        data_source_name: or_kept(input.data_source_name, current.data_source_name),
        database_name: or_kept(input.database_name, current.database_name),
        schema_name: or_kept(input.schema_name, current.schema_name),
        database_type: or_kept(input.database_type, current.database_type),
        ddl: or_kept(input.ddl, current.ddl),
        status: or_kept(input.status, current.status),
        tab_opened: or_kept(input.tab_opened, current.tab_opened),
        operation_type: or_kept(input.operation_type, current.operation_type),
        created_at_ms: current.created_at_ms,
        updated_at_ms: if now > current.updated_at_ms {
            now
        } else {
            current.updated_at_ms
        },
    }
}

/// A console as it is updated.
pub open spec fn console_updated(
    id: i64,
    input: UpdateSavedConsole,
    current: Option<SavedConsoleRecord>,
    now: i64,
) -> Result<SavedConsoleRecord, StorageError> {
    match current {
        None => Err(StorageError::SavedConsoleNotFound(id)),
        Some(record) => {
            let next = console_changed(record, input, now);
            if console_record_check(record) is Err {
                Err(console_record_check(record)->Err_0)
            } else if console_record_check(next) is Err {
                Err(console_record_check(next)->Err_0)
            } else {
                Ok(next)
            }
        },
    }
}

/// The bounds of a list query.
pub open spec fn console_query_check(query: SavedConsoleListQuery) -> Result<(), StorageError> {
    if query.page_no == 0 {
        Err(StorageError::InvalidSavedConsole("page number must be greater than zero"))
    } else if query.page_size == 0 || query.page_size > MAX_PAGE_SIZE {
        Err(StorageError::InvalidSavedConsole("page size must be between 1 and 1000"))
    } else if too_long(query.search_key, MAX_SEARCH_KEY_BYTES) {
        Err(StorageError::InvalidSavedConsole("search key must be at most 256 UTF-8 bytes"))
    } else {
        Ok(())
    }
}

/// The console is in the scope of the query, and one of its names holds the search key.
pub open spec fn console_matches(query: SavedConsoleListQuery, record: SavedConsoleRecord) -> bool {
    &&& is_wanted(record.data_source_id, query.data_source_id)
    &&& is_wanted(record.database_name, query.database_name)
    &&& is_wanted(record.schema_name, query.schema_name)
    &&& query.status matches Some(wanted) ==> record.status@ == wanted@
    &&& query.tab_opened matches Some(wanted) ==> record.tab_opened@ == wanted@
    &&& query.operation_type matches Some(wanted) ==> record.operation_type@ == wanted@
    &&& wanted_key(query.search_key) matches Some(key) ==> {
        ||| occurs(key, record.name@)
        ||| occurs_in(key, record.data_source_name)
        ||| occurs_in(key, record.database_name)
        ||| occurs_in(key, record.schema_name)
    }
}

/// The consoles that match a query.
pub open spec fn consoles_matching(
    query: SavedConsoleListQuery,
    records: Seq<SavedConsoleRecord>,
) -> Seq<SavedConsoleRecord> {
    records.filter(|record: SavedConsoleRecord| console_matches(query, record))
}

/// The order that a query asks for.
pub open spec fn console_order(query: SavedConsoleListQuery) -> ListOrder {
    if query.order_by_desc {
        ListOrder::LatestChangeFirst
    } else {
        ListOrder::OldestFirst
    }
}

/// The first failure of stored consoles.
pub open spec fn console_records_check(records: Seq<SavedConsoleRecord>) -> Result<(), StorageError>
    decreases records.len(),
{
    if records.len() == 0 {
        Ok(())
    } else if console_record_check(records[0]) is Err {
        console_record_check(records[0])
    } else {
        console_records_check(records.drop_first())
    }
}

/// The consoles are shown on the page that was asked for.
pub open spec fn consoles_shown(
    shown: Seq<SavedConsoleRecord>,
    query: SavedConsoleListQuery,
    records: Seq<SavedConsoleRecord>,
) -> bool {
    shows(
        shown,
        consoles_matching(query, records),
        console_order(query),
        page_offset(query.page_no, query.page_size),
        query.page_size as int,
    )
}

fn check_fields(record: &SavedConsoleRecord) -> (result: Result<(), StorageError>)
    ensures
        result == console_fields_check(*record),
{
    if text_len(record.name.as_str()) > MAX_NAME_BYTES {
        return Err(StorageError::InvalidSavedConsole("name must be at most 512 UTF-8 bytes"));
    }
    if is_too_long(&record.data_source_id, MAX_DATASOURCE_ID_BYTES) {
        return Err(
            StorageError::InvalidSavedConsole("datasource id must be at most 512 UTF-8 bytes"),
        );
    }
    if is_too_long(&record.data_source_name, MAX_SCOPE_BYTES) || is_too_long(
        &record.database_name,
        MAX_SCOPE_BYTES,
    ) || is_too_long(&record.schema_name, MAX_SCOPE_BYTES) {
        return Err(
            StorageError::InvalidSavedConsole(
                "datasource, database, and schema names must be at most 1024 UTF-8 bytes",
            ),
        );
    }
    if is_too_long(&record.database_type, MAX_DATABASE_TYPE_BYTES) {
        return Err(
            StorageError::InvalidSavedConsole("database type must be at most 255 UTF-8 bytes"),
        );
    }
    if text_len(record.ddl.as_str()) > MAX_DDL_BYTES {
        return Err(StorageError::InvalidSavedConsole("SQL text must be at most 16 MiB"));
    }
    if record.status.as_str().is_empty() || text_len(record.status.as_str()) > MAX_STATE_BYTES {
        return Err(
            StorageError::InvalidSavedConsole(
                "status must be non-empty and at most 255 UTF-8 bytes",
            ),
        );
    }
    if !same_text(record.tab_opened.as_str(), "y") && !same_text(record.tab_opened.as_str(), "n") {
        return Err(StorageError::InvalidSavedConsole("tab-opened must be either y or n"));
    }
    if record.operation_type.as_str().is_empty() || text_len(record.operation_type.as_str())
        > MAX_STATE_BYTES {
        return Err(
            StorageError::InvalidSavedConsole(
                "operation type must be non-empty and at most 255 UTF-8 bytes",
            ),
        );
    }
    Ok(())
}

/// Checks a stored console.
pub fn validate_saved_console(record: &SavedConsoleRecord) -> (result: Result<(), StorageError>)
    ensures
        result == console_record_check(*record),
{
    if record.id <= 0 {
        return Err(
            StorageError::InvalidSavedConsole(
                "persisted id must be a positive signed 64-bit integer",
            ),
        );
    }
    if record.created_at_ms < 0 || record.updated_at_ms < record.created_at_ms {
        return Err(StorageError::InvalidSavedConsole("persisted timestamps are invalid"));
    }
    check_fields(record)
}

/// Checks a list query.
pub fn validate_saved_console_query(query: &SavedConsoleListQuery) -> (result: Result<
    (),
    StorageError,
>)
    ensures
        result == console_query_check(*query),
{
    if query.page_no == 0 {
        return Err(StorageError::InvalidSavedConsole("page number must be greater than zero"));
    }
    if query.page_size == 0 || query.page_size > MAX_PAGE_SIZE {
        return Err(StorageError::InvalidSavedConsole("page size must be between 1 and 1000"));
    }
    if is_too_long(&query.search_key, MAX_SEARCH_KEY_BYTES) {
        return Err(
            StorageError::InvalidSavedConsole("search key must be at most 256 UTF-8 bytes"),
        );
    }
    Ok(())
}

fn has_text(text: &String, wanted: &Option<String>) -> (result: bool)
    ensures
        result == (*wanted matches Some(value) ==> text@ == value@),
{
    match wanted {
        Some(value) => same_text(text.as_str(), value.as_str()),
        None => true,
    }
}

/// Tests whether a console matches a query.
pub fn matches_saved_console(query: &SavedConsoleListQuery, record: &SavedConsoleRecord) -> (result:
    bool)
    ensures
        result == console_matches(*query, *record),
{
    if !has_value(&record.data_source_id, &query.data_source_id) || !has_value(
        &record.database_name,
        &query.database_name,
    ) || !has_value(&record.schema_name, &query.schema_name) || !has_text(
        &record.status,
        &query.status,
    ) || !has_text(&record.tab_opened, &query.tab_opened) || !has_text(
        &record.operation_type,
        &query.operation_type,
    ) {
        return false;
    }
    match trimmed_key(&query.search_key) {
        None => true,
        Some(key) => contains_key(record.name.as_str(), key) || holds_key(
            key,
            &record.data_source_name,
        ) || holds_key(key, &record.database_name) || holds_key(key, &record.schema_name),
    }
}

fn choose_value<T>(change: Option<T>, current: T) -> (result: T)
    ensures
        result == or_kept(change, current),
{
    match change {
        Some(value) => value,
        None => current,
    }
}

impl Storage {
    /// Creates a saved console, under the requested id or under the one that was allocated.
    pub fn create_saved_console(input: CreateSavedConsole, allocated: i64, timestamp: i64) -> (result:
        Result<SavedConsoleRecord, StorageError>)
        ensures
            result == console_created(input, allocated, timestamp),
    {
        let id: i64 = match input.id {
            Some(id) => {
                if id <= 0 {
                    return Err(
                        StorageError::InvalidSavedConsole(
                            "id must be a positive signed 64-bit integer",
                        ),
                    );
                }
                id
            },
            None => allocated,
        };
        let record = SavedConsoleRecord {
            id,
            name: input.name,
            data_source_id: input.data_source_id,
            data_source_name: input.data_source_name,
            database_name: input.database_name,
            schema_name: input.schema_name,
            database_type: input.database_type,
            ddl: input.ddl,
            status: input.status,
            tab_opened: input.tab_opened,
            operation_type: input.operation_type,
            created_at_ms: timestamp,
            updated_at_ms: timestamp,
        };
        check_fields(&record)?;
        validate_saved_console(&record)?;
        Ok(record)
    }

    /// Accepts the console with an id, if there is one; no console has an id that is not positive.
    pub fn get_saved_console(id: i64, row: Option<SavedConsoleRecord>) -> (result: Result<
        Option<SavedConsoleRecord>,
        StorageError,
    >)
        ensures
            result == (match row {
                None => Ok::<Option<SavedConsoleRecord>, StorageError>(None),
                Some(record) => if id <= 0 {
                    Ok(None)
                } else {
                    match console_record_check(record) {
                        Ok(_) => Ok(Some(record)),
                        Err(error) => Err(error),
                    }
                },
            }),
    {
        if id <= 0 {
            return Ok(None);
        }
        match row {
            None => Ok(None),
            Some(record) => {
                validate_saved_console(&record)?;
                Ok(Some(record))
            },
        }
    }

    /// Applies a partial update.
    pub fn update_saved_console(
        id: i64,
        input: UpdateSavedConsole,
        current: Option<SavedConsoleRecord>,
        now: i64,
    ) -> (result: Result<SavedConsoleRecord, StorageError>)
        ensures
            result == console_updated(id, input, current, now),
    {
        let record = match current {
            Some(record) => record,
            None => return Err(StorageError::SavedConsoleNotFound(id)),
        };
        validate_saved_console(&record)?;
        let updated_at_ms: i64 = if now > record.updated_at_ms {
            now
        } else {
            record.updated_at_ms
        };
        let next = SavedConsoleRecord {
            id: record.id,
            name: choose_value(input.name, record.name),
            data_source_id: choose_value(input.data_source_id, record.data_source_id),
            data_source_name: choose_value(input.data_source_name, record.data_source_name),
            database_name: choose_value(input.database_name, record.database_name),
            schema_name: choose_value(input.schema_name, record.schema_name),
            database_type: choose_value(input.database_type, record.database_type),
            ddl: choose_value(input.ddl, record.ddl),
            status: choose_value(input.status, record.status),
            tab_opened: choose_value(input.tab_opened, record.tab_opened),
            operation_type: choose_value(input.operation_type, record.operation_type),
            created_at_ms: record.created_at_ms,
            updated_at_ms,
        };
        validate_saved_console(&next)?;
        Ok(next)
    }

    /// Decides whether there is a console to delete.
    pub fn delete_saved_console(id: i64, exists: bool) -> (result: bool)
        ensures
            result == (id > 0 && exists),
    {
        id > 0 && exists
    }

    /// Lists one page of the consoles that match a query, in the order that it asks for.
    pub fn list_saved_consoles(query: &SavedConsoleListQuery, records: Vec<SavedConsoleRecord>) -> (
    result: Result<SavedConsolePage, StorageError>)
        ensures
            match result {
                Ok(page) => {
                    &&& console_query_check(*query) is Ok
                    &&& consoles_shown(page.records@, *query, records@)
                    &&& console_records_check(page.records@) is Ok
                    &&& page.total == consoles_matching(*query, records@).len()
                    &&& page.page_no == query.page_no
                    &&& page.page_size == query.page_size
                },
                Err(error) => if console_query_check(*query) is Err {
                    console_query_check(*query) == Err::<(), StorageError>(error)
                } else {
                    exists|shown: Seq<SavedConsoleRecord>| #[trigger]
                        consoles_shown(shown, *query, records@) && console_records_check(shown)
                            == Err::<(), StorageError>(error)
                },
            },
    {
        validate_saved_console_query(query)?;
        let offset: u64 = first_of_page(query.page_no, query.page_size);
        let ghost all = records@;
        let ghost wanted = |record: SavedConsoleRecord| console_matches(*query, record);
        let mut matching: Vec<SavedConsoleRecord> = Vec::new();
        proof {
            reveal(Seq::filter);
            assert(all.take(0).filter(wanted) =~= Seq::empty());
        }
        for record in it: records
            invariant
                it.seq() == all,
                wanted == (|record: SavedConsoleRecord| console_matches(*query, record)),
                matching@ == all.take(it.index() as int).filter(wanted),
        {
            proof {
                reveal(Seq::filter);
                assert(all.take(it.index() + 1).drop_last() =~= all.take(it.index() as int));
            }
            if matches_saved_console(query, &record) {
                matching.push(record);
            }
        }
        proof {
            assert(all.take(all.len() as int) =~= all);
        }
        let total: u64 = matching.len() as u64;
        let order = if query.order_by_desc {
            ListOrder::LatestChangeFirst
        } else {
            ListOrder::OldestFirst
        };
        let list = arrange(matching, order);
        let shown = take_page(list, offset, query.page_size as u64);
        assert(consoles_shown(shown@, *query, all));
        let mut i: usize = 0;
        proof {
            assert(shown@.skip(0) =~= shown@);
        }
        while i < shown.len()
            invariant
                i <= shown@.len(),
                all == records@,
                console_query_check(*query) is Ok,
                consoles_shown(shown@, *query, all),
                console_records_check(shown@) == console_records_check(shown@.skip(i as int)),
            decreases shown@.len() - i,
        {
            proof {
                assert(shown@.skip(i as int).drop_first() =~= shown@.skip(i + 1));
            }
            validate_saved_console(&shown[i])?;
            i = i + 1;
        }
        proof {
            assert(shown@.skip(shown@.len() as int).len() == 0);
        }
        Ok(
            SavedConsolePage {
                records: shown,
                total,
                page_no: query.page_no,
                page_size: query.page_size,
            },
        )
    }
}

/// A partial update changes what it names and keeps everything else.
pub proof fn law_console_update_keeps_unnamed_fields(
    id: i64,
    input: UpdateSavedConsole,
    current: SavedConsoleRecord,
    now: i64,
)
    requires
        console_updated(id, input, Some(current), now) is Ok,
    ensures
        ({
            let next = console_updated(id, input, Some(current), now)->Ok_0;
            &&& next.id == current.id
            &&& next.created_at_ms == current.created_at_ms
            &&& next.updated_at_ms >= current.updated_at_ms
            &&& input.name is None ==> next.name == current.name
            &&& input.data_source_id is None ==> next.data_source_id == current.data_source_id
            &&& input.data_source_name is None ==> next.data_source_name == current.data_source_name
            &&& input.database_name is None ==> next.database_name == current.database_name
            &&& input.schema_name is None ==> next.schema_name == current.schema_name
            &&& input.database_type is None ==> next.database_type == current.database_type
            &&& input.ddl is None ==> next.ddl == current.ddl
            &&& input.status is None ==> next.status == current.status
            &&& input.tab_opened is None ==> next.tab_opened == current.tab_opened
            &&& input.operation_type is None ==> next.operation_type == current.operation_type
        }),
{
}

/// Every console that is created or updated is accepted when it is read back.
pub proof fn law_written_console_reads_back(
    input: CreateSavedConsole,
    allocated: i64,
    timestamp: i64,
    id: i64,
    update: UpdateSavedConsole,
    current: Option<SavedConsoleRecord>,
    now: i64,
)
    ensures
        console_created(input, allocated, timestamp) matches Ok(record) ==> console_record_check(
            record,
        ) is Ok,
        console_updated(id, update, current, now) matches Ok(record) ==> console_record_check(
            record,
        ) is Ok,
{
}

/// A search finds a console exactly if it has every value that the query names and one of
/// its names
/// holds the text between the white space at the ends of the search key, but for the case of ASCII
/// letters.
pub proof fn law_console_search_finds_what_holds_the_key(
    query: SavedConsoleListQuery,
    record: SavedConsoleRecord,
    before: Seq<char>,
    key: Seq<char>,
    after: Seq<char>,
)
    requires
        query.search_key matches Some(text) && text@ == before + key + after,
        blank(before),
        blank(after),
        key.len() > 0 && !white_space(key[0]) && !white_space(key.last()),
    ensures
        console_matches(query, record) <==> {
            &&& query.data_source_id matches Some(wanted)
                ==> (record.data_source_id matches Some(found) && found@
                == wanted@)
            &&& query.database_name matches Some(wanted)
                ==> (record.database_name matches Some(found) && found@
                == wanted@)
            &&& query.schema_name matches Some(wanted)
                ==> (record.schema_name matches Some(found) && found@
                == wanted@)
            &&& query.status matches Some(wanted) ==> record.status@ == wanted@
            &&& query.tab_opened matches Some(wanted) ==> record.tab_opened@ == wanted@
            &&& query.operation_type matches Some(wanted) ==> record.operation_type@ == wanted@
            &&& {
                ||| text_holds(record.name@, key)
                ||| optional_holds(record.data_source_name, key)
                ||| optional_holds(record.database_name, key)
                ||| optional_holds(record.schema_name, key)
            }
        },
{
    law_search_key_is_trimmed(before, key, after, query.search_key);
    law_occurrence_ignores_ascii_case(key, record.name@);
    law_occurrence_needs_a_text(key, record.data_source_name);
    law_occurrence_needs_a_text(key, record.database_name);
    law_occurrence_needs_a_text(key, record.schema_name);
}

/// Without a search key, or with one of white space alone, a query finds a console exactly if it has
/// every value that the query names.
pub proof fn law_console_scope_is_what_the_query_names(query: SavedConsoleListQuery,
    record: SavedConsoleRecord)
    requires
        query.search_key matches Some(text) ==> blank(text@),
    ensures
        console_matches(query, record) <==> {
            &&& query.data_source_id matches Some(wanted)
                ==> (record.data_source_id matches Some(found) && found@
                == wanted@)
            &&& query.database_name matches Some(wanted)
                ==> (record.database_name matches Some(found) && found@
                == wanted@)
            &&& query.schema_name matches Some(wanted)
                ==> (record.schema_name matches Some(found) && found@
                == wanted@)
            &&& query.status matches Some(wanted) ==> record.status@ == wanted@
            &&& query.tab_opened matches Some(wanted) ==> record.tab_opened@ == wanted@
            &&& query.operation_type matches Some(wanted) ==> record.operation_type@ == wanted@
        },
{
    if let Some(text) = query.search_key {
        assert(text@ + Seq::<char>::empty() + Seq::<char>::empty() =~= text@);
        law_search_key_is_trimmed(text@, Seq::empty(), Seq::empty(), query.search_key);
    }
}

/// Each record that a query finds is listed and counted once, at its place, and no other one is.
pub proof fn law_console_found_is_counted(
    query: SavedConsoleListQuery,
    records: Seq<SavedConsoleRecord>,
    record: SavedConsoleRecord,
)
    ensures
        consoles_matching(query, Seq::empty()).len() == 0,
        console_matches(query, record) ==> consoles_matching(query, records.push(record))
            == consoles_matching(query, records).push(record),
        !console_matches(query, record) ==> consoles_matching(query, records.push(record))
            == consoles_matching(query, records),
{
    lemma_filter_of_longer(records, record, |found: SavedConsoleRecord| console_matches(query, found));
}

/// A console is created with every field that was given, under the id that was given or else the
/// one that was allocated, created and last changed at the given time. That succeeds exactly if the
/// id is positive, the time is not negative, the tab is open or not, status and operation type are
/// not empty and every text is within its bound.
pub proof fn law_console_is_created_as_given(
    input: CreateSavedConsole,
    allocated: i64,
    timestamp: i64,
)
    ensures
        console_created(input, allocated, timestamp) matches Ok(record) ==> {
            &&& input.id matches Some(id) ==> record.id == id
            &&& input.id is None ==> record.id == allocated
            &&& record.name == input.name
            &&& record.data_source_id == input.data_source_id
            &&& record.data_source_name == input.data_source_name
            &&& record.database_name == input.database_name
            &&& record.schema_name == input.schema_name
            &&& record.database_type == input.database_type
            &&& record.ddl == input.ddl
            &&& record.status == input.status
            &&& record.tab_opened == input.tab_opened
            &&& record.operation_type == input.operation_type
            &&& record.created_at_ms == timestamp
            &&& record.updated_at_ms == timestamp
        },
        console_created(input, allocated, timestamp) is Ok <==> {
            &&& input.id matches Some(id) ==> id > 0
            &&& input.id is None ==> allocated > 0
            &&& timestamp >= 0
            &&& byte_len(input.name@) <= 512
            &&& input.data_source_id matches Some(text) ==> byte_len(text@) <= 512
            &&& input.data_source_name matches Some(text) ==> byte_len(text@) <= 1024
            &&& input.database_name matches Some(text) ==> byte_len(text@) <= 1024
            &&& input.schema_name matches Some(text) ==> byte_len(text@) <= 1024
            &&& input.database_type matches Some(text) ==> byte_len(text@) <= 255
            &&& byte_len(input.ddl@) <= 16_777_216
            &&& 0 < input.status@.len() && byte_len(input.status@) <= 255
            &&& input.tab_opened@ == seq!['y'] || input.tab_opened@ == seq!['n']
            &&& 0 < input.operation_type@.len() && byte_len(input.operation_type@) <= 255
        },
{
    reveal_strlit("y");
    reveal_strlit("n");
    assert("y"@ =~= seq!['y']);
    assert("n"@ =~= seq!['n']);
}

/// A stored console is accepted exactly if its id is positive, it was not changed before it was
/// created, and its fields are such as a new console may have.
pub proof fn law_stored_console_is_accepted(record: SavedConsoleRecord)
    ensures
        console_record_check(record) is Ok <==> {
            &&& record.id > 0
            &&& 0 <= record.created_at_ms <= record.updated_at_ms
            &&& byte_len(record.name@) <= 512
            &&& record.data_source_id matches Some(text) ==> byte_len(text@) <= 512
            &&& record.data_source_name matches Some(text) ==> byte_len(text@) <= 1024
            &&& record.database_name matches Some(text) ==> byte_len(text@) <= 1024
            &&& record.schema_name matches Some(text) ==> byte_len(text@) <= 1024
            &&& record.database_type matches Some(text) ==> byte_len(text@) <= 255
            &&& byte_len(record.ddl@) <= 16_777_216
            &&& 0 < record.status@.len() && byte_len(record.status@) <= 255
            &&& record.tab_opened@ == seq!['y'] || record.tab_opened@ == seq!['n']
            &&& 0 < record.operation_type@.len() && byte_len(record.operation_type@) <= 255
        },
{
    reveal_strlit("y");
    reveal_strlit("n");
    assert("y"@ =~= seq!['y']);
    assert("n"@ =~= seq!['n']);
}

/// An update gives each field that it names the value that it names, and leaves every other field.
/// The id and the creation time stay, and the update time is the given time unless that lies
/// before the one of the console.
pub proof fn law_console_update_sets_named_fields(
    id: i64,
    input: UpdateSavedConsole,
    current: SavedConsoleRecord,
    now: i64,
)
    ensures
        console_updated(id, input, Some(current), now) matches Ok(next) ==> {
            &&& input.name matches Some(value) ==> next.name == value
            &&& input.name is None ==> next.name == current.name
            &&& input.data_source_id matches Some(value) ==> next.data_source_id == value
            &&& input.data_source_id is None ==> next.data_source_id == current.data_source_id
            &&& input.data_source_name matches Some(value) ==> next.data_source_name == value
            &&& input.data_source_name is None ==> next.data_source_name == current.data_source_name
            &&& input.database_name matches Some(value) ==> next.database_name == value
            &&& input.database_name is None ==> next.database_name == current.database_name
            &&& input.schema_name matches Some(value) ==> next.schema_name == value
            &&& input.schema_name is None ==> next.schema_name == current.schema_name
            &&& input.database_type matches Some(value) ==> next.database_type == value
            &&& input.database_type is None ==> next.database_type == current.database_type
            &&& input.ddl matches Some(value) ==> next.ddl == value
            &&& input.ddl is None ==> next.ddl == current.ddl
            &&& input.status matches Some(value) ==> next.status == value
            &&& input.status is None ==> next.status == current.status
            &&& input.tab_opened matches Some(value) ==> next.tab_opened == value
            &&& input.tab_opened is None ==> next.tab_opened == current.tab_opened
            &&& input.operation_type matches Some(value) ==> next.operation_type == value
            &&& input.operation_type is None ==> next.operation_type == current.operation_type
            &&& next.id == current.id
            &&& next.created_at_ms == current.created_at_ms
            &&& now >= current.updated_at_ms ==> next.updated_at_ms == now
            &&& now < current.updated_at_ms ==> next.updated_at_ms == current.updated_at_ms
        },
        console_updated(id, input, None, now) == Err::<SavedConsoleRecord, StorageError>(
            StorageError::SavedConsoleNotFound(id),
        ),
{
}

/// An update is accepted exactly if the console is a valid one and so is each value that the update
/// names.
pub proof fn law_console_update_is_accepted(
    id: i64,
    input: UpdateSavedConsole,
    current: SavedConsoleRecord,
    now: i64,
)
    requires
        console_record_check(current) is Ok,
    ensures
        console_updated(id, input, Some(current), now) is Ok <==> {
            &&& input.name matches Some(text) ==> byte_len(text@) <= 512
            &&& input.data_source_id matches Some(Some(text)) ==> byte_len(text@) <= 512
            &&& input.data_source_name matches Some(Some(text)) ==> byte_len(text@) <= 1_024
            &&& input.database_name matches Some(Some(text)) ==> byte_len(text@) <= 1_024
            &&& input.schema_name matches Some(Some(text)) ==> byte_len(text@) <= 1_024
            &&& input.database_type matches Some(Some(text)) ==> byte_len(text@) <= 255
            &&& input.ddl matches Some(text) ==> byte_len(text@) <= 16_777_216
            &&& input.status matches Some(text) ==> 0 < text@.len() && byte_len(text@) <= 255
            &&& input.tab_opened matches Some(text) ==> text@ == seq!['y'] || text@ == seq!['n']
            &&& input.operation_type matches Some(text) ==> 0 < text@.len() && byte_len(text@)
                <= 255
        },
{
    reveal_strlit("y");
    reveal_strlit("n");
    assert("y"@ =~= seq!['y']);
    assert("n"@ =~= seq!['n']);
}

/// A query is accepted exactly if it asks for a page from the first on, of one to a thousand
/// records, with a search key within its bound.
pub proof fn law_console_query_is_accepted(query: SavedConsoleListQuery)
    ensures
        console_query_check(query) is Ok <==> {
            &&& query.page_no >= 1
            &&& 1 <= query.page_size <= 1_000
            &&& query.search_key matches Some(text) ==> byte_len(text@) <= 256
        },
{
}

/// A page shows the consoles that were found by their creation, the oldest first, or, if the query
/// asks for it, by their last change, the latest first; those of one time go by their ids. The
/// first page that has room for all leaves none out.
pub proof fn law_console_page_is_ordered(
    shown: Seq<SavedConsoleRecord>,
    query: SavedConsoleListQuery,
    records: Seq<SavedConsoleRecord>,
)
    requires
        console_query_check(query) is Ok,
        consoles_shown(shown, query, records),
    ensures
        ({
            let found = consoles_matching(query, records);
            let skipped = (query.page_no - 1) * query.page_size;
            &&& found.len() <= skipped ==> shown.len() == 0
            &&& skipped < found.len() <= skipped + query.page_size ==> shown.len() == found.len()
                - skipped
            &&& skipped + query.page_size <= found.len() ==> shown.len() == query.page_size
            &&& forall|i: int| 0 <= i < shown.len() ==> found.contains(#[trigger] shown[i])
            &&& query.page_no == 1 && found.len() <= query.page_size ==> shown.to_multiset()
                == found.to_multiset()
        }),
        !query.order_by_desc ==> forall|i: int, j: int|
            0 <= i < j < shown.len() ==> {
                ||| (#[trigger] shown[i]).created_at_ms < (#[trigger] shown[j]).created_at_ms
                ||| shown[i].created_at_ms == shown[j].created_at_ms && shown[i].id <= shown[j].id
            },
        query.order_by_desc ==> forall|i: int, j: int|
            0 <= i < j < shown.len() ==> {
                ||| (#[trigger] shown[i]).updated_at_ms > (#[trigger] shown[j]).updated_at_ms
                ||| shown[i].updated_at_ms == shown[j].updated_at_ms && shown[i].id >= shown[j].id
            },
{
    assert((query.page_no - 1) * query.page_size >= 0) by (nonlinear_arith)
        requires
            query.page_no >= 1,
            query.page_size >= 0,
    ;
    assert(query.page_no == 1 ==> (query.page_no - 1) * query.page_size == 0) by (nonlinear_arith);
    law_page_is_ordered(
        shown,
        consoles_matching(query, records),
        console_order(query),
        page_offset(query.page_no, query.page_size),
        query.page_size as int,
    );
    assert forall|i: int, j: int| 0 <= i < j < shown.len() implies ({
        &&& !query.order_by_desc ==> {
            ||| (#[trigger] shown[i]).created_at_ms < (#[trigger] shown[j]).created_at_ms
            ||| shown[i].created_at_ms == shown[j].created_at_ms && shown[i].id <= shown[j].id
        }
        &&& query.order_by_desc ==> {
            ||| shown[i].updated_at_ms > shown[j].updated_at_ms
            ||| shown[i].updated_at_ms == shown[j].updated_at_ms && shown[i].id >= shown[j].id
        }
    }) by {
        assert(shown[i].created() == shown[i].created_at_ms);
        assert(shown[i].changed() == shown[i].updated_at_ms);
    }
}

/// Stored consoles are accepted exactly if each of them is; otherwise the first one that is not decides
/// the failure.
pub proof fn law_first_broken_console_decides(records: Seq<SavedConsoleRecord>)
    ensures
        console_records_check(records) is Ok <==> forall|i: int|
            0 <= i < records.len() ==> console_record_check(#[trigger] records[i]) is Ok,
        console_records_check(records) is Err ==> exists|k: int|
            {
                &&& 0 <= k < records.len()
                &&& console_record_check(#[trigger] records[k]) == console_records_check(records)
                &&& forall|i: int| 0 <= i < k ==> console_record_check(#[trigger] records[i]) is Ok
            },
    decreases records.len(),
{
    if records.len() > 0 {
        let rest = records.drop_first();
        law_first_broken_console_decides(rest);
        if console_record_check(records[0]) is Ok {
            if console_records_check(records) is Ok {
                assert forall|i: int| 0 <= i < records.len() implies console_record_check(
                    #[trigger] records[i],
                ) is Ok by {
                    if i > 0 {
                        assert(rest[i - 1] == records[i]);
                    }
                }
            } else {
                let k = choose|k: int|
                    {
                        &&& 0 <= k < rest.len()
                        &&& console_record_check(#[trigger] rest[k]) == console_records_check(rest)
                        &&& forall|i: int| 0 <= i < k ==> console_record_check(#[trigger] rest[i]) is Ok
                    };
                assert(records[k + 1] == rest[k]);
                assert forall|i: int| 0 <= i < k + 1 implies console_record_check(#[trigger] records[i]) is Ok by {
                    if i > 0 {
                        assert(rest[i - 1] == records[i]);
                    }
                }
            }
        }
    }
}

} // verus!
