use serde_json::Value;
use vstd::prelude::*;

use crate::community_dashboard::column::{
    decode_json, encode_json, is_text_broken, json_broken, json_held, json_lasting, json_too_large,
    json_written, modified_at, next_modified, same_json, text_broken,
};
use crate::error::StorageError;
use crate::json::{document, id_list, ids_read, ids_text, parse_ids, parsed, rendered};
use crate::listing::{arrange, law_page_is_ordered, shows, take_page, Entry, ListOrder};
use crate::query::{
    first_of_page, holds_key, is_too_long, law_occurrence_needs_a_text, lemma_filter_of_longer,
    occurs_in, page_offset, too_long,
};
use crate::storage::Storage;
use crate::text::{
    blank, byte_len, is_blank, like_pattern, occurrence_pattern, optional_holds, text_len,
};

verus! {

/// Maximum UTF-8 bytes of a name.
pub const MAX_NAME_BYTES: usize = 1_024;

/// Maximum UTF-8 bytes of a description.
pub const MAX_DESCRIPTION_BYTES: usize = 1024 * 1024;

/// Maximum UTF-8 bytes of a refresh type.
pub const MAX_SHORT_TEXT_BYTES: usize = 256;

/// Maximum UTF-8 bytes of a schema.
pub const MAX_LARGE_TEXT_BYTES: usize = 16 * 1024 * 1024;

/// Maximum charts of a dashboard.
pub const MAX_CHART_IDS: usize = 100_000;

/// Maximum UTF-8 bytes of the chart ids.
pub const MAX_CHART_IDS_JSON_BYTES: usize = 2 * 1024 * 1024;

/// Maximum UTF-8 bytes of a search key.
pub const MAX_SEARCH_KEY_BYTES: usize = 1_024;

/// Maximum dashboards of a page.
pub const MAX_PAGE_SIZE: u32 = 1_000;

/// A dashboard.
pub struct CommunityDashboard {
    /// Numeric id.
    pub id: i64,
    /// Creation time as Unix epoch milliseconds.
    pub gmt_create: i64,
    /// Time of the last change as Unix epoch milliseconds.
    pub gmt_modified: i64,
    /// User-visible name.
    pub name: Option<String>,
    /// User-visible description.
    pub description: Option<String>,
    /// Datasource collection.
    pub data_source_collection_id: Option<i64>,
    /// Charts, in order.
    pub chart_ids: Vec<i64>,
    /// Layout of the charts.
    pub schema: Option<String>,
    /// How the dashboard is refreshed.
    pub refresh_type: Option<String>,
    /// When the dashboard is refreshed.
    pub refresh_cycle: Option<Value>,
    /// Owner.
    pub user_id: Option<i64>,
}

/// Fields of a new dashboard.
#[derive(Default)]
pub struct CreateCommunityDashboardRequest {
    pub name: Option<String>,
    pub description: Option<String>,
    pub data_source_collection_id: Option<i64>,
    pub chart_ids: Vec<i64>,
    pub schema: Option<String>,
    pub refresh_type: Option<String>,
    pub refresh_cycle: Option<Value>,
    pub user_id: Option<i64>,
}

/// Fields of a dashboard that change; the others are kept.
#[derive(Default)]
pub struct UpdateCommunityDashboardRequest {
    pub name: Option<String>,
    pub description: Option<String>,
    pub data_source_collection_id: Option<i64>,
    pub chart_ids: Option<Vec<i64>>,
    pub schema: Option<String>,
    pub refresh_type: Option<String>,
    pub refresh_cycle: Option<Value>,
    pub user_id: Option<i64>,
}

/// Search and paging controls of the dashboard list.
#[derive(Debug, Clone, PartialEq, Eq)]
pub struct CommunityDashboardListQuery {
    /// Page, counted from one; zero stands for the first page.
    pub page_no: u32,
    /// Dashboards of a page; zero stands for one.
    pub page_size: u32,
    /// Text that the name or the description holds.
    pub search_key: Option<String>,
}

impl Default for CommunityDashboardListQuery {
    fn default() -> (result: CommunityDashboardListQuery)
        ensures
            result == (CommunityDashboardListQuery {
                page_no: 1,
                page_size: 20,
                search_key: None,
            }),
    {
        CommunityDashboardListQuery { page_no: 1, page_size: 20, search_key: None }
    }
}

/// One page of the dashboard list.
pub struct CommunityDashboardPage {
    /// The dashboards.
    pub data: Vec<CommunityDashboard>,
    /// All dashboards that match.
    pub total: u64,
    /// Page, counted from one.
    pub page_no: u32,
    /// Dashboards of a page.
    pub page_size: u32,
    /// Whether the list goes on; an exactly full last page says so too.
    pub has_next_page: bool,
}

/// The columns of a dashboard row.
#[derive(Debug, Clone, PartialEq, Eq)]
pub struct RawDashboard {
    pub id: i64,
    pub gmt_create: i64,
    pub gmt_modified: i64,
    pub name: Option<String>,
    pub description: Option<String>,
    pub data_source_collection_id: Option<i64>,
    pub chart_ids_json: String,
    pub schema: Option<String>,
    pub refresh_type: Option<String>,
    pub refresh_cycle_json: Option<String>,
    pub user_id: Option<i64>,
}

impl Entry for RawDashboard {
    open spec fn number(self) -> i64 {
        self.id
    }

    open spec fn created(self) -> i64 {
        self.gmt_create
    }

    open spec fn changed(self) -> i64 {
        self.gmt_modified
    }

    fn entry_id(&self) -> (result: i64) {
        self.id
    }

    fn entry_created(&self) -> (result: i64) {
        self.gmt_create
    }

    fn entry_changed(&self) -> (result: i64) {
        self.gmt_modified
    }
}

/// The rules of the charts of a dashboard.
pub open spec fn chart_ids_check(ids: Seq<i64>) -> Result<(), StorageError> {
    if ids.len() > MAX_CHART_IDS {
        Err(StorageError::InvalidCommunityDashboard("chartIds must contain at most 100000 ids"))
    } else if byte_len(id_list(ids)) > MAX_CHART_IDS_JSON_BYTES {
        Err(StorageError::InvalidCommunityDashboard("encoded chartIds exceeds the 2 MiB limit"))
    } else {
        Ok(())
    }
}

/// The rules of the fields of a dashboard; the first one broken decides the failure.
pub open spec fn dashboard_fields_check(dashboard: CommunityDashboard) -> Result<(), StorageError> {
    if text_broken(dashboard.name, MAX_NAME_BYTES) {
        Err(StorageError::InvalidCommunityDashboard("name must be at most 1024 UTF-8 bytes"))
    } else if text_broken(dashboard.description, MAX_DESCRIPTION_BYTES) {
        Err(StorageError::InvalidCommunityDashboard("description must be at most 1 MiB"))
    } else if text_broken(dashboard.schema, MAX_LARGE_TEXT_BYTES) {
        Err(StorageError::InvalidCommunityDashboard("schema must be at most 16 MiB"))
    } else if text_broken(dashboard.refresh_type, MAX_SHORT_TEXT_BYTES) {
        Err(StorageError::InvalidCommunityDashboard("refreshType must be at most 256 UTF-8 bytes"))
    } else if chart_ids_check(dashboard.chart_ids@) is Err {
        chart_ids_check(dashboard.chart_ids@)
    } else if json_too_large(dashboard.refresh_cycle) {
        Err(
            StorageError::InvalidCommunityDashboard(
                "refreshCycle exceeds the 16 MiB encoded JSON limit",
            ),
        )
    } else {
        Ok(())
    }
}

/// The rules of a stored dashboard.
pub open spec fn dashboard_check(dashboard: CommunityDashboard) -> Result<(), StorageError> {
    if dashboard.id <= 0 {
        Err(
            StorageError::InvalidCommunityDashboard(
                "persisted id must be a positive signed 64-bit integer",
            ),
        )
    } else if dashboard.gmt_create < 0 || dashboard.gmt_modified < dashboard.gmt_create {
        Err(StorageError::InvalidCommunityDashboard("persisted timestamps are invalid"))
    } else {
        dashboard_fields_check(dashboard)
    }
}

/// The row holds the dashboard.
pub open spec fn dashboard_written(row: RawDashboard, dashboard: CommunityDashboard) -> bool {
    &&& row.chart_ids_json@ == id_list(dashboard.chart_ids@)
    &&& ids_read(row.chart_ids_json@) == Some(dashboard.chart_ids@)
    &&& json_written(row.refresh_cycle_json, dashboard.refresh_cycle)
    &&& row == (RawDashboard {
        id: dashboard.id,
        gmt_create: dashboard.gmt_create,
        gmt_modified: dashboard.gmt_modified,
        name: dashboard.name,
        description: dashboard.description,
        data_source_collection_id: dashboard.data_source_collection_id,
        chart_ids_json: row.chart_ids_json,
        schema: dashboard.schema,
        refresh_type: dashboard.refresh_type,
        refresh_cycle_json: row.refresh_cycle_json,
        user_id: dashboard.user_id,
    })
}

/// The dashboard is the one that the row holds.
pub open spec fn dashboard_held(dashboard: CommunityDashboard, row: RawDashboard) -> bool {
    &&& ids_read(row.chart_ids_json@) == Some(dashboard.chart_ids@)
    &&& json_held(dashboard.refresh_cycle, row.refresh_cycle_json)
    &&& dashboard == (CommunityDashboard {
        id: row.id,
        gmt_create: row.gmt_create,
        gmt_modified: row.gmt_modified,
        name: row.name,
        description: row.description,
        data_source_collection_id: row.data_source_collection_id,
        chart_ids: dashboard.chart_ids,
        schema: row.schema,
        refresh_type: row.refresh_type,
        refresh_cycle: dashboard.refresh_cycle,
        user_id: row.user_id,
    })
}

/// How a row is read.
pub open spec fn dashboard_read(
    result: Result<CommunityDashboard, StorageError>,
    row: RawDashboard,
) -> bool {
    if ids_read(row.chart_ids_json@) is None {
        result == Err::<CommunityDashboard, StorageError>(
            StorageError::Integrity("persisted Community dashboard chartIds JSON is invalid"),
        )
    } else if json_broken(row.refresh_cycle_json) {
        result == Err::<CommunityDashboard, StorageError>(
            StorageError::Integrity("persisted Community dashboard refreshCycle JSON is invalid"),
        )
    } else {
        exists|dashboard: CommunityDashboard| #[trigger]
            dashboard_held(dashboard, row) && result == (match dashboard_check(dashboard) {
                Ok(_) => Ok::<CommunityDashboard, StorageError>(dashboard),
                Err(error) => Err(error),
            })
    }
}

/// A row that can be read.
pub open spec fn readable(row: RawDashboard) -> bool {
    exists|dashboard: CommunityDashboard| #[trigger] dashboard_read(Ok(dashboard), row)
}

/// A dashboard with the fields of a request.
pub open spec fn dashboard_of(
    id: i64,
    input: CreateCommunityDashboardRequest,
    timestamp: i64,
) -> CommunityDashboard {
    CommunityDashboard {
        id,
        gmt_create: timestamp,
        gmt_modified: timestamp,
        name: input.name,
        description: input.description,
        data_source_collection_id: input.data_source_collection_id,
        chart_ids: input.chart_ids,
        schema: input.schema,
        refresh_type: input.refresh_type,
        refresh_cycle: input.refresh_cycle,
        user_id: input.user_id,
    }
}

/// The changed value if there is one.
pub open spec fn or_current<T>(change: Option<T>, current: Option<T>) -> Option<T> {
    match change {
        Some(value) => Some(value),
        None => current,
    }
}

/// A dashboard with the changes of a request.
pub open spec fn dashboard_changed(
    current: CommunityDashboard,
    input: UpdateCommunityDashboardRequest,
    modified: i64,
) -> CommunityDashboard {
    CommunityDashboard {
        id: current.id,
        gmt_create: current.gmt_create,
        gmt_modified: modified,
        name: or_current(input.name, current.name),
        description: or_current(input.description, current.description),
        data_source_collection_id: or_current(
            input.data_source_collection_id,
            current.data_source_collection_id,
        ),
        chart_ids: match input.chart_ids {
            Some(ids) => ids,
            None => current.chart_ids,
        },
        schema: or_current(input.schema, current.schema),
        refresh_type: or_current(input.refresh_type, current.refresh_type),
        refresh_cycle: or_current(input.refresh_cycle, current.refresh_cycle),
        user_id: or_current(input.user_id, current.user_id),
    }
}

/// What an update has to meet.
pub open spec fn dashboard_update_check(
    id: i64,
    input: UpdateCommunityDashboardRequest,
    current: Option<CommunityDashboard>,
    now: i64,
) -> Result<(), StorageError> {
    match current {
        None => Err(StorageError::CommunityDashboardNotFound(id)),
        Some(dashboard) => match modified_at(dashboard.gmt_modified, now) {
            Err(error) => Err(error),
            Ok(modified) => dashboard_check(dashboard_changed(dashboard, input, modified)),
        },
    }
}

/// A page number or a page size, at least one.
pub open spec fn at_least_one(value: u32) -> u32 {
    if value == 0 {
        1
    } else {
        value
    }
}

/// The bounds of a list query.
pub open spec fn dashboard_query_check(query: CommunityDashboardListQuery) -> Result<
    (),
    StorageError,
> {
    if query.page_size > MAX_PAGE_SIZE {
        Err(StorageError::InvalidCommunityDashboard("page size must be between 1 and 1000"))
    } else if too_long(query.search_key, MAX_SEARCH_KEY_BYTES) {
        Err(StorageError::InvalidCommunityDashboard("search key must be at most 1024 UTF-8 bytes"))
    } else {
        Ok(())
    }
}

/// The key that is searched for, if it is not blank.
pub open spec fn dashboard_key(search_key: Option<String>) -> Option<Seq<char>> {
    match search_key {
        Some(key) => if blank(key@) {
            None
        } else {
            Some(key@)
        },
        None => None,
    }
}

/// The name or the description holds the search key.
pub open spec fn dashboard_matches(query: CommunityDashboardListQuery, row: RawDashboard) -> bool {
    dashboard_key(query.search_key) matches Some(key) ==> {
        ||| row.name is Some && occurs_in(key, row.name)
        ||| row.description is Some && occurs_in(key, row.description)
    }
}

/// The rows that match a query.
pub open spec fn dashboards_matching(
    query: CommunityDashboardListQuery,
    rows: Seq<RawDashboard>,
) -> Seq<RawDashboard> {
    rows.filter(|row: RawDashboard| dashboard_matches(query, row))
}

/// The rows are shown on the page that was asked for.
pub open spec fn dashboards_shown(
    shown: Seq<RawDashboard>,
    query: CommunityDashboardListQuery,
    rows: Seq<RawDashboard>,
) -> bool {
    shows(
        shown,
        dashboards_matching(query, rows),
        ListOrder::LatestChangeFirst,
        page_offset(at_least_one(query.page_no), at_least_one(query.page_size)),
        at_least_one(query.page_size) as int,
    )
}

/// The charts that a stored list names, none if it cannot be read.
pub open spec fn listed_charts(text: Seq<char>) -> Seq<i64> {
    match ids_read(text) {
        Some(charts) => charts,
        None => Seq::empty(),
    }
}

/// Writes the charts of a dashboard as JSON.
pub fn encode_chart_ids(chart_ids: &Vec<i64>) -> (result: Result<String, StorageError>)
    ensures
        match result {
            Ok(text) => {
                &&& chart_ids_check(chart_ids@) is Ok
                &&& text@ == id_list(chart_ids@)
                &&& ids_read(text@) == Some(chart_ids@)
            },
            Err(error) => chart_ids_check(chart_ids@) == Err::<(), StorageError>(error),
        },
{
    if chart_ids.len() > MAX_CHART_IDS {
        return Err(
            StorageError::InvalidCommunityDashboard("chartIds must contain at most 100000 ids"),
        );
    }
    match ids_text(chart_ids) {
        Some(text) => {
            if text_len(text.as_str()) > MAX_CHART_IDS_JSON_BYTES {
                return Err(
                    StorageError::InvalidCommunityDashboard(
                        "encoded chartIds exceeds the 2 MiB limit",
                    ),
                );
            }
            Ok(text)
        },
        None => Err(StorageError::Integrity("failed to encode Community dashboard chartIds")),
    }
}

/// Checks the fields of a dashboard.
pub fn validate_dashboard_fields(dashboard: &CommunityDashboard) -> (result: Result<
    (),
    StorageError,
>)
    ensures
        result == dashboard_fields_check(*dashboard),
{
    if is_text_broken(&dashboard.name, MAX_NAME_BYTES) {
        return Err(StorageError::InvalidCommunityDashboard("name must be at most 1024 UTF-8 bytes"));
    }
    if is_text_broken(&dashboard.description, MAX_DESCRIPTION_BYTES) {
        return Err(StorageError::InvalidCommunityDashboard("description must be at most 1 MiB"));
    }
    if is_text_broken(&dashboard.schema, MAX_LARGE_TEXT_BYTES) {
        return Err(StorageError::InvalidCommunityDashboard("schema must be at most 16 MiB"));
    }
    if is_text_broken(&dashboard.refresh_type, MAX_SHORT_TEXT_BYTES) {
        return Err(
            StorageError::InvalidCommunityDashboard("refreshType must be at most 256 UTF-8 bytes"),
        );
    }
    encode_chart_ids(&dashboard.chart_ids)?;
    encode_json(
        &dashboard.refresh_cycle,
        StorageError::InvalidCommunityDashboard(
            "refreshCycle exceeds the 16 MiB encoded JSON limit",
        ),
    )?;
    Ok(())
}

/// Checks a stored dashboard.
pub fn validate_dashboard(dashboard: &CommunityDashboard) -> (result: Result<(), StorageError>)
    ensures
        result == dashboard_check(*dashboard),
{
    if dashboard.id <= 0 {
        return Err(
            StorageError::InvalidCommunityDashboard(
                "persisted id must be a positive signed 64-bit integer",
            ),
        );
    }
    if dashboard.gmt_create < 0 || dashboard.gmt_modified < dashboard.gmt_create {
        return Err(StorageError::InvalidCommunityDashboard("persisted timestamps are invalid"));
    }
    validate_dashboard_fields(dashboard)
}

fn encode_dashboard(dashboard: CommunityDashboard) -> (result: Result<RawDashboard, StorageError>)
    requires
        dashboard_fields_check(dashboard) is Ok,
    ensures
        result is Ok,
        dashboard_written(result->Ok_0, dashboard),
{
    let chart_ids_json = encode_chart_ids(&dashboard.chart_ids)?;
    let refresh_cycle_json = encode_json(
        &dashboard.refresh_cycle,
        StorageError::InvalidCommunityDashboard(
            "refreshCycle exceeds the 16 MiB encoded JSON limit",
        ),
    )?;
    Ok(
        RawDashboard {
            id: dashboard.id,
            gmt_create: dashboard.gmt_create,
            gmt_modified: dashboard.gmt_modified,
            name: dashboard.name,
            description: dashboard.description,
            data_source_collection_id: dashboard.data_source_collection_id,
            chart_ids_json,
            schema: dashboard.schema,
            refresh_type: dashboard.refresh_type,
            refresh_cycle_json,
            user_id: dashboard.user_id,
        },
    )
}

/// Reads a dashboard row.
pub fn decode_dashboard(row: RawDashboard) -> (result: Result<CommunityDashboard, StorageError>)
    ensures
        dashboard_read(result, row),
{
    let chart_ids = match parse_ids(row.chart_ids_json.as_str()) {
        Some(chart_ids) => chart_ids,
        None => return Err(
            StorageError::Integrity("persisted Community dashboard chartIds JSON is invalid"),
        ),
    };
    let refresh_cycle = decode_json(
        &row.refresh_cycle_json,
        StorageError::Integrity("persisted Community dashboard refreshCycle JSON is invalid"),
    )?;
    let dashboard = CommunityDashboard {
        id: row.id,
        gmt_create: row.gmt_create,
        gmt_modified: row.gmt_modified,
        name: row.name,
        description: row.description,
        data_source_collection_id: row.data_source_collection_id,
        chart_ids,
        schema: row.schema,
        refresh_type: row.refresh_type,
        refresh_cycle,
        user_id: row.user_id,
    };
    assert(dashboard_held(dashboard, row));
    validate_dashboard(&dashboard)?;
    Ok(dashboard)
}

pub(crate) fn keep_current<T>(change: Option<T>, current: Option<T>) -> (result: Option<T>)
    ensures
        result == or_current(change, current),
{
    match change {
        Some(value) => Some(value),
        None => current,
    }
}

/// Tests whether a dashboard matches a query.
pub fn matches_dashboard(query: &CommunityDashboardListQuery, row: &RawDashboard) -> (result: bool)
    ensures
        result == dashboard_matches(*query, *row),
{
    match &query.search_key {
        None => true,
        Some(key) => is_blank(key.as_str()) || (row.name.is_some() && holds_key(
            key.as_str(),
            &row.name,
        )) || (row.description.is_some() && holds_key(key.as_str(), &row.description)),
    }
}

/// Returns the `LIKE` pattern by which the database can search for the key of a query.
pub fn dashboard_search_pattern(search_key: &Option<String>) -> (result: Option<String>)
    ensures
        match result {
            Some(pattern) => dashboard_key(*search_key) is Some && pattern@ == occurrence_pattern(
                dashboard_key(*search_key)->0,
            ),
            None => dashboard_key(*search_key) is None,
        },
{
    match search_key {
        Some(key) => if is_blank(key.as_str()) {
            None
        } else {
            Some(like_pattern(key.as_str()))
        },
        None => None,
    }
}

impl Storage {
    /// Creates one dashboard under the id that the database has generated.
    pub fn create_community_dashboard(
        id: i64,
        input: CreateCommunityDashboardRequest,
        timestamp: i64,
    ) -> (result: Result<RawDashboard, StorageError>)
        ensures
            ({
                let dashboard = dashboard_of(id, input, timestamp);
                let check = if dashboard_fields_check(dashboard) is Err {
                    dashboard_fields_check(dashboard)
                } else if id <= 0 {
                    Err(
                        StorageError::Integrity("Community dashboard generated a non-positive id"),
                    )
                } else {
                    Ok(())
                };
                match result {
                    Ok(row) => check is Ok && dashboard_written(row, dashboard),
                    Err(error) => check == Err::<(), StorageError>(error),
                }
            }),
    {
        let dashboard = CommunityDashboard {
            id,
            gmt_create: timestamp,
            gmt_modified: timestamp,
            name: input.name,
            description: input.description,
            data_source_collection_id: input.data_source_collection_id,
            chart_ids: input.chart_ids,
            schema: input.schema,
            refresh_type: input.refresh_type,
            refresh_cycle: input.refresh_cycle,
            user_id: input.user_id,
        };
        validate_dashboard_fields(&dashboard)?;
        if id <= 0 {
            return Err(StorageError::Integrity("Community dashboard generated a non-positive id"));
        }
        encode_dashboard(dashboard)
    }

    /// Reads the dashboard with an id, if there is one; no dashboard has an id that is not
    /// positive.
    pub fn get_community_dashboard(id: i64, row: Option<RawDashboard>) -> (result: Result<
        Option<CommunityDashboard>,
        StorageError,
    >)
        ensures
            match row {
                None => result == Ok::<Option<CommunityDashboard>, StorageError>(None),
                Some(raw) => if id <= 0 {
                    result == Ok::<Option<CommunityDashboard>, StorageError>(None)
                } else {
                    match result {
                        Ok(Some(dashboard)) => dashboard_read(Ok(dashboard), raw),
                        Ok(None) => false,
                        Err(error) => dashboard_read(Err(error), raw),
                    }
                },
            },
    {
        if id <= 0 {
            return Ok(None);
        }
        match row {
            None => Ok(None),
            Some(raw) => {
                let dashboard = decode_dashboard(raw)?;
                Ok(Some(dashboard))
            },
        }
    }

    /// Applies a partial update to one dashboard.
    pub fn update_community_dashboard(
        id: i64,
        input: UpdateCommunityDashboardRequest,
        current: Option<CommunityDashboard>,
        now: i64,
    ) -> (result: Result<RawDashboard, StorageError>)
        ensures
            match result {
                Ok(row) => {
                    &&& dashboard_update_check(id, input, current, now) is Ok
                    &&& dashboard_written(
                        row,
                        dashboard_changed(
                            current->0,
                            input,
                            modified_at(current->0.gmt_modified, now)->Ok_0,
                        ),
                    )
                },
                Err(error) => dashboard_update_check(id, input, current, now) == Err::<
                    (),
                    StorageError,
                >(error),
            },
    {
        let dashboard = match current {
            Some(dashboard) => dashboard,
            None => return Err(StorageError::CommunityDashboardNotFound(id)),
        };
        let modified: i64 = next_modified(dashboard.gmt_modified, now)?;
        let next = CommunityDashboard {
            id: dashboard.id,
            gmt_create: dashboard.gmt_create,
            gmt_modified: modified,
            name: keep_current(input.name, dashboard.name),
            description: keep_current(input.description, dashboard.description),
            data_source_collection_id: keep_current(
                input.data_source_collection_id,
                dashboard.data_source_collection_id,
            ),
            chart_ids: match input.chart_ids {
                Some(ids) => ids,
                None => dashboard.chart_ids,
            },
            schema: keep_current(input.schema, dashboard.schema),
            refresh_type: keep_current(input.refresh_type, dashboard.refresh_type),
            refresh_cycle: keep_current(input.refresh_cycle, dashboard.refresh_cycle),
            user_id: keep_current(input.user_id, dashboard.user_id),
        };
        validate_dashboard(&next)?;
        encode_dashboard(next)
    }

    /// Decides whether there is a dashboard to delete, by the list of charts that is stored with it;
    /// the charts go with it. A dashboard whose list cannot be read is deleted alone.
    pub fn delete_community_dashboard(id: i64, chart_ids_json: Option<String>) -> (result: Option<
        Vec<i64>,
    >)
        ensures
            match result {
                Some(charts) => id > 0 && chart_ids_json is Some && charts@ == listed_charts(
                    chart_ids_json->0@,
                ),
                None => id <= 0 || chart_ids_json is None,
            },
    {
        if id <= 0 {
            return None;
        }
        match chart_ids_json {
            Some(text) => match parse_ids(text.as_str()) {
                Some(charts) => Some(charts),
                None => Some(Vec::new()),
            },
            None => None,
        }
    }

    /// Lists one page of the dashboards that match a query, the one changed last first.
    pub fn list_community_dashboards(
        query: &CommunityDashboardListQuery,
        rows: Vec<RawDashboard>,
    ) -> (result: Result<CommunityDashboardPage, StorageError>)
        ensures
            match result {
                Ok(page) => {
                    &&& dashboard_query_check(*query) is Ok
                    &&& exists|shown: Seq<RawDashboard>| #[trigger]
                        dashboards_shown(shown, *query, rows@) && shown.len() == page.data@.len()
                            && forall|i: int|
                            0 <= i < shown.len() ==> dashboard_read(
                                Ok(#[trigger] page.data@[i]),
                                shown[i],
                            )
                    &&& page.total == dashboards_matching(*query, rows@).len()
                    &&& page.page_no == at_least_one(query.page_no)
                    &&& page.page_size == at_least_one(query.page_size)
                    &&& page.has_next_page == (page.page_no * page.page_size <= page.total)
                },
                Err(error) => if dashboard_query_check(*query) is Err {
                    dashboard_query_check(*query) == Err::<(), StorageError>(error)
                } else {
                    exists|shown: Seq<RawDashboard>, i: int| #[trigger]
                        dashboards_shown(shown, *query, rows@) && 0 <= i < shown.len()
                            && dashboard_read(Err(error), #[trigger] shown[i]) && forall|j: int|
                            0 <= j < i ==> readable(#[trigger] shown[j])
                },
            },
    {
        let page_no: u32 = if query.page_no == 0 {
            1
        } else {
            query.page_no
        };
        let page_size: u32 = if query.page_size == 0 {
            1
        } else {
            query.page_size
        };
        if page_size > MAX_PAGE_SIZE {
            return Err(
                StorageError::InvalidCommunityDashboard("page size must be between 1 and 1000"),
            );
        }
        if is_too_long(&query.search_key, MAX_SEARCH_KEY_BYTES) {
            return Err(
                StorageError::InvalidCommunityDashboard(
                    "search key must be at most 1024 UTF-8 bytes",
                ),
            );
        }
        let offset: u64 = first_of_page(page_no, page_size);
        let ghost all = rows@;
        let ghost wanted = |row: RawDashboard| dashboard_matches(*query, row);
        let mut matching: Vec<RawDashboard> = Vec::new();
        proof {
            reveal(Seq::filter);
            assert(all.take(0).filter(wanted) =~= Seq::empty());
        }
        for row in it: rows
            invariant
                it.seq() == all,
                wanted == (|row: RawDashboard| dashboard_matches(*query, row)),
                matching@ == all.take(it.index() as int).filter(wanted),
        {
            proof {
                reveal(Seq::filter);
                assert(all.take(it.index() + 1).drop_last() =~= all.take(it.index() as int));
            }
            if matches_dashboard(query, &row) {
                matching.push(row);
            }
        }
        proof {
            assert(all.take(all.len() as int) =~= all);
        }
        let total: u64 = matching.len() as u64;
        let list = arrange(matching, ListOrder::LatestChangeFirst);
        let page = take_page(list, offset, page_size as u64);
        let ghost shown = page@;
        assert(dashboards_shown(shown, *query, all));
        let mut data: Vec<CommunityDashboard> = Vec::new();
        for row in it: page
            invariant
                it.seq() == shown,
                all == rows@,
                dashboard_query_check(*query) is Ok,
                dashboards_shown(shown, *query, all),
                data@.len() == it.index(),
                forall|i: int|
                    0 <= i < data@.len() ==> dashboard_read(Ok(#[trigger] data@[i]), shown[i]),
        {
            proof {
                assert(shown[it.index() as int] == row);
                assert forall|j: int| 0 <= j < it.index() implies readable(
                    #[trigger] shown[j],
                ) by {
                    assert(dashboard_read(Ok(data@[j]), shown[j]));
                }
            }
            data.push(decode_dashboard(row)?);
        }
        proof {
            assert(page_no * page_size <= 0xffff_ffff * 0xffff_ffff) by (nonlinear_arith)
                requires
                    0 < page_no <= 0xffff_ffff,
                    0 < page_size <= 0xffff_ffff,
            ;
        }
        let consumed: u64 = page_no as u64 * page_size as u64;
        Ok(
            CommunityDashboardPage {
                data,
                total,
                page_no,
                page_size,
                has_next_page: consumed <= total,
            },
        )
    }
}

/// A partial update changes what it names and keeps everything else.
pub proof fn law_dashboard_update_keeps_unnamed_fields(
    current: CommunityDashboard,
    input: UpdateCommunityDashboardRequest,
    modified: i64,
)
    ensures
        ({
            let next = dashboard_changed(current, input, modified);
            &&& next.id == current.id
            &&& next.gmt_create == current.gmt_create
            &&& input.name is None ==> next.name == current.name
            &&& input.description is None ==> next.description == current.description
            &&& input.data_source_collection_id is None ==> next.data_source_collection_id
                == current.data_source_collection_id
            &&& input.chart_ids is None ==> next.chart_ids == current.chart_ids
            &&& input.schema is None ==> next.schema == current.schema
            &&& input.refresh_type is None ==> next.refresh_type == current.refresh_type
            &&& input.refresh_cycle is None ==> next.refresh_cycle == current.refresh_cycle
            &&& input.user_id is None ==> next.user_id == current.user_id
        }),
{
}

/// A dashboard that was written reads back with its charts and all of its texts, and with its
/// refresh cycle.
pub proof fn law_written_dashboard_reads_back(
    row: RawDashboard,
    written: CommunityDashboard,
    result: Result<CommunityDashboard, StorageError>,
)
    requires
        dashboard_check(written) is Ok,
        dashboard_written(row, written),
        dashboard_read(result, row),
    ensures
        json_lasting(written.refresh_cycle) ==> result is Ok,
        result matches Ok(read) ==> {
            &&& read.chart_ids@ == written.chart_ids@
            &&& json_lasting(written.refresh_cycle) ==> same_json(
                read.refresh_cycle,
                written.refresh_cycle,
            )
            &&& read == (CommunityDashboard {
                chart_ids: read.chart_ids,
                refresh_cycle: read.refresh_cycle,
                ..written
            })
        },
{
    if !json_broken(row.refresh_cycle_json) {
        let read = choose|read: CommunityDashboard| #[trigger]
            dashboard_held(read, row) && result == (match dashboard_check(read) {
                Ok(_) => Ok::<CommunityDashboard, StorageError>(read),
                Err(error) => Err(error),
            });
        assert(dashboard_held(read, row));
    }
}

/// The fields of a dashboard are valid exactly if every text is within its bound and holds no NUL,
/// its charts are no more than a hundred thousand and their list is within its bound, and so is the
/// JSON text of its refresh cycle. A stored dashboard also has a positive id and was not changed
/// before it was created.
pub proof fn law_dashboard_is_valid(dashboard: CommunityDashboard)
    ensures
        dashboard_fields_check(dashboard) is Ok <==> {
            &&& dashboard.name matches Some(text) ==> byte_len(text@) <= 1_024 && !text@.contains('\0')
            &&& dashboard.description matches Some(text)
                ==> byte_len(text@) <= 1_048_576 && !text@.contains('\0')
            &&& dashboard.schema matches Some(text)
                ==> byte_len(text@) <= 16_777_216 && !text@.contains('\0')
            &&& dashboard.refresh_type matches Some(text)
                ==> byte_len(text@) <= 256 && !text@.contains('\0')
            &&& dashboard.chart_ids@.len() <= 100_000
            &&& byte_len(id_list(dashboard.chart_ids@)) <= 2_097_152
            &&& dashboard.refresh_cycle matches Some(tree)
                ==> byte_len(rendered(document(tree))) <= 16_777_216
        },
        dashboard_check(dashboard) is Ok <==> {
            &&& dashboard.id > 0
            &&& 0 <= dashboard.gmt_create <= dashboard.gmt_modified
            &&& dashboard_fields_check(dashboard) is Ok
        },
{
}

/// The row of a new dashboard has every field that was given, under the given id and at the given
/// time; its charts read back from their column, and the column of its refresh cycle holds the JSON
/// text of what was given.
pub proof fn law_dashboard_is_created_as_given(
    row: RawDashboard,
    id: i64,
    input: CreateCommunityDashboardRequest,
    timestamp: i64,
)
    requires
        dashboard_written(row, dashboard_of(id, input, timestamp)),
    ensures
        ({
            &&& row.id == id
            &&& row.gmt_create == timestamp
            &&& row.gmt_modified == timestamp
            &&& row.name == input.name
            &&& row.description == input.description
            &&& row.data_source_collection_id == input.data_source_collection_id
            &&& row.schema == input.schema
            &&& row.refresh_type == input.refresh_type
            &&& row.user_id == input.user_id
            &&& ids_read(row.chart_ids_json@) == Some(input.chart_ids@)
            &&& input.refresh_cycle is None ==> row.refresh_cycle_json is None
            &&& input.refresh_cycle matches Some(cycle) ==> (row.refresh_cycle_json matches Some(
                text,
            ) && text@ == rendered(document(cycle)))
        }),
{
}

/// The row of an updated dashboard has each field that the update names as the update names it, and
/// every other field as it was; its id and its creation time stay, and it was last changed now, or
/// one millisecond after the last change if that is not earlier than now.
pub proof fn law_dashboard_update_sets_named_fields(
    row: RawDashboard,
    id: i64,
    current: CommunityDashboard,
    input: UpdateCommunityDashboardRequest,
    now: i64,
)
    requires
        dashboard_update_check(id, input, Some(current), now) is Ok,
        dashboard_written(
            row,
            dashboard_changed(current, input, modified_at(current.gmt_modified, now)->Ok_0),
        ),
    ensures
        ({
            &&& input.name is Some ==> row.name == input.name
            &&& input.name is None ==> row.name == current.name
            &&& input.description is Some ==> row.description == input.description
            &&& input.description is None ==> row.description == current.description
            &&& input.data_source_collection_id is Some
                ==> row.data_source_collection_id == input.data_source_collection_id
            &&& input.data_source_collection_id is None
                ==> row.data_source_collection_id == current.data_source_collection_id
            &&& input.schema is Some ==> row.schema == input.schema
            &&& input.schema is None ==> row.schema == current.schema
            &&& input.refresh_type is Some ==> row.refresh_type == input.refresh_type
            &&& input.refresh_type is None ==> row.refresh_type == current.refresh_type
            &&& input.user_id is Some ==> row.user_id == input.user_id
            &&& input.user_id is None ==> row.user_id == current.user_id
            &&& input.chart_ids matches Some(charts) ==> ids_read(row.chart_ids_json@) == Some(
                charts@,
            )
            &&& input.chart_ids is None ==> ids_read(row.chart_ids_json@) == Some(
                current.chart_ids@,
            )
            &&& input.refresh_cycle matches Some(cycle) ==> (row.refresh_cycle_json matches Some(
                text,
            ) && text@ == rendered(document(cycle)))
            &&& input.refresh_cycle is None ==> json_written(
                row.refresh_cycle_json,
                current.refresh_cycle,
            )
            &&& row.id == current.id
            &&& row.gmt_create == current.gmt_create
            &&& now > current.gmt_modified ==> row.gmt_modified == now
            &&& now <= current.gmt_modified ==> row.gmt_modified == current.gmt_modified + 1
        }),
{
}

/// An update of a valid dashboard is accepted exactly if each value that it names is valid and its
/// next change can be dated.
pub proof fn law_dashboard_update_is_accepted(
    id: i64,
    current: CommunityDashboard,
    input: UpdateCommunityDashboardRequest,
    now: i64,
)
    requires
        dashboard_check(current) is Ok,
    ensures
        dashboard_update_check(id, input, Some(current), now) is Ok <==> {
            &&& current.gmt_modified < i64::MAX
            &&& input.name matches Some(text) ==> byte_len(text@) <= 1_024 && !text@.contains('\0')
            &&& input.description matches Some(text)
                ==> byte_len(text@) <= 1_048_576 && !text@.contains('\0')
            &&& input.schema matches Some(text)
                ==> byte_len(text@) <= 16_777_216 && !text@.contains('\0')
            &&& input.refresh_type matches Some(text)
                ==> byte_len(text@) <= 256 && !text@.contains('\0')
            &&& input.chart_ids matches Some(charts) ==> charts@.len() <= 100_000 && byte_len(
                id_list(charts@),
            ) <= 2_097_152
            &&& input.refresh_cycle matches Some(tree)
                ==> byte_len(rendered(document(tree))) <= 16_777_216
        },
        dashboard_update_check(id, input, None, now) == Err::<(), StorageError>(
            StorageError::CommunityDashboardNotFound(id),
        ),
{
}

/// A row whose charts and whose refresh cycle can be read is read with every field as it is, and is
/// refused exactly if that is no valid dashboard.
pub proof fn law_dashboard_row_is_read_as_it_is(
    result: Result<CommunityDashboard, StorageError>,
    row: RawDashboard,
)
    requires
        dashboard_read(result, row),
    ensures
        result matches Ok(dashboard) ==> {
            &&& dashboard.id == row.id
            &&& dashboard.gmt_create == row.gmt_create
            &&& dashboard.gmt_modified == row.gmt_modified
            &&& dashboard.name == row.name
            &&& dashboard.description == row.description
            &&& dashboard.data_source_collection_id == row.data_source_collection_id
            &&& dashboard.schema == row.schema
            &&& dashboard.refresh_type == row.refresh_type
            &&& dashboard.user_id == row.user_id
            &&& ids_read(row.chart_ids_json@) == Some(dashboard.chart_ids@)
            &&& row.refresh_cycle_json is None ==> dashboard.refresh_cycle is None
            &&& row.refresh_cycle_json matches Some(text) ==> (
            dashboard.refresh_cycle matches Some(cycle) && parsed(text@) == Some(document(cycle)))
            &&& dashboard_check(dashboard) is Ok
        },
        ids_read(row.chart_ids_json@) is None ==> result is Err,
        (row.refresh_cycle_json matches Some(text) && parsed(text@) is None) ==> result is Err,
{
}

/// A search finds a dashboard exactly if its name or its description holds the search key, but for
/// the case of ASCII letters. Without a key, or with a blank one, it finds every dashboard.
pub proof fn law_dashboard_search_finds_what_holds_the_key(
    query: CommunityDashboardListQuery,
    row: RawDashboard,
)
    ensures
        (query.search_key matches Some(key) && !blank(key@)) ==> (dashboard_matches(query, row)
            <==> optional_holds(row.name, query.search_key->0@) || optional_holds(
            row.description,
            query.search_key->0@,
        )),
        (query.search_key matches Some(key) ==> blank(key@)) ==> dashboard_matches(query, row),
{
    if let Some(key) = query.search_key {
        if !blank(key@) {
            assert(key@.len() > 0);
            law_occurrence_needs_a_text(key@, row.name);
            law_occurrence_needs_a_text(key@, row.description);
        }
    }
}

/// Each dashboard that a query finds is listed and counted once, at its place, and no other one is.
pub proof fn law_dashboard_found_is_counted(
    query: CommunityDashboardListQuery,
    rows: Seq<RawDashboard>,
    row: RawDashboard,
)
    ensures
        dashboards_matching(query, Seq::empty()).len() == 0,
        dashboard_matches(query, row) ==> dashboards_matching(query, rows.push(row))
            == dashboards_matching(query, rows).push(row),
        !dashboard_matches(query, row) ==> dashboards_matching(query, rows.push(row))
            == dashboards_matching(query, rows),
{
    lemma_filter_of_longer(rows, row, |row: RawDashboard| dashboard_matches(query, row));
}

/// A query is accepted exactly if its page has no more than a thousand dashboards and its search key
/// is within its bound; page zero is the first page, and a page of none has room for one.
pub proof fn law_dashboard_query_is_accepted(query: CommunityDashboardListQuery)
    ensures
        dashboard_query_check(query) is Ok <==> {
            &&& query.page_size <= 1_000
            &&& query.search_key matches Some(text) ==> byte_len(text@) <= 1_024
        },
        query.page_no == 0 ==> at_least_one(query.page_no) == 1,
        query.page_no > 0 ==> at_least_one(query.page_no) == query.page_no,
{
}

/// A page shows the dashboards that were found, the one changed last first, those of one time by
/// their ids, and the first page that has room for all leaves none out.
pub proof fn law_dashboard_page_is_ordered(
    shown: Seq<RawDashboard>,
    query: CommunityDashboardListQuery,
    rows: Seq<RawDashboard>,
)
    requires
        query.page_no > 0,
        query.page_size > 0,
        dashboards_shown(shown, query, rows),
    ensures
        ({
            let found = dashboards_matching(query, rows);
            let skipped = (query.page_no - 1) * query.page_size;
            &&& found.len() <= skipped ==> shown.len() == 0
            &&& skipped < found.len() <= skipped + query.page_size ==> shown.len() == found.len()
                - skipped
            &&& skipped + query.page_size <= found.len() ==> shown.len() == query.page_size
            &&& forall|i: int| 0 <= i < shown.len() ==> found.contains(#[trigger] shown[i])
            &&& query.page_no == 1 && found.len() <= query.page_size ==> shown.to_multiset()
                == found.to_multiset()
        }),
        forall|i: int, j: int|
            0 <= i < j < shown.len() ==> {
                ||| (#[trigger] shown[i]).gmt_modified > (#[trigger] shown[j]).gmt_modified
                ||| shown[i].gmt_modified == shown[j].gmt_modified && shown[i].id >= shown[j].id
            },
{
    assert((query.page_no - 1) * query.page_size >= 0) by (nonlinear_arith)
        requires
            query.page_no >= 1,
            query.page_size >= 0,
    ;
    assert(query.page_no == 1 ==> (query.page_no - 1) * query.page_size == 0) by (nonlinear_arith);
    law_page_is_ordered(
        shown,
        dashboards_matching(query, rows),
        ListOrder::LatestChangeFirst,
        page_offset(query.page_no, query.page_size),
        query.page_size as int,
    );
    assert forall|i: int, j: int| 0 <= i < j < shown.len() implies ({
        ||| (#[trigger] shown[i]).gmt_modified > (#[trigger] shown[j]).gmt_modified
        ||| shown[i].gmt_modified == shown[j].gmt_modified && shown[i].id >= shown[j].id
    }) by {
        assert(shown[i].changed() >= shown[j].changed());
    }
}

/// The charts that go with a dashboard are those of its list, if the list can be read.
pub proof fn law_listed_charts_are_those_of_the_list(text: Seq<char>, ids: Seq<i64>)
    ensures
        ids_read(text) == Some(ids) ==> listed_charts(text) == ids,
        ids_read(text) is None ==> listed_charts(text).len() == 0,
{
}

} // verus!
