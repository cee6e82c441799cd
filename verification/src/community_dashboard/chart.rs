use serde_json::Value;
use vstd::prelude::*;

use crate::community_dashboard::column::{
    decode_json, encode_json, is_text_broken, json_broken, json_held, json_lasting, json_too_large,
    json_written, modified_at, next_modified, same_json, text_broken,
};
use crate::community_dashboard::dashboard::{keep_current, or_current};
use crate::error::StorageError;
use crate::json::{
    document, find_text, json_node, parsed, rendered, text_member, JsonNode, JsonTree,
};
use crate::storage::Storage;
use crate::text::{blank, byte_len, is_blank};

verus! {

/// Maximum UTF-8 bytes of a name.
pub const MAX_NAME_BYTES: usize = 1_024;

/// Maximum UTF-8 bytes of a description.
pub const MAX_DESCRIPTION_BYTES: usize = 1024 * 1024;

/// Maximum UTF-8 bytes of the name of a datasource, a schema or a database.
pub const MAX_SCOPE_BYTES: usize = 1_024;

/// Maximum UTF-8 bytes of a chart type or of a refresh type.
pub const MAX_SHORT_TEXT_BYTES: usize = 256;

/// Maximum UTF-8 bytes of a deletion mark.
pub const MAX_DELETED_BYTES: usize = 32;

/// Maximum UTF-8 bytes of a schema or of an SQL text.
pub const MAX_LARGE_TEXT_BYTES: usize = 16 * 1024 * 1024;

/// A chart.
pub struct CommunityChart {
    /// Numeric id.
    pub id: i64,
    /// Creation time as Unix epoch milliseconds.
    pub gmt_create: i64,
    /// Time of the last change as Unix epoch milliseconds.
    pub gmt_modified: i64,
    /// User-visible name.
    pub name: Option<String>,
    /// User-visible description.
    pub description: Option<String>,
    /// Layout of the chart.
    pub schema: Option<String>,
    /// Datasource.
    pub data_source_id: Option<i64>,
    /// Name of the datasource.
    pub data_source_name: Option<String>,
    /// Schema that the chart reads.
    pub schema_name: Option<String>,
    /// Form of the chart.
    pub chart_type: Option<String>,
    /// Database that the chart reads.
    pub database_name: Option<String>,
    /// SQL that the chart runs.
    pub ddl: Option<String>,
    /// Deletion mark.
    pub deleted: Option<String>,
    /// Owner.
    pub user_id: Option<i64>,
    /// Drawing instructions.
    pub chart_schema: Option<Value>,
    /// Rows that the chart draws.
    pub meta_data: Option<Value>,
    /// Where the rows come from.
    pub database_info: Option<Value>,
    /// How the chart is refreshed.
    pub refresh_type: Option<String>,
    /// When the chart is refreshed.
    pub refresh_cycle: Option<Value>,
}

/// Fields of a new chart.
#[derive(Default)]
pub struct CreateCommunityChartRequest {
    pub name: Option<String>,
    pub description: Option<String>,
    pub schema: Option<String>,
    pub data_source_id: Option<i64>,
    pub data_source_name: Option<String>,
    pub schema_name: Option<String>,
    pub chart_type: Option<String>,
    pub database_name: Option<String>,
    pub ddl: Option<String>,
    pub deleted: Option<String>,
    pub user_id: Option<i64>,
    pub chart_schema: Option<Value>,
    pub meta_data: Option<Value>,
    pub database_info: Option<Value>,
    pub refresh_type: Option<String>,
    pub refresh_cycle: Option<Value>,
}

/// Fields of a chart that change; the others are kept.
#[derive(Default)]
pub struct UpdateCommunityChartRequest {
    pub name: Option<String>,
    pub description: Option<String>,
    pub schema: Option<String>,
    pub data_source_id: Option<i64>,
    pub data_source_name: Option<String>,
    pub schema_name: Option<String>,
    pub chart_type: Option<String>,
    pub database_name: Option<String>,
    pub ddl: Option<String>,
    pub deleted: Option<String>,
    pub user_id: Option<i64>,
    pub chart_schema: Option<Value>,
    pub meta_data: Option<Value>,
    pub database_info: Option<Value>,
    pub refresh_type: Option<String>,
    pub refresh_cycle: Option<Value>,
}

/// The columns of a chart row.
#[derive(Debug, Clone, PartialEq, Eq)]
pub struct RawChart {
    pub id: i64,
    pub gmt_create: i64,
    pub gmt_modified: i64,
    pub name: Option<String>,
    pub description: Option<String>,
    pub schema: Option<String>,
    pub data_source_id: Option<i64>,
    pub data_source_name: Option<String>,
    pub schema_name: Option<String>,
    pub chart_type: Option<String>,
    pub database_name: Option<String>,
    pub ddl: Option<String>,
    pub deleted: Option<String>,
    pub user_id: Option<i64>,
    pub chart_schema_json: Option<String>,
    pub meta_data_json: Option<String>,
    pub database_info_json: Option<String>,
    pub refresh_type: Option<String>,
    pub refresh_cycle_json: Option<String>,
}

/// A string of an object, unless it is blank.
pub open spec fn wanted_text(tree: JsonTree, name: Seq<char>) -> Option<Seq<char>> {
    match tree {
        JsonTree::Object(members) => match text_member(members, name) {
            Some(text) => if blank(text) {
                None
            } else {
                Some(text)
            },
            None => None,
        },
        _ => None,
    }
}

/// The name that the drawing instructions give to a chart: their title, or else their summary.
pub open spec fn fallback_name(chart_schema: Option<Value>) -> Option<Seq<char>> {
    match chart_schema {
        None => None,
        Some(value) => match wanted_text(document(value), "title"@) {
            Some(title) => Some(title),
            None => wanted_text(document(value), "summary"@),
        },
    }
}

/// A chart has its own name unless it is blank, and else the name that the drawing instructions
/// give.
pub open spec fn name_for_create(
    result: Option<String>,
    name: Option<String>,
    chart_schema: Option<Value>,
) -> bool {
    if name matches Some(own) && !blank(own@) {
        result == name
    } else {
        match fallback_name(chart_schema) {
            Some(text) => result is Some && result->0@ == text,
            None => result is None,
        }
    }
}

/// A changed chart has its new name unless it is blank, and else the name that the new drawing
/// instructions give, or the name it had.
pub open spec fn name_for_update(
    result: Option<String>,
    name: Option<String>,
    chart_schema: Option<Value>,
    current: Option<String>,
) -> bool {
    if name matches Some(own) && !blank(own@) {
        result == name
    } else {
        match fallback_name(chart_schema) {
            Some(text) => result is Some && result->0@ == text,
            None => result == current,
        }
    }
}

/// The rules of the fields of a chart; the first one broken decides the failure.
pub open spec fn chart_fields_check(chart: CommunityChart) -> Result<(), StorageError> {
    if text_broken(chart.name, MAX_NAME_BYTES) {
        Err(StorageError::InvalidCommunityChart("name must be at most 1024 UTF-8 bytes"))
    } else if text_broken(chart.description, MAX_DESCRIPTION_BYTES) {
        Err(StorageError::InvalidCommunityChart("description must be at most 1 MiB"))
    } else if text_broken(chart.schema, MAX_LARGE_TEXT_BYTES) {
        Err(StorageError::InvalidCommunityChart("schema must be at most 16 MiB"))
    } else if text_broken(chart.data_source_name, MAX_SCOPE_BYTES) || text_broken(
        chart.schema_name,
        MAX_SCOPE_BYTES,
    ) || text_broken(chart.database_name, MAX_SCOPE_BYTES) {
        Err(
            StorageError::InvalidCommunityChart(
                "datasource, schema, and database names must be at most 1024 UTF-8 bytes",
            ),
        )
    } else if text_broken(chart.chart_type, MAX_SHORT_TEXT_BYTES) {
        Err(StorageError::InvalidCommunityChart("type must be at most 256 UTF-8 bytes"))
    } else if text_broken(chart.ddl, MAX_LARGE_TEXT_BYTES) {
        Err(StorageError::InvalidCommunityChart("ddl must be at most 16 MiB"))
    } else if text_broken(chart.deleted, MAX_DELETED_BYTES) {
        Err(StorageError::InvalidCommunityChart("deleted must be at most 32 UTF-8 bytes"))
    } else if text_broken(chart.refresh_type, MAX_SHORT_TEXT_BYTES) {
        Err(StorageError::InvalidCommunityChart("refreshType must be at most 256 UTF-8 bytes"))
    } else if json_too_large(chart.chart_schema) {
        Err(StorageError::InvalidCommunityChart("chartSchema exceeds the 16 MiB encoded JSON limit"))
    } else if json_too_large(chart.meta_data) {
        Err(StorageError::InvalidCommunityChart("metaData exceeds the 16 MiB encoded JSON limit"))
    } else if json_too_large(chart.database_info) {
        Err(StorageError::InvalidCommunityChart("databaseInfo exceeds the 16 MiB encoded JSON limit"))
    } else if json_too_large(chart.refresh_cycle) {
        Err(StorageError::InvalidCommunityChart("refreshCycle exceeds the 16 MiB encoded JSON limit"))
    } else {
        Ok(())
    }
}

/// The rules of a stored chart.
pub open spec fn chart_check(chart: CommunityChart) -> Result<(), StorageError> {
    if chart.id <= 0 {
        Err(
            StorageError::InvalidCommunityChart(
                "persisted id must be a positive signed 64-bit integer",
            ),
        )
    } else if chart.gmt_create < 0 || chart.gmt_modified < chart.gmt_create {
        Err(StorageError::InvalidCommunityChart("persisted timestamps are invalid"))
    } else {
        chart_fields_check(chart)
    }
}

/// The row holds the chart.
pub open spec fn chart_written(row: RawChart, chart: CommunityChart) -> bool {
    &&& json_written(row.chart_schema_json, chart.chart_schema)
    &&& json_written(row.meta_data_json, chart.meta_data)
    &&& json_written(row.database_info_json, chart.database_info)
    &&& json_written(row.refresh_cycle_json, chart.refresh_cycle)
    &&& row == (RawChart {
        id: chart.id,
        gmt_create: chart.gmt_create,
        gmt_modified: chart.gmt_modified,
        name: chart.name,
        description: chart.description,
        schema: chart.schema,
        data_source_id: chart.data_source_id,
        data_source_name: chart.data_source_name,
        schema_name: chart.schema_name,
        chart_type: chart.chart_type,
        database_name: chart.database_name,
        ddl: chart.ddl,
        deleted: chart.deleted,
        user_id: chart.user_id,
        chart_schema_json: row.chart_schema_json,
        meta_data_json: row.meta_data_json,
        database_info_json: row.database_info_json,
        refresh_type: chart.refresh_type,
        refresh_cycle_json: row.refresh_cycle_json,
    })
}

/// The chart is the one that the row holds.
pub open spec fn chart_held(chart: CommunityChart, row: RawChart) -> bool {
    &&& json_held(chart.chart_schema, row.chart_schema_json)
    &&& json_held(chart.meta_data, row.meta_data_json)
    &&& json_held(chart.database_info, row.database_info_json)
    &&& json_held(chart.refresh_cycle, row.refresh_cycle_json)
    &&& chart == (CommunityChart {
        id: row.id,
        gmt_create: row.gmt_create,
        gmt_modified: row.gmt_modified,
        name: row.name,
        description: row.description,
        schema: row.schema,
        data_source_id: row.data_source_id,
        data_source_name: row.data_source_name,
        schema_name: row.schema_name,
        chart_type: row.chart_type,
        database_name: row.database_name,
        ddl: row.ddl,
        deleted: row.deleted,
        user_id: row.user_id,
        chart_schema: chart.chart_schema,
        meta_data: chart.meta_data,
        database_info: chart.database_info,
        refresh_type: row.refresh_type,
        refresh_cycle: chart.refresh_cycle,
    })
}

/// How a row is read.
pub open spec fn chart_read(result: Result<CommunityChart, StorageError>, row: RawChart) -> bool {
    if json_broken(row.chart_schema_json) {
        result == Err::<CommunityChart, StorageError>(
            StorageError::Integrity("persisted Community chartSchema JSON is invalid"),
        )
    } else if json_broken(row.meta_data_json) {
        result == Err::<CommunityChart, StorageError>(
            StorageError::Integrity("persisted Community metaData JSON is invalid"),
        )
    } else if json_broken(row.database_info_json) {
        result == Err::<CommunityChart, StorageError>(
            StorageError::Integrity("persisted Community databaseInfo JSON is invalid"),
        )
    } else if json_broken(row.refresh_cycle_json) {
        result == Err::<CommunityChart, StorageError>(
            StorageError::Integrity("persisted Community chart refreshCycle JSON is invalid"),
        )
    } else {
        exists|chart: CommunityChart| #[trigger]
            chart_held(chart, row) && result == (match chart_check(chart) {
                Ok(_) => Ok::<CommunityChart, StorageError>(chart),
                Err(error) => Err(error),
            })
    }
}

/// A chart with the fields of a request, under a name.
pub open spec fn chart_of(
    id: i64,
    input: CreateCommunityChartRequest,
    name: Option<String>,
    timestamp: i64,
) -> CommunityChart {
    CommunityChart {
        id,
        gmt_create: timestamp,
        gmt_modified: timestamp,
        name,
        description: input.description,
        schema: input.schema,
        data_source_id: input.data_source_id,
        data_source_name: input.data_source_name,
        schema_name: input.schema_name,
        chart_type: input.chart_type,
        database_name: input.database_name,
        ddl: input.ddl,
        deleted: input.deleted,
        user_id: input.user_id,
        chart_schema: input.chart_schema,
        meta_data: input.meta_data,
        database_info: input.database_info,
        refresh_type: input.refresh_type,
        refresh_cycle: input.refresh_cycle,
    }
}

/// A chart with the changes of a request, under a name.
pub open spec fn chart_changed(
    current: CommunityChart,
    input: UpdateCommunityChartRequest,
    name: Option<String>,
    modified: i64,
) -> CommunityChart {
    CommunityChart {
        id: current.id,
        gmt_create: current.gmt_create,
        gmt_modified: modified,
        name,
        description: or_current(input.description, current.description),
        schema: or_current(input.schema, current.schema),
        data_source_id: or_current(input.data_source_id, current.data_source_id),
        data_source_name: or_current(input.data_source_name, current.data_source_name),
        schema_name: or_current(input.schema_name, current.schema_name),
        chart_type: or_current(input.chart_type, current.chart_type),
        database_name: or_current(input.database_name, current.database_name),
        ddl: or_current(input.ddl, current.ddl),
        deleted: or_current(input.deleted, current.deleted),
        user_id: or_current(input.user_id, current.user_id),
        chart_schema: or_current(input.chart_schema, current.chart_schema),
        meta_data: or_current(input.meta_data, current.meta_data),
        database_info: or_current(input.database_info, current.database_info),
        refresh_type: or_current(input.refresh_type, current.refresh_type),
        refresh_cycle: or_current(input.refresh_cycle, current.refresh_cycle),
    }
}

/// How a chart is created.
pub open spec fn chart_created(
    result: Result<RawChart, StorageError>,
    id: i64,
    input: CreateCommunityChartRequest,
    timestamp: i64,
) -> bool {
    exists|name: Option<String>| #[trigger]
        name_for_create(name, input.name, input.chart_schema) && ({
            let chart = chart_of(id, input, name, timestamp);
            let check = if chart_fields_check(chart) is Err {
                chart_fields_check(chart)
            } else if id <= 0 {
                Err(StorageError::Integrity("Community chart generated a non-positive id"))
            } else {
                Ok(())
            };
            match result {
                Ok(row) => check is Ok && chart_written(row, chart),
                Err(error) => check == Err::<(), StorageError>(error),
            }
        })
}

/// How a chart is updated.
pub open spec fn chart_updated(
    result: Result<RawChart, StorageError>,
    id: i64,
    input: UpdateCommunityChartRequest,
    current: Option<CommunityChart>,
    now: i64,
) -> bool {
    match current {
        None => result == Err::<RawChart, StorageError>(StorageError::CommunityChartNotFound(id)),
        Some(chart) => match modified_at(chart.gmt_modified, now) {
            Err(error) => result == Err::<RawChart, StorageError>(error),
            Ok(modified) => exists|name: Option<String>| #[trigger]
                name_for_update(name, input.name, input.chart_schema, chart.name) && ({
                    let next = chart_changed(chart, input, name, modified);
                    match result {
                        Ok(row) => chart_check(next) is Ok && chart_written(row, next),
                        Err(error) => chart_check(next) == Err::<(), StorageError>(error),
                    }
                }),
        },
    }
}

fn find_wanted_text(value: &Value, name: &str) -> (result: Option<String>)
    ensures
        match result {
            Some(text) => wanted_text(document(*value), name@) == Some(text@),
            None => wanted_text(document(*value), name@) is None,
        },
{
    match json_node(value) {
        JsonNode::Object(members) => match find_text(&members, name) {
            Some(text) => if is_blank(text) {
                None
            } else {
                Some(text.to_owned())
            },
            None => None,
        },
        _ => None,
    }
}

/// Returns the name that drawing instructions give to a chart.
pub fn chart_fallback_name(chart_schema: &Option<Value>) -> (result: Option<String>)
    ensures
        match result {
            Some(text) => fallback_name(*chart_schema) == Some(text@),
            None => fallback_name(*chart_schema) is None,
        },
{
    match chart_schema {
        None => None,
        Some(value) => match find_wanted_text(value, "title") {
            Some(title) => Some(title),
            None => find_wanted_text(value, "summary"),
        },
    }
}

/// Chooses the name of a new chart.
pub fn chart_name_for_create(name: Option<String>, chart_schema: &Option<Value>) -> (result: Option<
    String,
>)
    ensures
        name_for_create(result, name, *chart_schema),
{
    match name {
        Some(own) => if is_blank(own.as_str()) {
            chart_fallback_name(chart_schema)
        } else {
            Some(own)
        },
        None => chart_fallback_name(chart_schema),
    }
}

/// Chooses the name of a changed chart.
pub fn chart_name_for_update(
    name: Option<String>,
    chart_schema: &Option<Value>,
    current: Option<String>,
) -> (result: Option<String>)
    ensures
        name_for_update(result, name, *chart_schema, current),
{
    if let Some(own) = name {
        if !is_blank(own.as_str()) {
            return Some(own);
        }
    }
    match chart_fallback_name(chart_schema) {
        Some(text) => Some(text),
        None => current,
    }
}

/// Checks the fields of a chart.
pub fn validate_chart_fields(chart: &CommunityChart) -> (result: Result<(), StorageError>)
    ensures
        result == chart_fields_check(*chart),
{
    if is_text_broken(&chart.name, MAX_NAME_BYTES) {
        return Err(StorageError::InvalidCommunityChart("name must be at most 1024 UTF-8 bytes"));
    }
    if is_text_broken(&chart.description, MAX_DESCRIPTION_BYTES) {
        return Err(StorageError::InvalidCommunityChart("description must be at most 1 MiB"));
    }
    if is_text_broken(&chart.schema, MAX_LARGE_TEXT_BYTES) {
        return Err(StorageError::InvalidCommunityChart("schema must be at most 16 MiB"));
    }
    if is_text_broken(&chart.data_source_name, MAX_SCOPE_BYTES) || is_text_broken(
        &chart.schema_name,
        MAX_SCOPE_BYTES,
    ) || is_text_broken(&chart.database_name, MAX_SCOPE_BYTES) {
        return Err(
            StorageError::InvalidCommunityChart(
                "datasource, schema, and database names must be at most 1024 UTF-8 bytes",
            ),
        );
    }
    if is_text_broken(&chart.chart_type, MAX_SHORT_TEXT_BYTES) {
        return Err(StorageError::InvalidCommunityChart("type must be at most 256 UTF-8 bytes"));
    }
    if is_text_broken(&chart.ddl, MAX_LARGE_TEXT_BYTES) {
        return Err(StorageError::InvalidCommunityChart("ddl must be at most 16 MiB"));
    }
    if is_text_broken(&chart.deleted, MAX_DELETED_BYTES) {
        return Err(StorageError::InvalidCommunityChart("deleted must be at most 32 UTF-8 bytes"));
    }
    if is_text_broken(&chart.refresh_type, MAX_SHORT_TEXT_BYTES) {
        return Err(
            StorageError::InvalidCommunityChart("refreshType must be at most 256 UTF-8 bytes"),
        );
    }
    encode_json(
        &chart.chart_schema,
        StorageError::InvalidCommunityChart("chartSchema exceeds the 16 MiB encoded JSON limit"),
    )?;
    encode_json(
        &chart.meta_data,
        StorageError::InvalidCommunityChart("metaData exceeds the 16 MiB encoded JSON limit"),
    )?;
    encode_json(
        &chart.database_info,
        StorageError::InvalidCommunityChart("databaseInfo exceeds the 16 MiB encoded JSON limit"),
    )?;
    encode_json(
        &chart.refresh_cycle,
        StorageError::InvalidCommunityChart("refreshCycle exceeds the 16 MiB encoded JSON limit"),
    )?;
    Ok(())
}

/// Checks a stored chart.
pub fn validate_chart(chart: &CommunityChart) -> (result: Result<(), StorageError>)
    ensures
        result == chart_check(*chart),
{
    if chart.id <= 0 {
        return Err(
            StorageError::InvalidCommunityChart(
                "persisted id must be a positive signed 64-bit integer",
            ),
        );
    }
    if chart.gmt_create < 0 || chart.gmt_modified < chart.gmt_create {
        return Err(StorageError::InvalidCommunityChart("persisted timestamps are invalid"));
    }
    validate_chart_fields(chart)
}

fn encode_chart(chart: CommunityChart) -> (result: Result<RawChart, StorageError>)
    requires
        chart_fields_check(chart) is Ok,
    ensures
        result is Ok,
        chart_written(result->Ok_0, chart),
{
    let chart_schema_json = encode_json(
        &chart.chart_schema,
        StorageError::InvalidCommunityChart("chartSchema exceeds the 16 MiB encoded JSON limit"),
    )?;
    let meta_data_json = encode_json(
        &chart.meta_data,
        StorageError::InvalidCommunityChart("metaData exceeds the 16 MiB encoded JSON limit"),
    )?;
    let database_info_json = encode_json(
        &chart.database_info,
        StorageError::InvalidCommunityChart("databaseInfo exceeds the 16 MiB encoded JSON limit"),
    )?;
    let refresh_cycle_json = encode_json(
        &chart.refresh_cycle,
        StorageError::InvalidCommunityChart("refreshCycle exceeds the 16 MiB encoded JSON limit"),
    )?;
    Ok(
        RawChart {
            id: chart.id,
            gmt_create: chart.gmt_create,
            gmt_modified: chart.gmt_modified,
            name: chart.name,
            description: chart.description,
            schema: chart.schema,
            data_source_id: chart.data_source_id,
            data_source_name: chart.data_source_name,
            schema_name: chart.schema_name,
            chart_type: chart.chart_type,
            database_name: chart.database_name,
            ddl: chart.ddl,
            deleted: chart.deleted,
            user_id: chart.user_id,
            chart_schema_json,
            meta_data_json,
            database_info_json,
            refresh_type: chart.refresh_type,
            refresh_cycle_json,
        },
    )
}

/// Reads a chart row.
pub fn decode_chart(row: RawChart) -> (result: Result<CommunityChart, StorageError>)
    ensures
        chart_read(result, row),
{
    let chart_schema = decode_json(
        &row.chart_schema_json,
        StorageError::Integrity("persisted Community chartSchema JSON is invalid"),
    )?;
    let meta_data = decode_json(
        &row.meta_data_json,
        StorageError::Integrity("persisted Community metaData JSON is invalid"),
    )?;
    let database_info = decode_json(
        &row.database_info_json,
        StorageError::Integrity("persisted Community databaseInfo JSON is invalid"),
    )?;
    let refresh_cycle = decode_json(
        &row.refresh_cycle_json,
        StorageError::Integrity("persisted Community chart refreshCycle JSON is invalid"),
    )?;
    let chart = CommunityChart {
        id: row.id,
        gmt_create: row.gmt_create,
        gmt_modified: row.gmt_modified,
        name: row.name,
        description: row.description,
        schema: row.schema,
        data_source_id: row.data_source_id,
        data_source_name: row.data_source_name,
        schema_name: row.schema_name,
        chart_type: row.chart_type,
        database_name: row.database_name,
        ddl: row.ddl,
        deleted: row.deleted,
        user_id: row.user_id,
        chart_schema,
        meta_data,
        database_info,
        refresh_type: row.refresh_type,
        refresh_cycle,
    };
    assert(chart_held(chart, row));
    validate_chart(&chart)?;
    Ok(chart)
}

fn change_chart(chart: CommunityChart, input: UpdateCommunityChartRequest, modified: i64) -> (next:
    CommunityChart)
    ensures
        name_for_update(next.name, input.name, input.chart_schema, chart.name),
        next == chart_changed(chart, input, next.name, modified),
{
    let name = chart_name_for_update(input.name, &input.chart_schema, chart.name);
    CommunityChart {
        id: chart.id,
        gmt_create: chart.gmt_create,
        gmt_modified: modified,
        name,
        description: keep_current(input.description, chart.description),
        schema: keep_current(input.schema, chart.schema),
        data_source_id: keep_current(input.data_source_id, chart.data_source_id),
        data_source_name: keep_current(input.data_source_name, chart.data_source_name),
        schema_name: keep_current(input.schema_name, chart.schema_name),
        chart_type: keep_current(input.chart_type, chart.chart_type),
        database_name: keep_current(input.database_name, chart.database_name),
        ddl: keep_current(input.ddl, chart.ddl),
        deleted: keep_current(input.deleted, chart.deleted),
        user_id: keep_current(input.user_id, chart.user_id),
        chart_schema: keep_current(input.chart_schema, chart.chart_schema),
        meta_data: keep_current(input.meta_data, chart.meta_data),
        database_info: keep_current(input.database_info, chart.database_info),
        refresh_type: keep_current(input.refresh_type, chart.refresh_type),
        refresh_cycle: keep_current(input.refresh_cycle, chart.refresh_cycle),
    }
}

impl Storage {
    /// Creates one chart under the id that the database has generated.
    pub fn create_community_chart(
        id: i64,
        input: CreateCommunityChartRequest,
        timestamp: i64,
    ) -> (result: Result<RawChart, StorageError>)
        ensures
            chart_created(result, id, input, timestamp),
    {
        let name = chart_name_for_create(input.name, &input.chart_schema);
        let chart = CommunityChart {
            id,
            gmt_create: timestamp,
            gmt_modified: timestamp,
            name,
            description: input.description,
            schema: input.schema,
            data_source_id: input.data_source_id,
            data_source_name: input.data_source_name,
            schema_name: input.schema_name,
            chart_type: input.chart_type,
            database_name: input.database_name,
            ddl: input.ddl,
            deleted: input.deleted,
            user_id: input.user_id,
            chart_schema: input.chart_schema,
            meta_data: input.meta_data,
            database_info: input.database_info,
            refresh_type: input.refresh_type,
            refresh_cycle: input.refresh_cycle,
        };
        assert(name_for_create(name, input.name, input.chart_schema));
        validate_chart_fields(&chart)?;
        if id <= 0 {
            return Err(StorageError::Integrity("Community chart generated a non-positive id"));
        }
        encode_chart(chart)
    }

    /// Reads the chart with an id, if there is one; no chart has an id that is not positive.
    pub fn get_community_chart(id: i64, row: Option<RawChart>) -> (result: Result<
        Option<CommunityChart>,
        StorageError,
    >)
        ensures
            match row {
                None => result == Ok::<Option<CommunityChart>, StorageError>(None),
                Some(raw) => if id <= 0 {
                    result == Ok::<Option<CommunityChart>, StorageError>(None)
                } else {
                    match result {
                        Ok(Some(chart)) => chart_read(Ok(chart), raw),
                        Ok(None) => false,
                        Err(error) => chart_read(Err(error), raw),
                    }
                },
            },
    {
        if id <= 0 {
            return Ok(None);
        }
        match row {
            None => Ok(None),
            Some(raw) => {
                let chart = decode_chart(raw)?;
                Ok(Some(chart))
            },
        }
    }

    /// Applies a partial update to one chart.
    pub fn update_community_chart(
        id: i64,
        input: UpdateCommunityChartRequest,
        current: Option<CommunityChart>,
        now: i64,
    ) -> (result: Result<RawChart, StorageError>)
        ensures
            chart_updated(result, id, input, current, now),
    {
        let chart = match current {
            Some(chart) => chart,
            None => return Err(StorageError::CommunityChartNotFound(id)),
        };
        let modified: i64 = next_modified(chart.gmt_modified, now)?;
        let next = change_chart(chart, input, modified);
        validate_chart(&next)?;
        encode_chart(next)
    }

    /// Decides whether there is a chart to delete.
    pub fn delete_community_chart(id: i64, exists: bool) -> (result: bool)
        ensures
            result == (id > 0 && exists),
    {
        id > 0 && exists
    }
}

/// A partial update keeps what it does not name; only the name may follow new drawing instructions.
pub proof fn law_chart_update_keeps_unnamed_fields(
    current: CommunityChart,
    input: UpdateCommunityChartRequest,
    name: Option<String>,
    modified: i64,
)
    requires
        name_for_update(name, input.name, input.chart_schema, current.name),
    ensures
        ({
            let next = chart_changed(current, input, name, modified);
            &&& next.id == current.id
            &&& next.gmt_create == current.gmt_create
            &&& input.name is None && input.chart_schema is None ==> next.name == current.name
            &&& input.description is None ==> next.description == current.description
            &&& input.schema is None ==> next.schema == current.schema
            &&& input.data_source_id is None ==> next.data_source_id == current.data_source_id
            &&& input.data_source_name is None ==> next.data_source_name == current.data_source_name
            &&& input.schema_name is None ==> next.schema_name == current.schema_name
            &&& input.chart_type is None ==> next.chart_type == current.chart_type
            &&& input.database_name is None ==> next.database_name == current.database_name
            &&& input.ddl is None ==> next.ddl == current.ddl
            &&& input.deleted is None ==> next.deleted == current.deleted
            &&& input.user_id is None ==> next.user_id == current.user_id
            &&& input.chart_schema is None ==> next.chart_schema == current.chart_schema
            &&& input.meta_data is None ==> next.meta_data == current.meta_data
            &&& input.database_info is None ==> next.database_info == current.database_info
            &&& input.refresh_type is None ==> next.refresh_type == current.refresh_type
            &&& input.refresh_cycle is None ==> next.refresh_cycle == current.refresh_cycle
        }),
{
}

/// The documents of a chart read back from their columns.
pub open spec fn chart_lasting(chart: CommunityChart) -> bool {
    &&& json_lasting(chart.chart_schema)
    &&& json_lasting(chart.meta_data)
    &&& json_lasting(chart.database_info)
    &&& json_lasting(chart.refresh_cycle)
}

/// A chart that was written reads back with all of its texts and documents.
pub proof fn law_written_chart_reads_back(
    row: RawChart,
    written: CommunityChart,
    result: Result<CommunityChart, StorageError>,
)
    requires
        chart_check(written) is Ok,
        chart_written(row, written),
        chart_read(result, row),
    ensures
        chart_lasting(written) ==> result is Ok,
        result matches Ok(read) ==> {
            &&& json_lasting(written.chart_schema) ==> same_json(
                read.chart_schema,
                written.chart_schema,
            )
            &&& json_lasting(written.meta_data) ==> same_json(read.meta_data, written.meta_data)
            &&& json_lasting(written.database_info) ==> same_json(
                read.database_info,
                written.database_info,
            )
            &&& json_lasting(written.refresh_cycle) ==> same_json(
                read.refresh_cycle,
                written.refresh_cycle,
            )
            &&& read == (CommunityChart {
                chart_schema: read.chart_schema,
                meta_data: read.meta_data,
                database_info: read.database_info,
                refresh_cycle: read.refresh_cycle,
                ..written
            })
        },
{
    if !json_broken(row.chart_schema_json) && !json_broken(row.meta_data_json) && !json_broken(
        row.database_info_json,
    ) && !json_broken(row.refresh_cycle_json) {
        let read = choose|read: CommunityChart| #[trigger]
            chart_held(read, row) && result == (match chart_check(read) {
                Ok(_) => Ok::<CommunityChart, StorageError>(read),
                Err(error) => Err(error),
            });
        assert(chart_held(read, row));
    }
}

/// The fields of a chart are valid exactly if every text is within its bound and holds no NUL, and
/// the JSON text of every document is within its bound. A stored chart also has a positive id and
/// was not changed before it was created.
pub proof fn law_chart_is_valid(chart: CommunityChart)
    ensures
        chart_fields_check(chart) is Ok <==> {
            &&& chart.name matches Some(text) ==> byte_len(text@) <= 1_024 && !text@.contains('\0')
            &&& chart.description matches Some(text)
                ==> byte_len(text@) <= 1_048_576 && !text@.contains('\0')
            &&& chart.schema matches Some(text)
                ==> byte_len(text@) <= 16_777_216 && !text@.contains('\0')
            &&& chart.data_source_name matches Some(text)
                ==> byte_len(text@) <= 1_024 && !text@.contains('\0')
            &&& chart.schema_name matches Some(text)
                ==> byte_len(text@) <= 1_024 && !text@.contains('\0')
            &&& chart.database_name matches Some(text)
                ==> byte_len(text@) <= 1_024 && !text@.contains('\0')
            &&& chart.chart_type matches Some(text) ==> byte_len(text@) <= 256 && !text@.contains('\0')
            &&& chart.ddl matches Some(text) ==> byte_len(text@) <= 16_777_216 && !text@.contains('\0')
            &&& chart.deleted matches Some(text) ==> byte_len(text@) <= 32 && !text@.contains('\0')
            &&& chart.refresh_type matches Some(text)
                ==> byte_len(text@) <= 256 && !text@.contains('\0')
            &&& chart.chart_schema matches Some(tree)
                ==> byte_len(rendered(document(tree))) <= 16_777_216
            &&& chart.meta_data matches Some(tree) ==> byte_len(rendered(document(tree))) <= 16_777_216
            &&& chart.database_info matches Some(tree)
                ==> byte_len(rendered(document(tree))) <= 16_777_216
            &&& chart.refresh_cycle matches Some(tree)
                ==> byte_len(rendered(document(tree))) <= 16_777_216
        },
        chart_check(chart) is Ok <==> {
            &&& chart.id > 0
            &&& 0 <= chart.gmt_create <= chart.gmt_modified
            &&& chart_fields_check(chart) is Ok
        },
{
}

/// A new chart has the name that was given, unless that is blank; then the title of its drawing
/// instructions, unless that is blank too; then their summary; and else none.
pub proof fn law_new_chart_is_named(
    result: Option<String>,
    name: Option<String>,
    chart_schema: Option<Value>,
    members: Seq<(Seq<char>, JsonTree)>,
)
    requires
        name_for_create(result, name, chart_schema),
    ensures
        (name matches Some(own) && !blank(own@)) ==> result == name,
        !(name matches Some(own) && !blank(own@)) ==> {
            &&& chart_schema is None ==> result is None
            &&& (chart_schema matches Some(value) && document(value) == JsonTree::Object(members))
                ==> {
                &&& (text_member(members, "title"@) matches Some(title) && !blank(title)) ==> (
                result matches Some(text) && text@ == text_member(members, "title"@)->0)
                &&& !(text_member(members, "title"@) matches Some(title) && !blank(title)) ==> {
                    &&& (text_member(members, "summary"@) matches Some(summary) && !blank(summary))
                        ==> (result matches Some(text) && text@ == text_member(
                        members,
                        "summary"@,
                    )->0)
                    &&& !(text_member(members, "summary"@) matches Some(summary) && !blank(
                        summary,
                    )) ==> result is None
                }
            }
        },
{
}

/// A changed chart has its new name, unless that is blank; then the title or the summary of its new
/// drawing instructions; and else the name that it had.
pub proof fn law_changed_chart_is_named(
    result: Option<String>,
    name: Option<String>,
    chart_schema: Option<Value>,
    current: Option<String>,
    members: Seq<(Seq<char>, JsonTree)>,
)
    requires
        name_for_update(result, name, chart_schema, current),
    ensures
        (name matches Some(own) && !blank(own@)) ==> result == name,
        !(name matches Some(own) && !blank(own@)) ==> {
            &&& chart_schema is None ==> result == current
            &&& (chart_schema matches Some(value) && document(value) == JsonTree::Object(members))
                ==> {
                &&& (text_member(members, "title"@) matches Some(title) && !blank(title)) ==> (
                result matches Some(text) && text@ == text_member(members, "title"@)->0)
                &&& !(text_member(members, "title"@) matches Some(title) && !blank(title)) ==> {
                    &&& (text_member(members, "summary"@) matches Some(summary) && !blank(summary))
                        ==> (result matches Some(text) && text@ == text_member(
                        members,
                        "summary"@,
                    )->0)
                    &&& !(text_member(members, "summary"@) matches Some(summary) && !blank(
                        summary,
                    )) ==> result == current
                }
            }
        },
{
}

/// The row of a new chart has every field that was given, under the given id and at the given time,
/// and the JSON text of every document that was given. It is created exactly if the id is positive
/// and the fields are valid.
pub proof fn law_chart_is_created_as_given(
    result: Result<RawChart, StorageError>,
    id: i64,
    input: CreateCommunityChartRequest,
    timestamp: i64,
)
    requires
        chart_created(result, id, input, timestamp),
    ensures
        result matches Ok(row) ==> {
            &&& row.id == id
            &&& row.gmt_create == timestamp
            &&& row.gmt_modified == timestamp
            &&& row.description == input.description
            &&& row.schema == input.schema
            &&& row.data_source_id == input.data_source_id
            &&& row.data_source_name == input.data_source_name
            &&& row.schema_name == input.schema_name
            &&& row.chart_type == input.chart_type
            &&& row.database_name == input.database_name
            &&& row.ddl == input.ddl
            &&& row.deleted == input.deleted
            &&& row.user_id == input.user_id
            &&& row.refresh_type == input.refresh_type
            &&& input.chart_schema is None ==> row.chart_schema_json is None
            &&& input.chart_schema matches Some(tree)
                ==> (row.chart_schema_json matches Some(text) && text@
                == rendered(document(tree)))
            &&& input.meta_data is None ==> row.meta_data_json is None
            &&& input.meta_data matches Some(tree) ==> (row.meta_data_json matches Some(text) && text@
                == rendered(document(tree)))
            &&& input.database_info is None ==> row.database_info_json is None
            &&& input.database_info matches Some(tree)
                ==> (row.database_info_json matches Some(text) && text@
                == rendered(document(tree)))
            &&& input.refresh_cycle is None ==> row.refresh_cycle_json is None
            &&& input.refresh_cycle matches Some(tree)
                ==> (row.refresh_cycle_json matches Some(text) && text@
                == rendered(document(tree)))
            &&& (input.name matches Some(own) && !blank(own@)) ==> row.name == input.name
        },
        (input.name matches Some(own) && !blank(own@)) ==> (result is Ok <==> {
            &&& id > 0
            &&& input.name matches Some(text) ==> byte_len(text@) <= 1_024 && !text@.contains('\0')
            &&& input.description matches Some(text)
                ==> byte_len(text@) <= 1_048_576 && !text@.contains('\0')
            &&& input.schema matches Some(text)
                ==> byte_len(text@) <= 16_777_216 && !text@.contains('\0')
            &&& input.data_source_name matches Some(text)
                ==> byte_len(text@) <= 1_024 && !text@.contains('\0')
            &&& input.schema_name matches Some(text)
                ==> byte_len(text@) <= 1_024 && !text@.contains('\0')
            &&& input.database_name matches Some(text)
                ==> byte_len(text@) <= 1_024 && !text@.contains('\0')
            &&& input.chart_type matches Some(text) ==> byte_len(text@) <= 256 && !text@.contains('\0')
            &&& input.ddl matches Some(text) ==> byte_len(text@) <= 16_777_216 && !text@.contains('\0')
            &&& input.deleted matches Some(text) ==> byte_len(text@) <= 32 && !text@.contains('\0')
            &&& input.refresh_type matches Some(text)
                ==> byte_len(text@) <= 256 && !text@.contains('\0')
            &&& input.chart_schema matches Some(tree)
                ==> byte_len(rendered(document(tree))) <= 16_777_216
            &&& input.meta_data matches Some(tree) ==> byte_len(rendered(document(tree))) <= 16_777_216
            &&& input.database_info matches Some(tree)
                ==> byte_len(rendered(document(tree))) <= 16_777_216
            &&& input.refresh_cycle matches Some(tree)
                ==> byte_len(rendered(document(tree))) <= 16_777_216
        }),
{
}

/// The row of an updated chart has each field that the update names as the update names it, and
/// every other field as it was; its id and its creation time stay, and it was last changed now, or
/// one millisecond after the last change if that is not earlier than now.
pub proof fn law_chart_update_sets_named_fields(
    result: Result<RawChart, StorageError>,
    id: i64,
    input: UpdateCommunityChartRequest,
    current: CommunityChart,
    now: i64,
)
    requires
        chart_updated(result, id, input, Some(current), now),
    ensures
        result matches Ok(row) ==> {
            &&& input.description is Some ==> row.description == input.description
            &&& input.description is None ==> row.description == current.description
            &&& input.schema is Some ==> row.schema == input.schema
            &&& input.schema is None ==> row.schema == current.schema
            &&& input.data_source_id is Some ==> row.data_source_id == input.data_source_id
            &&& input.data_source_id is None ==> row.data_source_id == current.data_source_id
            &&& input.data_source_name is Some ==> row.data_source_name == input.data_source_name
            &&& input.data_source_name is None ==> row.data_source_name == current.data_source_name
            &&& input.schema_name is Some ==> row.schema_name == input.schema_name
            &&& input.schema_name is None ==> row.schema_name == current.schema_name
            &&& input.chart_type is Some ==> row.chart_type == input.chart_type
            &&& input.chart_type is None ==> row.chart_type == current.chart_type
            &&& input.database_name is Some ==> row.database_name == input.database_name
            &&& input.database_name is None ==> row.database_name == current.database_name
            &&& input.ddl is Some ==> row.ddl == input.ddl
            &&& input.ddl is None ==> row.ddl == current.ddl
            &&& input.deleted is Some ==> row.deleted == input.deleted
            &&& input.deleted is None ==> row.deleted == current.deleted
            &&& input.user_id is Some ==> row.user_id == input.user_id
            &&& input.user_id is None ==> row.user_id == current.user_id
            &&& input.refresh_type is Some ==> row.refresh_type == input.refresh_type
            &&& input.refresh_type is None ==> row.refresh_type == current.refresh_type
            &&& input.chart_schema matches Some(tree)
                ==> (row.chart_schema_json matches Some(text) && text@
                == rendered(document(tree)))
            &&& input.chart_schema is None ==> json_written(row.chart_schema_json, current.chart_schema)
            &&& input.meta_data matches Some(tree) ==> (row.meta_data_json matches Some(text) && text@
                == rendered(document(tree)))
            &&& input.meta_data is None ==> json_written(row.meta_data_json, current.meta_data)
            &&& input.database_info matches Some(tree)
                ==> (row.database_info_json matches Some(text) && text@
                == rendered(document(tree)))
            &&& input.database_info is None
                ==> json_written(row.database_info_json, current.database_info)
            &&& input.refresh_cycle matches Some(tree)
                ==> (row.refresh_cycle_json matches Some(text) && text@
                == rendered(document(tree)))
            &&& input.refresh_cycle is None
                ==> json_written(row.refresh_cycle_json, current.refresh_cycle)
            &&& (input.name matches Some(own) && !blank(own@)) ==> row.name == input.name
            &&& input.name is None && input.chart_schema is None ==> row.name == current.name
            &&& row.id == current.id
            &&& row.gmt_create == current.gmt_create
            &&& now > current.gmt_modified ==> row.gmt_modified == now
            &&& now <= current.gmt_modified ==> row.gmt_modified == current.gmt_modified + 1
        },
{
}

/// An update of a valid chart that gives it a name, or neither a name nor drawing instructions, is
/// accepted exactly if each value that it names is valid and its next change can be dated.
pub proof fn law_chart_update_is_accepted(
    result: Result<RawChart, StorageError>,
    id: i64,
    input: UpdateCommunityChartRequest,
    current: CommunityChart,
    now: i64,
)
    requires
        chart_updated(result, id, input, Some(current), now),
        chart_check(current) is Ok,
        (input.name matches Some(own) && !blank(own@)) || (input.name is None && input.chart_schema
            is None),
    ensures
        result is Ok <==> {
            &&& current.gmt_modified < i64::MAX
            &&& input.name matches Some(text) ==> byte_len(text@) <= 1_024 && !text@.contains('\0')
            &&& input.description matches Some(text)
                ==> byte_len(text@) <= 1_048_576 && !text@.contains('\0')
            &&& input.schema matches Some(text)
                ==> byte_len(text@) <= 16_777_216 && !text@.contains('\0')
            &&& input.data_source_name matches Some(text)
                ==> byte_len(text@) <= 1_024 && !text@.contains('\0')
            &&& input.schema_name matches Some(text)
                ==> byte_len(text@) <= 1_024 && !text@.contains('\0')
            &&& input.database_name matches Some(text)
                ==> byte_len(text@) <= 1_024 && !text@.contains('\0')
            &&& input.chart_type matches Some(text) ==> byte_len(text@) <= 256 && !text@.contains('\0')
            &&& input.ddl matches Some(text) ==> byte_len(text@) <= 16_777_216 && !text@.contains('\0')
            &&& input.deleted matches Some(text) ==> byte_len(text@) <= 32 && !text@.contains('\0')
            &&& input.refresh_type matches Some(text)
                ==> byte_len(text@) <= 256 && !text@.contains('\0')
            &&& input.chart_schema matches Some(tree)
                ==> byte_len(rendered(document(tree))) <= 16_777_216
            &&& input.meta_data matches Some(tree) ==> byte_len(rendered(document(tree))) <= 16_777_216
            &&& input.database_info matches Some(tree)
                ==> byte_len(rendered(document(tree))) <= 16_777_216
            &&& input.refresh_cycle matches Some(tree)
                ==> byte_len(rendered(document(tree))) <= 16_777_216
        },
{
}

/// A chart that is not there is not updated.
pub proof fn law_missing_chart_is_not_updated(
    result: Result<RawChart, StorageError>,
    id: i64,
    input: UpdateCommunityChartRequest,
    now: i64,
)
    requires
        chart_updated(result, id, input, None, now),
    ensures
        result == Err::<RawChart, StorageError>(StorageError::CommunityChartNotFound(id)),
{
}

/// A row whose documents can be read is read with every field as it is, and is refused exactly if
/// that is no valid chart.
pub proof fn law_chart_row_is_read_as_it_is(
    result: Result<CommunityChart, StorageError>,
    row: RawChart,
)
    requires
        chart_read(result, row),
    ensures
        result matches Ok(chart) ==> {
            &&& chart.id == row.id
            &&& chart.gmt_create == row.gmt_create
            &&& chart.gmt_modified == row.gmt_modified
            &&& chart.name == row.name
            &&& chart.description == row.description
            &&& chart.schema == row.schema
            &&& chart.data_source_id == row.data_source_id
            &&& chart.data_source_name == row.data_source_name
            &&& chart.schema_name == row.schema_name
            &&& chart.chart_type == row.chart_type
            &&& chart.database_name == row.database_name
            &&& chart.ddl == row.ddl
            &&& chart.deleted == row.deleted
            &&& chart.user_id == row.user_id
            &&& chart.refresh_type == row.refresh_type
            &&& row.chart_schema_json is None ==> chart.chart_schema is None
            &&& row.chart_schema_json matches Some(text)
                ==> (chart.chart_schema matches Some(tree) && parsed(text@)
                == Some(document(tree)))
            &&& row.meta_data_json is None ==> chart.meta_data is None
            &&& row.meta_data_json matches Some(text)
                ==> (chart.meta_data matches Some(tree) && parsed(text@)
                == Some(document(tree)))
            &&& row.database_info_json is None ==> chart.database_info is None
            &&& row.database_info_json matches Some(text)
                ==> (chart.database_info matches Some(tree) && parsed(text@)
                == Some(document(tree)))
            &&& row.refresh_cycle_json is None ==> chart.refresh_cycle is None
            &&& row.refresh_cycle_json matches Some(text)
                ==> (chart.refresh_cycle matches Some(tree) && parsed(text@)
                == Some(document(tree)))
            &&& chart_check(chart) is Ok
        },
        (row.chart_schema_json matches Some(text) && parsed(text@) is None) ==> result is Err,
        (row.meta_data_json matches Some(text) && parsed(text@) is None) ==> result is Err,
        (row.database_info_json matches Some(text) && parsed(text@) is None) ==> result is Err,
        (row.refresh_cycle_json matches Some(text) && parsed(text@) is None) ==> result is Err,
{
}

} // verus!
