use vstd::prelude::*;

use crate::agent::model::{
    AgentMessageRecord, AgentRunRecord, AgentSessionRecord, ToolPermissionRecord,
};
use crate::agent::status::{
    AgentMessageRole, AgentRunStatus, SqlPermissionMode, ToolPermissionStatus,
};
use crate::catalog::Keyed;
use crate::digest::digest_from_bytes;
use crate::error::StorageError;
use crate::number::{
    fits_sql, from_sql_optional_u64, from_sql_u64, sql_optional_u64, sql_u64, to_sql_i64,
};
use crate::row::Row;

verus! {

/// A session as its database row holds it.
#[derive(Clone, PartialEq, Eq)]
pub struct RawSession {
    pub id: String,
    pub title: String,
    pub provider_id: String,
    pub datasource_id: Option<String>,
    pub revision: i64,
    pub created_at_ms: i64,
    pub updated_at_ms: i64,
}

/// A message as its database row holds it.
#[derive(Clone, PartialEq, Eq)]
pub struct RawMessage {
    pub id: String,
    pub session_id: String,
    pub run_id: Option<String>,
    pub ordinal: i64,
    pub role: String,
    pub summary_through_ordinal: Option<i64>,
    pub content_json: String,
    pub content_bytes: i64,
    pub created_at_ms: i64,
}

/// A run as its database row holds it.
#[derive(Clone, PartialEq, Eq)]
pub struct RawRun {
    pub id: String,
    pub session_id: String,
    pub sql_permission_mode: String,
    pub status: String,
    pub last_sequence: i64,
    pub model_rounds: i64,
    pub tool_calls: i64,
    pub input_tokens: i64,
    pub output_tokens: i64,
    pub total_tokens: i64,
    pub message_id: Option<String>,
    pub error_code: Option<String>,
    pub error_message: Option<String>,
    pub cancel_requested: bool,
    pub write_in_flight_tool_call_id: Option<String>,
    pub write_in_flight_arguments_sha256: Option<Vec<u8>>,
    pub compaction_count: i64,
    pub compacted_through_ordinal: Option<i64>,
    pub created_at_ms: i64,
    pub updated_at_ms: i64,
    pub started_at_ms: Option<i64>,
    pub finished_at_ms: Option<i64>,
}

/// A tool permission as its database row holds it.
#[derive(Clone, PartialEq, Eq)]
pub struct RawPermission {
    pub id: String,
    pub run_id: String,
    pub tool_call_id: String,
    pub tool_name: String,
    pub arguments_sha256: Vec<u8>,
    pub summary: String,
    pub status: String,
    pub revision: i64,
    pub expires_at_ms: i64,
    pub created_at_ms: i64,
    pub updated_at_ms: i64,
    pub consumed_at_ms: Option<i64>,
}

/// The failures of a session row.
pub open spec fn session_row_check(raw: RawSession) -> Result<(), StorageError> {
    match sql_u64(raw.revision, "agent session revision") {
        Err(error) => Err(error),
        Ok(_) => Ok(()),
    }
}

/// The session that a row holds.
pub open spec fn session_of(raw: RawSession) -> AgentSessionRecord {
    AgentSessionRecord {
        id: raw.id,
        title: raw.title,
        provider_id: raw.provider_id,
        datasource_id: raw.datasource_id,
        revision: raw.revision as u64,
        created_at_ms: raw.created_at_ms,
        updated_at_ms: raw.updated_at_ms,
    }
}

/// The message that a row holds, or the first column that is broken.
pub open spec fn message_of(raw: RawMessage) -> Result<AgentMessageRecord, StorageError> {
    match (
        sql_u64(raw.ordinal, "agent message ordinal"),
        AgentMessageRole::persisted(raw.role@),
        sql_optional_u64(raw.summary_through_ordinal, "summary coverage ordinal"),
        sql_u64(raw.content_bytes, "agent message bytes"),
    ) {
        (Err(error), _, _, _) => Err(error),
        (_, Err(error), _, _) => Err(error),
        (_, _, Err(error), _) => Err(error),
        (_, _, _, Err(error)) => Err(error),
        (Ok(ordinal), Ok(role), Ok(summary_through_ordinal), Ok(content_bytes)) => Ok(
            AgentMessageRecord {
                id: raw.id,
                session_id: raw.session_id,
                run_id: raw.run_id,
                ordinal,
                role,
                summary_through_ordinal,
                content_json: raw.content_json,
                content_bytes,
                created_at_ms: raw.created_at_ms,
            },
        ),
    }
}

/// The first column of a run row that is broken.
pub open spec fn run_row_check(raw: RawRun) -> Result<(), StorageError> {
    if raw.write_in_flight_arguments_sha256 matches Some(bytes) && bytes@.len() != 32 {
        Err(StorageError::InvalidAgent("database write argument digest is invalid"))
    } else if SqlPermissionMode::persisted(raw.sql_permission_mode@) is Err {
        Err(SqlPermissionMode::persisted(raw.sql_permission_mode@)->Err_0)
    } else if AgentRunStatus::persisted(raw.status@) is Err {
        Err(AgentRunStatus::persisted(raw.status@)->Err_0)
    } else if raw.last_sequence < 0 {
        Err(StorageError::NumericRange("agent event sequence"))
    } else if raw.model_rounds < 0 {
        Err(StorageError::NumericRange("agent model rounds"))
    } else if raw.tool_calls < 0 {
        Err(StorageError::NumericRange("agent tool calls"))
    } else if raw.input_tokens < 0 {
        Err(StorageError::NumericRange("agent input tokens"))
    } else if raw.output_tokens < 0 {
        Err(StorageError::NumericRange("agent output tokens"))
    } else if raw.total_tokens < 0 {
        Err(StorageError::NumericRange("agent total tokens"))
    } else if raw.compaction_count < 0 {
        Err(StorageError::NumericRange("agent compaction count"))
    } else if raw.compacted_through_ordinal matches Some(ordinal) && ordinal < 0 {
        Err(StorageError::NumericRange("compacted message ordinal"))
    } else {
        Ok(())
    }
}

/// A record holds the run of a row.
pub open spec fn run_held(record: AgentRunRecord, raw: RawRun) -> bool {
    &&& match (record.write_in_flight_arguments_sha256, raw.write_in_flight_arguments_sha256) {
        (None, None) => true,
        (Some(digest), Some(bytes)) => digest@ == bytes@,
        _ => false,
    }
    &&& record == (AgentRunRecord {
        id: raw.id,
        session_id: raw.session_id,
        status: AgentRunStatus::persisted(raw.status@)->Ok_0,
        sql_permission_mode: SqlPermissionMode::persisted(raw.sql_permission_mode@)->Ok_0,
        last_sequence: raw.last_sequence as u64,
        model_rounds: raw.model_rounds as u64,
        tool_calls: raw.tool_calls as u64,
        input_tokens: raw.input_tokens as u64,
        output_tokens: raw.output_tokens as u64,
        total_tokens: raw.total_tokens as u64,
        message_id: raw.message_id,
        error_code: raw.error_code,
        error_message: raw.error_message,
        cancel_requested: raw.cancel_requested,
        write_in_flight_tool_call_id: raw.write_in_flight_tool_call_id,
        write_in_flight_arguments_sha256: record.write_in_flight_arguments_sha256,
        compaction_count: raw.compaction_count as u64,
        compacted_through_ordinal: match raw.compacted_through_ordinal {
            Some(ordinal) => Some(ordinal as u64),
            None => None,
        },
        created_at_ms: raw.created_at_ms,
        updated_at_ms: raw.updated_at_ms,
        started_at_ms: raw.started_at_ms,
        finished_at_ms: raw.finished_at_ms,
    })
}

/// The first column of a permission row that is broken.
pub open spec fn permission_row_check(raw: RawPermission) -> Result<(), StorageError> {
    if raw.arguments_sha256@.len() != 32 {
        Err(StorageError::InvalidAgent("permission argument digest is invalid"))
    } else if ToolPermissionStatus::persisted(raw.status@) is Err {
        Err(ToolPermissionStatus::persisted(raw.status@)->Err_0)
    } else if raw.revision < 0 {
        Err(StorageError::NumericRange("tool permission revision"))
    } else {
        Ok(())
    }
}

/// A record holds the permission of a row.
pub open spec fn permission_held(record: ToolPermissionRecord, raw: RawPermission) -> bool {
    &&& record.arguments_sha256@ == raw.arguments_sha256@
    &&& record == (ToolPermissionRecord {
        id: raw.id,
        run_id: raw.run_id,
        tool_call_id: raw.tool_call_id,
        tool_name: raw.tool_name,
        arguments_sha256: record.arguments_sha256,
        summary: raw.summary,
        status: ToolPermissionStatus::persisted(raw.status@)->Ok_0,
        revision: raw.revision as u64,
        expires_at_ms: raw.expires_at_ms,
        created_at_ms: raw.created_at_ms,
        updated_at_ms: raw.updated_at_ms,
        consumed_at_ms: raw.consumed_at_ms,
    })
}

/// Reads a session row.
pub fn decode_session(raw: RawSession) -> (result: Result<AgentSessionRecord, StorageError>)
    ensures
        result == (match session_row_check(raw) {
            Err(error) => Err(error),
            Ok(_) => Ok(session_of(raw)),
        }),
{
    let revision: u64 = from_sql_u64(raw.revision, "agent session revision")?;
    Ok(
        AgentSessionRecord {
            id: raw.id,
            title: raw.title,
            provider_id: raw.provider_id,
            datasource_id: raw.datasource_id,
            revision,
            created_at_ms: raw.created_at_ms,
            updated_at_ms: raw.updated_at_ms,
        },
    )
}

/// Reads a message row.
pub fn decode_message(raw: RawMessage) -> (result: Result<AgentMessageRecord, StorageError>)
    ensures
        result == message_of(raw),
{
    let ordinal: u64 = from_sql_u64(raw.ordinal, "agent message ordinal")?;
    let role = AgentMessageRole::from_persisted(raw.role.as_str())?;
    let summary_through_ordinal: Option<u64> = from_sql_optional_u64(
        raw.summary_through_ordinal,
        "summary coverage ordinal",
    )?;
    let content_bytes: u64 = from_sql_u64(raw.content_bytes, "agent message bytes")?;
    Ok(
        AgentMessageRecord {
            id: raw.id,
            session_id: raw.session_id,
            run_id: raw.run_id,
            ordinal,
            role,
            summary_through_ordinal,
            content_json: raw.content_json,
            content_bytes,
            created_at_ms: raw.created_at_ms,
        },
    )
}

/// Reads a run row.
pub fn decode_run(raw: RawRun) -> (result: Result<AgentRunRecord, StorageError>)
    ensures
        match result {
            Ok(record) => run_row_check(raw) is Ok && run_held(record, raw),
            Err(error) => run_row_check(raw) == Err::<(), StorageError>(error),
        },
{
    let write_in_flight_arguments_sha256: Option<[u8; 32]> = match &raw.write_in_flight_arguments_sha256 {
        Some(bytes) => match digest_from_bytes(bytes) {
            Some(digest) => Some(digest),
            None => return Err(
                StorageError::InvalidAgent("database write argument digest is invalid"),
            ),
        },
        None => None,
    };
    let sql_permission_mode = SqlPermissionMode::from_persisted(raw.sql_permission_mode.as_str())?;
    let status = AgentRunStatus::from_persisted(raw.status.as_str())?;
    let last_sequence: u64 = from_sql_u64(raw.last_sequence, "agent event sequence")?;
    let model_rounds: u64 = from_sql_u64(raw.model_rounds, "agent model rounds")?;
    let tool_calls: u64 = from_sql_u64(raw.tool_calls, "agent tool calls")?;
    let input_tokens: u64 = from_sql_u64(raw.input_tokens, "agent input tokens")?;
    let output_tokens: u64 = from_sql_u64(raw.output_tokens, "agent output tokens")?;
    let total_tokens: u64 = from_sql_u64(raw.total_tokens, "agent total tokens")?;
    let compaction_count: u64 = from_sql_u64(raw.compaction_count, "agent compaction count")?;
    let compacted_through_ordinal: Option<u64> = from_sql_optional_u64(
        raw.compacted_through_ordinal,
        "compacted message ordinal",
    )?;
    Ok(
        AgentRunRecord {
            id: raw.id,
            session_id: raw.session_id,
            status,
            sql_permission_mode,
            last_sequence,
            model_rounds,
            tool_calls,
            input_tokens,
            output_tokens,
            total_tokens,
            message_id: raw.message_id,
            error_code: raw.error_code,
            error_message: raw.error_message,
            cancel_requested: raw.cancel_requested,
            write_in_flight_tool_call_id: raw.write_in_flight_tool_call_id,
            write_in_flight_arguments_sha256,
            compaction_count,
            compacted_through_ordinal,
            created_at_ms: raw.created_at_ms,
            updated_at_ms: raw.updated_at_ms,
            started_at_ms: raw.started_at_ms,
            finished_at_ms: raw.finished_at_ms,
        },
    )
}

/// Reads a permission row.
pub fn decode_permission(raw: RawPermission) -> (result: Result<ToolPermissionRecord, StorageError>)
    ensures
        match result {
            Ok(record) => permission_row_check(raw) is Ok && permission_held(record, raw),
            Err(error) => permission_row_check(raw) == Err::<(), StorageError>(error),
        },
{
    let arguments_sha256: [u8; 32] = match digest_from_bytes(&raw.arguments_sha256) {
        Some(digest) => digest,
        None => return Err(StorageError::InvalidAgent("permission argument digest is invalid")),
    };
    let status = ToolPermissionStatus::from_persisted(raw.status.as_str())?;
    let revision: u64 = from_sql_u64(raw.revision, "tool permission revision")?;
    Ok(
        ToolPermissionRecord {
            id: raw.id,
            run_id: raw.run_id,
            tool_call_id: raw.tool_call_id,
            tool_name: raw.tool_name,
            arguments_sha256,
            summary: raw.summary,
            status,
            revision,
            expires_at_ms: raw.expires_at_ms,
            created_at_ms: raw.created_at_ms,
            updated_at_ms: raw.updated_at_ms,
            consumed_at_ms: raw.consumed_at_ms,
        },
    )
}

/// The first number of a run that the database cannot hold.
pub open spec fn run_fits(run: AgentRunRecord) -> Result<(), StorageError> {
    if !fits_sql(run.last_sequence) {
        Err(StorageError::NumericRange("agent event sequence"))
    } else if !fits_sql(run.model_rounds) {
        Err(StorageError::NumericRange("agent model rounds"))
    } else if !fits_sql(run.tool_calls) {
        Err(StorageError::NumericRange("agent tool calls"))
    } else if !fits_sql(run.input_tokens) {
        Err(StorageError::NumericRange("agent input tokens"))
    } else if !fits_sql(run.output_tokens) {
        Err(StorageError::NumericRange("agent output tokens"))
    } else if !fits_sql(run.total_tokens) {
        Err(StorageError::NumericRange("agent total tokens"))
    } else if !fits_sql(run.compaction_count) {
        Err(StorageError::NumericRange("agent compaction count"))
    } else if run.compacted_through_ordinal matches Some(ordinal) && !fits_sql(ordinal) {
        Err(StorageError::NumericRange("compacted message ordinal"))
    } else {
        Ok(())
    }
}

/// The first number of a message that the database cannot hold.
pub open spec fn message_fits_row(message: AgentMessageRecord) -> Result<(), StorageError> {
    if !fits_sql(message.ordinal) {
        Err(StorageError::NumericRange("agent message ordinal"))
    } else if message.summary_through_ordinal matches Some(ordinal) && !fits_sql(ordinal) {
        Err(StorageError::NumericRange("summary coverage ordinal"))
    } else if !fits_sql(message.content_bytes) {
        Err(StorageError::NumericRange("agent message bytes"))
    } else {
        Ok(())
    }
}

/// Copies a digest into a byte vector.
fn digest_bytes(digest: &[u8; 32]) -> (result: Vec<u8>)
    ensures
        result@ == digest@,
{
    let mut bytes: Vec<u8> = Vec::new();
    let mut i: usize = 0;
    while i < 32
        invariant
            i <= 32,
            bytes@ == digest@.take(i as int),
        decreases 32 - i,
    {
        bytes.push(digest[i]);
        i = i + 1;
        assert(digest@.take(i as int) =~= digest@.take(i as int - 1).push(digest@[i as int - 1]));
    }
    assert(digest@.take(32) =~= digest@);
    bytes
}

/// Turns an optional count into an optional database integer.
fn to_sql_optional_i64(value: Option<u64>, label: &'static str) -> (result: Result<
    Option<i64>,
    StorageError,
>)
    ensures
        match (result, value) {
            (Ok(None), None) => true,
            (Ok(Some(stored)), Some(count)) => fits_sql(count) && stored == count,
            (Err(error), Some(count)) => !fits_sql(count) && error == StorageError::NumericRange(
                label,
            ),
            _ => false,
        },
{
    match value {
        None => Ok(None),
        Some(count) => Ok(Some(to_sql_i64(count, label)?)),
    }
}

/// Writes a message row.
pub fn encode_message(message: &AgentMessageRecord) -> (result: Result<RawMessage, StorageError>)
    ensures
        match result {
            Ok(raw) => message_fits_row(*message) is Ok && message_of(raw) == Ok::<
                AgentMessageRecord,
                StorageError,
            >(*message),
            Err(error) => message_fits_row(*message) == Err::<(), StorageError>(error),
        },
{
    proof {
        crate::agent::status::law_message_role_round_trip(message.role);
    }
    let ordinal: i64 = to_sql_i64(message.ordinal, "agent message ordinal")?;
    let summary_through_ordinal: Option<i64> = to_sql_optional_i64(
        message.summary_through_ordinal,
        "summary coverage ordinal",
    )?;
    let content_bytes: i64 = to_sql_i64(message.content_bytes, "agent message bytes")?;
    Ok(
        RawMessage {
            id: message.id.clone(),
            session_id: message.session_id.clone(),
            run_id: message.run_id.clone(),
            ordinal,
            role: message.role.as_str().to_owned(),
            summary_through_ordinal,
            content_json: message.content_json.clone(),
            content_bytes,
            created_at_ms: message.created_at_ms,
        },
    )
}

/// Writes a run row.
pub fn encode_run(run: &AgentRunRecord) -> (result: Result<RawRun, StorageError>)
    ensures
        match result {
            Ok(raw) => run_fits(*run) is Ok && run_row_check(raw) is Ok && run_held(*run, raw),
            Err(error) => run_fits(*run) == Err::<(), StorageError>(error),
        },
{
    proof {
        crate::agent::status::law_run_status_round_trip(run.status);
        crate::agent::status::law_permission_mode_round_trip(run.sql_permission_mode);
    }
    let last_sequence: i64 = to_sql_i64(run.last_sequence, "agent event sequence")?;
    let model_rounds: i64 = to_sql_i64(run.model_rounds, "agent model rounds")?;
    let tool_calls: i64 = to_sql_i64(run.tool_calls, "agent tool calls")?;
    let input_tokens: i64 = to_sql_i64(run.input_tokens, "agent input tokens")?;
    let output_tokens: i64 = to_sql_i64(run.output_tokens, "agent output tokens")?;
    let total_tokens: i64 = to_sql_i64(run.total_tokens, "agent total tokens")?;
    let compaction_count: i64 = to_sql_i64(run.compaction_count, "agent compaction count")?;
    let compacted_through_ordinal: Option<i64> = to_sql_optional_i64(
        run.compacted_through_ordinal,
        "compacted message ordinal",
    )?;
    let write_in_flight_arguments_sha256: Option<Vec<u8>> = match &run.write_in_flight_arguments_sha256 {
        Some(digest) => Some(digest_bytes(digest)),
        None => None,
    };
    Ok(
        RawRun {
            id: run.id.clone(),
            session_id: run.session_id.clone(),
            sql_permission_mode: run.sql_permission_mode.as_str().to_owned(),
            status: run.status.as_str().to_owned(),
            last_sequence,
            model_rounds,
            tool_calls,
            input_tokens,
            output_tokens,
            total_tokens,
            message_id: run.message_id.clone(),
            error_code: run.error_code.clone(),
            error_message: run.error_message.clone(),
            cancel_requested: run.cancel_requested,
            write_in_flight_tool_call_id: run.write_in_flight_tool_call_id.clone(),
            write_in_flight_arguments_sha256,
            compaction_count,
            compacted_through_ordinal,
            created_at_ms: run.created_at_ms,
            updated_at_ms: run.updated_at_ms,
            started_at_ms: run.started_at_ms,
            finished_at_ms: run.finished_at_ms,
        },
    )
}

/// Writes a permission row.
pub fn encode_permission(permission: &ToolPermissionRecord) -> (result: Result<
    RawPermission,
    StorageError,
>)
    ensures
        match result {
            Ok(raw) => fits_sql(permission.revision) && permission_row_check(raw) is Ok
                && permission_held(*permission, raw),
            Err(error) => !fits_sql(permission.revision) && error == StorageError::NumericRange(
                "tool permission revision",
            ),
        },
{
    proof {
        crate::agent::status::law_permission_status_round_trip(permission.status);
    }
    let revision: i64 = to_sql_i64(permission.revision, "tool permission revision")?;
    Ok(
        RawPermission {
            id: permission.id.clone(),
            run_id: permission.run_id.clone(),
            tool_call_id: permission.tool_call_id.clone(),
            tool_name: permission.tool_name.clone(),
            arguments_sha256: digest_bytes(&permission.arguments_sha256),
            summary: permission.summary.clone(),
            status: permission.status.as_str().to_owned(),
            revision,
            expires_at_ms: permission.expires_at_ms,
            created_at_ms: permission.created_at_ms,
            updated_at_ms: permission.updated_at_ms,
            consumed_at_ms: permission.consumed_at_ms,
        },
    )
}

/// A row holds one run: what is read from the row that a run was written to is that run.
pub proof fn law_run_row_round_trip(written: AgentRunRecord, read: AgentRunRecord, raw: RawRun)
    requires
        run_held(written, raw),
        run_held(read, raw),
    ensures
        read == written,
{
    match (written.write_in_flight_arguments_sha256, read.write_in_flight_arguments_sha256) {
        (Some(first), Some(second)) => {
            assert(first@ == second@);
            assert forall|i: int| 0 <= i < 32 implies first[i] == second[i] by {
                assert(first@[i] == second@[i]);
            }
            assert(first =~= second);
        },
        _ => {},
    }
}

/// A row holds one permission, at a revision that the database can hold.
pub proof fn law_permission_row_round_trip(
    written: ToolPermissionRecord,
    read: ToolPermissionRecord,
    raw: RawPermission,
)
    requires
        permission_row_check(raw) is Ok,
        permission_held(written, raw),
        permission_held(read, raw),
    ensures
        read == written,
        fits_sql(read.revision),
{
    assert forall|i: int| 0 <= i < 32 implies written.arguments_sha256[i]
        == read.arguments_sha256[i] by {
        assert(written.arguments_sha256@[i] == read.arguments_sha256@[i]);
    }
    assert(written.arguments_sha256 =~= read.arguments_sha256);
}

impl Row for RawSession {
    type Record = AgentSessionRecord;

    open spec fn broken(self) -> Option<StorageError> {
        match session_row_check(self) {
            Ok(_) => None,
            Err(error) => Some(error),
        }
    }

    open spec fn holds(self, record: AgentSessionRecord) -> bool {
        record == session_of(self)
    }

    fn read(self) -> (result: Result<AgentSessionRecord, StorageError>) {
        decode_session(self)
    }
}

impl Keyed for RawSession {
    open spec fn rank(self) -> i64 {
        self.updated_at_ms
    }

    open spec fn key(self) -> Seq<char> {
        self.id@
    }

    fn entry_rank(&self) -> (result: i64) {
        self.updated_at_ms
    }

    fn entry_key(&self) -> (result: &str) {
        self.id.as_str()
    }
}

impl Row for RawMessage {
    type Record = AgentMessageRecord;

    open spec fn broken(self) -> Option<StorageError> {
        match message_of(self) {
            Ok(_) => None,
            Err(error) => Some(error),
        }
    }

    open spec fn holds(self, record: AgentMessageRecord) -> bool {
        message_of(self) == Ok::<AgentMessageRecord, StorageError>(record)
    }

    fn read(self) -> (result: Result<AgentMessageRecord, StorageError>) {
        decode_message(self)
    }
}

impl Keyed for RawMessage {
    open spec fn rank(self) -> i64 {
        self.ordinal
    }

    open spec fn key(self) -> Seq<char> {
        self.id@
    }

    fn entry_rank(&self) -> (result: i64) {
        self.ordinal
    }

    fn entry_key(&self) -> (result: &str) {
        self.id.as_str()
    }
}

impl Row for RawRun {
    type Record = AgentRunRecord;

    open spec fn broken(self) -> Option<StorageError> {
        match run_row_check(self) {
            Ok(_) => None,
            Err(error) => Some(error),
        }
    }

    open spec fn holds(self, record: AgentRunRecord) -> bool {
        run_held(record, self)
    }

    fn read(self) -> (result: Result<AgentRunRecord, StorageError>) {
        decode_run(self)
    }
}

impl Row for RawPermission {
    type Record = ToolPermissionRecord;

    open spec fn broken(self) -> Option<StorageError> {
        match permission_row_check(self) {
            Ok(_) => None,
            Err(error) => Some(error),
        }
    }

    open spec fn holds(self, record: ToolPermissionRecord) -> bool {
        permission_held(record, self)
    }

    fn read(self) -> (result: Result<ToolPermissionRecord, StorageError>) {
        decode_permission(self)
    }
}

/// A session row is read as it is, if its revision is not negative.
pub proof fn law_session_row_is_read_as_it_is(raw: RawSession)
    ensures
        session_row_check(raw) is Ok <==> raw.revision >= 0,
        session_row_check(raw) is Ok ==> {
            let record = session_of(raw);
            &&& record.id == raw.id
            &&& record.title == raw.title
            &&& record.provider_id == raw.provider_id
            &&& record.datasource_id == raw.datasource_id
            &&& record.revision == raw.revision
            &&& record.created_at_ms == raw.created_at_ms
            &&& record.updated_at_ms == raw.updated_at_ms
        },
{
}

/// A message row is read as it is, if its numbers are not negative and its role is a known one.
pub proof fn law_message_row_is_read_as_it_is(raw: RawMessage)
    ensures
        message_of(raw) is Ok <==> {
            &&& raw.ordinal >= 0
            &&& raw.content_bytes >= 0
            &&& raw.summary_through_ordinal matches Some(covered) ==> covered >= 0
            &&& AgentMessageRole::persisted(raw.role@) is Ok
        },
        message_of(raw) matches Ok(record) ==> {
            &&& record.id == raw.id
            &&& record.session_id == raw.session_id
            &&& record.run_id == raw.run_id
            &&& record.ordinal == raw.ordinal
            &&& record.content_json == raw.content_json
            &&& record.content_bytes == raw.content_bytes
            &&& record.created_at_ms == raw.created_at_ms
            &&& AgentMessageRole::persisted(raw.role@) == Ok::<AgentMessageRole, StorageError>(
                record.role,
            )
            &&& raw.summary_through_ordinal is None ==> record.summary_through_ordinal is None
            &&& raw.summary_through_ordinal matches Some(covered) ==> (
            record.summary_through_ordinal matches Some(through) && through == covered)
        },
{
}

/// A run row is read as it is, if its numbers are not negative, its state and its mode are known
/// ones and the digest of its fence, if there is one, has thirty-two bytes.
pub proof fn law_run_row_is_read_as_it_is(raw: RawRun, record: AgentRunRecord)
    ensures
        run_row_check(raw) is Ok <==> {
            &&& raw.last_sequence >= 0
            &&& raw.model_rounds >= 0
            &&& raw.tool_calls >= 0
            &&& raw.input_tokens >= 0
            &&& raw.output_tokens >= 0
            &&& raw.total_tokens >= 0
            &&& raw.compaction_count >= 0
            &&& raw.compacted_through_ordinal matches Some(through) ==> through >= 0
            &&& AgentRunStatus::persisted(raw.status@) is Ok
            &&& SqlPermissionMode::persisted(raw.sql_permission_mode@) is Ok
            &&& raw.write_in_flight_arguments_sha256 matches Some(bytes) ==> bytes@.len() == 32
        },
        run_row_check(raw) is Ok && run_held(record, raw) ==> {
            &&& record.id == raw.id
            &&& record.session_id == raw.session_id
            &&& record.message_id == raw.message_id
            &&& record.error_code == raw.error_code
            &&& record.error_message == raw.error_message
            &&& record.cancel_requested == raw.cancel_requested
            &&& record.write_in_flight_tool_call_id == raw.write_in_flight_tool_call_id
            &&& record.created_at_ms == raw.created_at_ms
            &&& record.updated_at_ms == raw.updated_at_ms
            &&& record.started_at_ms == raw.started_at_ms
            &&& record.finished_at_ms == raw.finished_at_ms
            &&& record.last_sequence == raw.last_sequence
            &&& record.model_rounds == raw.model_rounds
            &&& record.tool_calls == raw.tool_calls
            &&& record.input_tokens == raw.input_tokens
            &&& record.output_tokens == raw.output_tokens
            &&& record.total_tokens == raw.total_tokens
            &&& record.compaction_count == raw.compaction_count
            &&& AgentRunStatus::persisted(raw.status@) == Ok::<AgentRunStatus, StorageError>(
                record.status,
            )
            &&& SqlPermissionMode::persisted(raw.sql_permission_mode@) == Ok::<
                SqlPermissionMode,
                StorageError,
            >(record.sql_permission_mode)
            &&& raw.compacted_through_ordinal is None ==> record.compacted_through_ordinal is None
            &&& raw.compacted_through_ordinal matches Some(through) ==> (
            record.compacted_through_ordinal matches Some(ordinal) && ordinal == through)
            &&& raw.write_in_flight_arguments_sha256 is None
                ==> record.write_in_flight_arguments_sha256 is None
            &&& raw.write_in_flight_arguments_sha256 matches Some(bytes) ==> (
            record.write_in_flight_arguments_sha256 matches Some(digest) && digest@ == bytes@)
        },
{
}

/// A permission row is read as it is, if its revision is not negative, its state is a known one and
/// its digest has thirty-two bytes.
pub proof fn law_permission_row_is_read_as_it_is(raw: RawPermission, record: ToolPermissionRecord)
    ensures
        permission_row_check(raw) is Ok <==> {
            &&& raw.revision >= 0
            &&& ToolPermissionStatus::persisted(raw.status@) is Ok
            &&& raw.arguments_sha256@.len() == 32
        },
        permission_row_check(raw) is Ok && permission_held(record, raw) ==> {
            &&& record.id == raw.id
            &&& record.run_id == raw.run_id
            &&& record.tool_call_id == raw.tool_call_id
            &&& record.tool_name == raw.tool_name
            &&& record.summary == raw.summary
            &&& record.revision == raw.revision
            &&& record.expires_at_ms == raw.expires_at_ms
            &&& record.created_at_ms == raw.created_at_ms
            &&& record.updated_at_ms == raw.updated_at_ms
            &&& record.consumed_at_ms == raw.consumed_at_ms
            &&& record.arguments_sha256@ == raw.arguments_sha256@
            &&& ToolPermissionStatus::persisted(raw.status@) == Ok::<
                ToolPermissionStatus,
                StorageError,
            >(record.status)
        },
{
}

/// A run or a message can be written exactly if no number of it is greater than the greatest signed
/// one.
pub proof fn law_records_that_fit_are_written(run: AgentRunRecord, message: AgentMessageRecord)
    ensures
        run_fits(run) is Ok <==> {
            &&& run.last_sequence <= i64::MAX
            &&& run.model_rounds <= i64::MAX
            &&& run.tool_calls <= i64::MAX
            &&& run.input_tokens <= i64::MAX
            &&& run.output_tokens <= i64::MAX
            &&& run.total_tokens <= i64::MAX
            &&& run.compaction_count <= i64::MAX
            &&& run.compacted_through_ordinal matches Some(through) ==> through <= i64::MAX
        },
        message_fits_row(message) is Ok <==> {
            &&& message.ordinal <= i64::MAX
            &&& message.content_bytes <= i64::MAX
            &&& message.summary_through_ordinal matches Some(through) ==> through <= i64::MAX
        },
{
}

} // verus!
