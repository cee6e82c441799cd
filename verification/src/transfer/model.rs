use vstd::prelude::*;

use crate::digest::digest_from_bytes;
use crate::error::StorageError;
use crate::listing::Entry;
use crate::number::{from_sql_optional_u64, from_sql_u64, sql_optional_u64};
use crate::row::Row;
use crate::text::{blank, byte_len, is_blank, same_text, text_len};

verus! {

/// Tasks that are kept, whatever their state.
pub const MAX_RETAINED_TASKS: usize = 20;

/// Maximum UTF-8 bytes of a task name or of a progress description.
pub const MAX_TASK_NAME_BYTES: usize = 1_024;

/// Maximum UTF-8 bytes of a datasource id, or of the name of a database, a schema or a table.
pub const MAX_SCOPE_BYTES: usize = 1_024;

/// Maximum UTF-8 bytes of a log entry, and maximum characters of a log.
pub const MAX_LOG_BYTES: usize = 256 * 1024;

/// Maximum UTF-8 bytes of an artifact file name.
pub const MAX_FILE_NAME_BYTES: usize = 1_024;

/// Maximum UTF-8 bytes of a media type.
pub const MAX_MEDIA_TYPE_BYTES: usize = 255;

/// Durable transfer category.
#[derive(Debug, Clone, Copy, PartialEq, Eq, Structural)]
pub enum StoredTransferTaskKind {
    /// A file is imported.
    ImportFile,
    /// SQL is exported.
    ExportSql,
    /// A file is exported.
    ExportFile,
}

impl StoredTransferTaskKind {
    /// The name under which the value is persisted.
    pub open spec fn name(self) -> &'static str {
        match self {
            StoredTransferTaskKind::ImportFile => "import_file",
            StoredTransferTaskKind::ExportSql => "export_sql",
            StoredTransferTaskKind::ExportFile => "export_file",
        }
    }

    /// The value persisted under a name.
    pub open spec fn persisted(text: Seq<char>) -> Result<StoredTransferTaskKind, StorageError> {
        if text == StoredTransferTaskKind::ImportFile.name()@ {
            Ok(StoredTransferTaskKind::ImportFile)
        } else if text == StoredTransferTaskKind::ExportSql.name()@ {
            Ok(StoredTransferTaskKind::ExportSql)
        } else if text == StoredTransferTaskKind::ExportFile.name()@ {
            Ok(StoredTransferTaskKind::ExportFile)
        } else {
            Err(StorageError::Integrity("transfer task has an invalid kind"))
        }
    }

    /// Returns the name under which the value is persisted.
    pub fn as_str(self) -> (result: &'static str)
        ensures
            result == self.name(),
    {
        match self {
            StoredTransferTaskKind::ImportFile => "import_file",
            StoredTransferTaskKind::ExportSql => "export_sql",
            StoredTransferTaskKind::ExportFile => "export_file",
        }
    }

    /// Reads a persisted name.
    pub fn parse(value: &str) -> (result: Result<StoredTransferTaskKind, StorageError>)
        ensures
            result == StoredTransferTaskKind::persisted(value@),
    {
        if same_text(value, "import_file") {
            Ok(StoredTransferTaskKind::ImportFile)
        } else if same_text(value, "export_sql") {
            Ok(StoredTransferTaskKind::ExportSql)
        } else if same_text(value, "export_file") {
            Ok(StoredTransferTaskKind::ExportFile)
        } else {
            Err(StorageError::Integrity("transfer task has an invalid kind"))
        }
    }

}

/// A persisted name reads back as the value it was written for.
pub proof fn law_task_kind_round_trip(value: StoredTransferTaskKind)
    ensures
        StoredTransferTaskKind::persisted(value.name()@) == Ok::<
            StoredTransferTaskKind,
            StorageError,
        >(value),
{
    reveal_strlit("import_file");
    reveal_strlit("export_sql");
    reveal_strlit("export_file");
    assert("import_file"@.len() != "export_sql"@.len());
    assert("import_file"@[0] != "export_file"@[0]);
    assert("export_sql"@.len() != "export_file"@.len());
}

/// Durable transfer lifecycle state.
#[derive(Debug, Clone, Copy, PartialEq, Eq, Structural)]
pub enum StoredTransferTaskStatus {
    /// The task waits.
    Queued,
    /// The task runs.
    Running,
    /// The task has succeeded.
    Succeeded,
    /// The task has failed.
    Failed,
    /// The task was cancelled.
    Cancelled,
    /// The application stopped before the task ended.
    Interrupted,
}

impl StoredTransferTaskStatus {
    /// The name under which the value is persisted.
    pub open spec fn name(self) -> &'static str {
        match self {
            StoredTransferTaskStatus::Queued => "queued",
            StoredTransferTaskStatus::Running => "running",
            StoredTransferTaskStatus::Succeeded => "succeeded",
            StoredTransferTaskStatus::Failed => "failed",
            StoredTransferTaskStatus::Cancelled => "cancelled",
            StoredTransferTaskStatus::Interrupted => "interrupted",
        }
    }

    /// The value persisted under a name.
    pub open spec fn persisted(text: Seq<char>) -> Result<StoredTransferTaskStatus, StorageError> {
        if text == StoredTransferTaskStatus::Queued.name()@ {
            Ok(StoredTransferTaskStatus::Queued)
        } else if text == StoredTransferTaskStatus::Running.name()@ {
            Ok(StoredTransferTaskStatus::Running)
        } else if text == StoredTransferTaskStatus::Succeeded.name()@ {
            Ok(StoredTransferTaskStatus::Succeeded)
        } else if text == StoredTransferTaskStatus::Failed.name()@ {
            Ok(StoredTransferTaskStatus::Failed)
        } else if text == StoredTransferTaskStatus::Cancelled.name()@ {
            Ok(StoredTransferTaskStatus::Cancelled)
        } else if text == StoredTransferTaskStatus::Interrupted.name()@ {
            Ok(StoredTransferTaskStatus::Interrupted)
        } else {
            Err(StorageError::Integrity("transfer task has an invalid status"))
        }
    }

    /// Returns the name under which the value is persisted.
    pub fn as_str(self) -> (result: &'static str)
        ensures
            result == self.name(),
    {
        match self {
            StoredTransferTaskStatus::Queued => "queued",
            StoredTransferTaskStatus::Running => "running",
            StoredTransferTaskStatus::Succeeded => "succeeded",
            StoredTransferTaskStatus::Failed => "failed",
            StoredTransferTaskStatus::Cancelled => "cancelled",
            StoredTransferTaskStatus::Interrupted => "interrupted",
        }
    }

    /// Reads a persisted name.
    pub fn parse(value: &str) -> (result: Result<StoredTransferTaskStatus, StorageError>)
        ensures
            result == StoredTransferTaskStatus::persisted(value@),
    {
        if same_text(value, "queued") {
            Ok(StoredTransferTaskStatus::Queued)
        } else if same_text(value, "running") {
            Ok(StoredTransferTaskStatus::Running)
        } else if same_text(value, "succeeded") {
            Ok(StoredTransferTaskStatus::Succeeded)
        } else if same_text(value, "failed") {
            Ok(StoredTransferTaskStatus::Failed)
        } else if same_text(value, "cancelled") {
            Ok(StoredTransferTaskStatus::Cancelled)
        } else if same_text(value, "interrupted") {
            Ok(StoredTransferTaskStatus::Interrupted)
        } else {
            Err(StorageError::Integrity("transfer task has an invalid status"))
        }
    }

}

/// A persisted name reads back as the value it was written for.
pub proof fn law_task_status_round_trip(value: StoredTransferTaskStatus)
    ensures
        StoredTransferTaskStatus::persisted(value.name()@) == Ok::<
            StoredTransferTaskStatus,
            StorageError,
        >(value),
{
    reveal_strlit("queued");
    reveal_strlit("running");
    reveal_strlit("succeeded");
    reveal_strlit("failed");
    reveal_strlit("cancelled");
    reveal_strlit("interrupted");
    assert("queued"@.len() != "running"@.len());
    assert("queued"@.len() != "succeeded"@.len());
    assert("queued"@[0] != "failed"@[0]);
    assert("queued"@.len() != "cancelled"@.len());
    assert("queued"@.len() != "interrupted"@.len());
    assert("running"@.len() != "succeeded"@.len());
    assert("running"@.len() != "failed"@.len());
    assert("running"@.len() != "cancelled"@.len());
    assert("running"@.len() != "interrupted"@.len());
    assert("succeeded"@.len() != "failed"@.len());
    assert("succeeded"@[0] != "cancelled"@[0]);
    assert("succeeded"@.len() != "interrupted"@.len());
    assert("failed"@.len() != "cancelled"@.len());
    assert("failed"@.len() != "interrupted"@.len());
    assert("cancelled"@.len() != "interrupted"@.len());
}

/// Input for one durable task.
#[derive(Debug, Clone, PartialEq, Eq)]
pub struct CreateTransferTask {
    pub datasource_id: String,
    pub database_name: String,
    pub schema_name: String,
    pub table_name: Option<String>,
    pub kind: StoredTransferTaskKind,
    pub task_name: String,
}

/// Durable transfer task record.
#[derive(Debug, Clone, PartialEq, Eq)]
pub struct TransferTaskRecord {
    pub id: i64,
    pub datasource_id: String,
    pub database_name: String,
    pub schema_name: String,
    pub table_name: Option<String>,
    pub kind: StoredTransferTaskKind,
    pub status: StoredTransferTaskStatus,
    pub task_name: String,
    pub progress_current: u64,
    pub progress_total: Option<u64>,
    pub progress_description: String,
    pub info_log: String,
    pub error_log: String,
    pub cancel_requested: bool,
    pub created_at_ms: i64,
    pub updated_at_ms: i64,
    pub finished_at_ms: Option<i64>,
    pub artifact_id: Option<String>,
}

/// Durable artifact metadata without a filesystem path.
#[derive(Debug, Clone, PartialEq, Eq)]
pub struct TransferArtifactRecord {
    pub id: String,
    pub task_id: Option<i64>,
    pub file_name: String,
    pub media_type: String,
    pub format: String,
    pub byte_count: u64,
    pub sha256: [u8; 32],
    pub created_at_ms: i64,
    pub expires_at_ms: Option<i64>,
}

/// Startup cleanup and task recovery report.
#[derive(Debug, Clone, Copy, PartialEq, Eq, Default, Structural)]
pub struct TransferRecoveryReport {
    pub interrupted_tasks: usize,
    pub expired_artifacts: usize,
    pub partial_files_removed: usize,
    pub orphan_files_removed: usize,
}

impl StoredTransferTaskStatus {
    /// The task has ended.
    pub open spec fn terminal(self) -> bool {
        self == StoredTransferTaskStatus::Succeeded || self == StoredTransferTaskStatus::Failed
            || self == StoredTransferTaskStatus::Cancelled || self
            == StoredTransferTaskStatus::Interrupted
    }

    /// Tests whether the task has ended.
    pub fn is_terminal(self) -> (result: bool)
        ensures
            result == self.terminal(),
    {
        match self {
            StoredTransferTaskStatus::Queued | StoredTransferTaskStatus::Running => false,
            _ => true,
        }
    }
}

/// The columns of a task row as the database holds them, with the id of the artifact of the task.
#[derive(Debug, Clone, PartialEq, Eq)]
pub struct RawTransferTask {
    pub id: i64,
    pub datasource_id: String,
    pub database_name: String,
    pub schema_name: String,
    pub table_name: Option<String>,
    pub kind: String,
    pub status: String,
    pub task_name: String,
    pub progress_current: i64,
    pub progress_total: Option<i64>,
    pub progress_description: String,
    pub info_log: String,
    pub error_log: String,
    pub cancel_requested: bool,
    pub created_at_ms: i64,
    pub updated_at_ms: i64,
    pub finished_at_ms: Option<i64>,
    pub artifact_id: Option<String>,
}

/// The columns of an artifact row as the database holds them.
#[derive(Debug, Clone, PartialEq, Eq)]
pub struct RawTransferArtifact {
    pub id: String,
    pub task_id: Option<i64>,
    pub storage_name: String,
    pub file_name: String,
    pub media_type: String,
    pub format: String,
    pub byte_count: i64,
    pub sha256: Vec<u8>,
    pub created_at_ms: i64,
    pub expires_at_ms: Option<i64>,
}

/// An artifact with the name of its file.
pub struct StoredArtifactRow {
    /// The artifact.
    pub record: TransferArtifactRecord,
    /// Name of the file in the managed directory.
    pub storage_name: String,
}

/// The task of a row, or the first of its columns that is broken, which is a failure of the
/// database.
pub open spec fn task_row(raw: RawTransferTask) -> Result<TransferTaskRecord, StorageError> {
    if StoredTransferTaskKind::persisted(raw.kind@) is Err {
        Err(StorageError::Sqlite("transfer task has an invalid kind"))
    } else if StoredTransferTaskStatus::persisted(raw.status@) is Err {
        Err(StorageError::Sqlite("transfer task has an invalid status"))
    } else if raw.progress_current < 0 {
        Err(StorageError::Sqlite("transfer progress is out of range"))
    } else if sql_optional_u64(raw.progress_total, "transfer progress total") is Err {
        Err(StorageError::Sqlite("transfer progress total is out of range"))
    } else {
        Ok(
            TransferTaskRecord {
                id: raw.id,
                datasource_id: raw.datasource_id,
                database_name: raw.database_name,
                schema_name: raw.schema_name,
                table_name: raw.table_name,
                kind: StoredTransferTaskKind::persisted(raw.kind@)->Ok_0,
                status: StoredTransferTaskStatus::persisted(raw.status@)->Ok_0,
                task_name: raw.task_name,
                progress_current: raw.progress_current as u64,
                progress_total: sql_optional_u64(
                    raw.progress_total,
                    "transfer progress total",
                )->Ok_0,
                progress_description: raw.progress_description,
                info_log: raw.info_log,
                error_log: raw.error_log,
                cancel_requested: raw.cancel_requested,
                created_at_ms: raw.created_at_ms,
                updated_at_ms: raw.updated_at_ms,
                finished_at_ms: raw.finished_at_ms,
                artifact_id: raw.artifact_id,
            },
        )
    }
}

/// The first column of an artifact row that is broken, which is a failure of the database.
pub open spec fn artifact_row_check(raw: RawTransferArtifact) -> Result<(), StorageError> {
    if raw.sha256@.len() != 32 {
        Err(StorageError::Sqlite("artifact digest is not SHA-256"))
    } else if raw.byte_count < 0 {
        Err(StorageError::Sqlite("artifact byte count is out of range"))
    } else {
        Ok(())
    }
}

/// The artifact holds what its row holds.
pub open spec fn artifact_held(row: StoredArtifactRow, raw: RawTransferArtifact) -> bool {
    &&& row.storage_name == raw.storage_name
    &&& row.record.sha256@ == raw.sha256@
    &&& row.record == (TransferArtifactRecord {
        id: raw.id,
        task_id: raw.task_id,
        file_name: raw.file_name,
        media_type: raw.media_type,
        format: raw.format,
        byte_count: raw.byte_count as u64,
        sha256: row.record.sha256,
        created_at_ms: raw.created_at_ms,
        expires_at_ms: raw.expires_at_ms,
    })
}

/// A text of bounded length.
pub open spec fn text_check(value: Seq<char>, maximum: usize, field: &'static str) -> Result<
    (),
    StorageError,
> {
    if byte_len(value) > maximum {
        Err(StorageError::InvalidTransfer(field))
    } else {
        Ok(())
    }
}

/// A text of bounded length that is not blank.
pub open spec fn nonempty_text_check(
    value: Seq<char>,
    maximum: usize,
    field: &'static str,
) -> Result<(), StorageError> {
    if blank(value) {
        Err(StorageError::InvalidTransfer(field))
    } else {
        text_check(value, maximum, field)
    }
}

/// The rules of a new task; the first one broken decides the failure.
pub open spec fn create_task_check(input: CreateTransferTask) -> Result<(), StorageError> {
    if nonempty_text_check(input.datasource_id@, MAX_SCOPE_BYTES, "datasource id") is Err {
        Err(StorageError::InvalidTransfer("datasource id"))
    } else if nonempty_text_check(input.database_name@, MAX_SCOPE_BYTES, "database name") is Err {
        Err(StorageError::InvalidTransfer("database name"))
    } else if text_check(input.schema_name@, MAX_SCOPE_BYTES, "schema name") is Err {
        Err(StorageError::InvalidTransfer("schema name"))
    } else if input.table_name matches Some(table) && nonempty_text_check(
        table@,
        MAX_SCOPE_BYTES,
        "table name",
    ) is Err {
        Err(StorageError::InvalidTransfer("table name"))
    } else {
        nonempty_text_check(input.task_name@, MAX_TASK_NAME_BYTES, "task name")
    }
}

/// Checks the length of a text.
pub fn validate_text(value: &str, maximum: usize, field: &'static str) -> (result: Result<
    (),
    StorageError,
>)
    ensures
        result == text_check(value@, maximum, field),
{
    if text_len(value) > maximum {
        return Err(StorageError::InvalidTransfer(field));
    }
    Ok(())
}

/// Checks that a text is not blank, and its length.
pub fn validate_nonempty_text(value: &str, maximum: usize, field: &'static str) -> (result: Result<
    (),
    StorageError,
>)
    ensures
        result == nonempty_text_check(value@, maximum, field),
{
    if is_blank(value) {
        return Err(StorageError::InvalidTransfer(field));
    }
    validate_text(value, maximum, field)
}

/// Checks a new task.
pub fn validate_create_task(input: &CreateTransferTask) -> (result: Result<(), StorageError>)
    ensures
        result == create_task_check(*input),
{
    validate_nonempty_text(input.datasource_id.as_str(), MAX_SCOPE_BYTES, "datasource id")?;
    validate_nonempty_text(input.database_name.as_str(), MAX_SCOPE_BYTES, "database name")?;
    validate_text(input.schema_name.as_str(), MAX_SCOPE_BYTES, "schema name")?;
    if let Some(table_name) = &input.table_name {
        validate_nonempty_text(table_name.as_str(), MAX_SCOPE_BYTES, "table name")?;
    }
    validate_nonempty_text(input.task_name.as_str(), MAX_TASK_NAME_BYTES, "task name")
}

/// Reads a task row.
pub fn decode_transfer_task(raw: RawTransferTask) -> (result: Result<
    TransferTaskRecord,
    StorageError,
>)
    ensures
        result == task_row(raw),
{
    let kind = match StoredTransferTaskKind::parse(raw.kind.as_str()) {
        Ok(kind) => kind,
        Err(_) => return Err(StorageError::Sqlite("transfer task has an invalid kind")),
    };
    let status = match StoredTransferTaskStatus::parse(raw.status.as_str()) {
        Ok(status) => status,
        Err(_) => return Err(StorageError::Sqlite("transfer task has an invalid status")),
    };
    let progress_current: u64 = match from_sql_u64(raw.progress_current, "transfer progress") {
        Ok(current) => current,
        Err(_) => return Err(StorageError::Sqlite("transfer progress is out of range")),
    };
    let progress_total = match from_sql_optional_u64(
        raw.progress_total,
        "transfer progress total",
    ) {
        Ok(total) => total,
        Err(_) => return Err(StorageError::Sqlite("transfer progress total is out of range")),
    };
    Ok(
        TransferTaskRecord {
            id: raw.id,
            datasource_id: raw.datasource_id,
            database_name: raw.database_name,
            schema_name: raw.schema_name,
            table_name: raw.table_name,
            kind,
            status,
            task_name: raw.task_name,
            progress_current,
            progress_total,
            progress_description: raw.progress_description,
            info_log: raw.info_log,
            error_log: raw.error_log,
            cancel_requested: raw.cancel_requested,
            created_at_ms: raw.created_at_ms,
            updated_at_ms: raw.updated_at_ms,
            finished_at_ms: raw.finished_at_ms,
            artifact_id: raw.artifact_id,
        },
    )
}

/// Reads an artifact row.
pub fn decode_transfer_artifact(raw: RawTransferArtifact) -> (result: Result<
    StoredArtifactRow,
    StorageError,
>)
    ensures
        match result {
            Ok(row) => artifact_row_check(raw) is Ok && artifact_held(row, raw),
            Err(error) => artifact_row_check(raw) == Err::<(), StorageError>(error),
        },
{
    let sha256 = match digest_from_bytes(&raw.sha256) {
        Some(sha256) => sha256,
        None => return Err(StorageError::Sqlite("artifact digest is not SHA-256")),
    };
    let byte_count: u64 = match from_sql_u64(raw.byte_count, "artifact byte count") {
        Ok(byte_count) => byte_count,
        Err(_) => return Err(StorageError::Sqlite("artifact byte count is out of range")),
    };
    Ok(
        StoredArtifactRow {
            record: TransferArtifactRecord {
                id: raw.id,
                task_id: raw.task_id,
                file_name: raw.file_name,
                media_type: raw.media_type,
                format: raw.format,
                byte_count,
                sha256,
                created_at_ms: raw.created_at_ms,
                expires_at_ms: raw.expires_at_ms,
            },
            storage_name: raw.storage_name,
        },
    )
}

impl Row for RawTransferTask {
    type Record = TransferTaskRecord;

    open spec fn broken(self) -> Option<StorageError> {
        match task_row(self) {
            Ok(_) => None,
            Err(error) => Some(error),
        }
    }

    open spec fn holds(self, record: TransferTaskRecord) -> bool {
        task_row(self) == Ok::<TransferTaskRecord, StorageError>(record)
    }

    fn read(self) -> (result: Result<TransferTaskRecord, StorageError>) {
        decode_transfer_task(self)
    }
}

impl Entry for RawTransferTask {
    open spec fn number(self) -> i64 {
        self.id
    }

    open spec fn created(self) -> i64 {
        self.created_at_ms
    }

    open spec fn changed(self) -> i64 {
        self.updated_at_ms
    }

    fn entry_id(&self) -> (result: i64) {
        self.id
    }

    fn entry_created(&self) -> (result: i64) {
        self.created_at_ms
    }

    fn entry_changed(&self) -> (result: i64) {
        self.updated_at_ms
    }
}

/// Each category is persisted under its own name, and no other name is read as one.
pub proof fn law_task_kind_names(text: Seq<char>)
    ensures
        StoredTransferTaskKind::ImportFile.name()@ == "import_file"@,
        StoredTransferTaskKind::ExportSql.name()@ == "export_sql"@,
        StoredTransferTaskKind::ExportFile.name()@ == "export_file"@,
        StoredTransferTaskKind::persisted("import_file"@)
            == Ok::<StoredTransferTaskKind, StorageError>(StoredTransferTaskKind::ImportFile),
        StoredTransferTaskKind::persisted("export_sql"@)
            == Ok::<StoredTransferTaskKind, StorageError>(StoredTransferTaskKind::ExportSql),
        StoredTransferTaskKind::persisted("export_file"@)
            == Ok::<StoredTransferTaskKind, StorageError>(StoredTransferTaskKind::ExportFile),
        text != "import_file"@ && text != "export_sql"@ && text != "export_file"@
            ==> StoredTransferTaskKind::persisted(text) is Err,
{
    reveal_strlit("import_file");
    reveal_strlit("export_sql");
    reveal_strlit("export_file");
    assert("export_sql"@.len() != "import_file"@.len());
    assert("export_file"@[0] != "import_file"@[0]);
    assert("export_file"@.len() != "export_sql"@.len());
}

/// Each state of a task is persisted under its own name, and no other name is read as one.
pub proof fn law_task_status_names(text: Seq<char>)
    ensures
        StoredTransferTaskStatus::Queued.name()@ == "queued"@,
        StoredTransferTaskStatus::Running.name()@ == "running"@,
        StoredTransferTaskStatus::Succeeded.name()@ == "succeeded"@,
        StoredTransferTaskStatus::Failed.name()@ == "failed"@,
        StoredTransferTaskStatus::Cancelled.name()@ == "cancelled"@,
        StoredTransferTaskStatus::Interrupted.name()@ == "interrupted"@,
        StoredTransferTaskStatus::persisted("queued"@)
            == Ok::<StoredTransferTaskStatus, StorageError>(StoredTransferTaskStatus::Queued),
        StoredTransferTaskStatus::persisted("running"@)
            == Ok::<StoredTransferTaskStatus, StorageError>(StoredTransferTaskStatus::Running),
        StoredTransferTaskStatus::persisted("succeeded"@)
            == Ok::<StoredTransferTaskStatus, StorageError>(StoredTransferTaskStatus::Succeeded),
        StoredTransferTaskStatus::persisted("failed"@)
            == Ok::<StoredTransferTaskStatus, StorageError>(StoredTransferTaskStatus::Failed),
        StoredTransferTaskStatus::persisted("cancelled"@)
            == Ok::<StoredTransferTaskStatus, StorageError>(StoredTransferTaskStatus::Cancelled),
        StoredTransferTaskStatus::persisted("interrupted"@)
            == Ok::<StoredTransferTaskStatus, StorageError>(StoredTransferTaskStatus::Interrupted),
        text != "queued"@ && text != "running"@ && text != "succeeded"@ && text != "failed"@
            && text != "cancelled"@ && text != "interrupted"@
                ==> StoredTransferTaskStatus::persisted(text) is Err,
{
    reveal_strlit("queued");
    reveal_strlit("running");
    reveal_strlit("succeeded");
    reveal_strlit("failed");
    reveal_strlit("cancelled");
    reveal_strlit("interrupted");
    assert("running"@.len() != "queued"@.len());
    assert("succeeded"@.len() != "queued"@.len());
    assert("succeeded"@.len() != "running"@.len());
    assert("failed"@[0] != "queued"@[0]);
    assert("failed"@.len() != "running"@.len());
    assert("failed"@.len() != "succeeded"@.len());
    assert("cancelled"@.len() != "queued"@.len());
    assert("cancelled"@.len() != "running"@.len());
    assert("cancelled"@[0] != "succeeded"@[0]);
    assert("cancelled"@.len() != "failed"@.len());
    assert("interrupted"@.len() != "queued"@.len());
    assert("interrupted"@.len() != "running"@.len());
    assert("interrupted"@.len() != "succeeded"@.len());
    assert("interrupted"@.len() != "failed"@.len());
    assert("interrupted"@.len() != "cancelled"@.len());
}

} // verus!
