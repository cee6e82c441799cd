use vstd::prelude::*;

use crate::error::StorageError;
use crate::listing::{arrange, arranged, page_slice, take_page, ListOrder};
use crate::number::{fits_sql, to_sql_i64};
use crate::row::{read_row, read_rows, row_read, rows_read};
use crate::storage::Storage;
use crate::text::{tail, take_tail};
use crate::transfer::model::{
    create_task_check, text_check, validate_create_task, validate_text, CreateTransferTask,
    RawTransferTask, StoredTransferTaskStatus, TransferTaskRecord, MAX_LOG_BYTES,
    MAX_RETAINED_TASKS, MAX_TASK_NAME_BYTES,
};

verus! {

/// Progress that a running task reports.
pub struct TransferProgress {
    /// Units done.
    pub current: u64,
    /// All units, if they are known.
    pub total: Option<u64>,
    /// What the task does.
    pub description: String,
    /// A line for the log.
    pub info: Option<String>,
}

/// The log with an entry on a line of its own, cut to its last characters.
pub open spec fn logged(log: Seq<char>, entry: Seq<char>) -> Seq<char> {
    if log.len() == 0 {
        tail(entry, MAX_LOG_BYTES as int)
    } else {
        tail(log + "\n"@ + entry, MAX_LOG_BYTES as int)
    }
}

/// The task, or the failure that there is none.
pub open spec fn existing(id: i64, task: Option<TransferTaskRecord>) -> Result<
    TransferTaskRecord,
    StorageError,
> {
    match task {
        Some(record) => Ok(record),
        None => Err(StorageError::TransferTaskNotFound(id)),
    }
}

/// A new task waits and has done nothing.
pub open spec fn task_created(
    record: TransferTaskRecord,
    id: i64,
    input: CreateTransferTask,
    timestamp: i64,
) -> bool {
    &&& record.progress_description@.len() == 0
    &&& record.info_log@.len() == 0
    &&& record.error_log@.len() == 0
    &&& record == (TransferTaskRecord {
        id,
        datasource_id: input.datasource_id,
        database_name: input.database_name,
        schema_name: input.schema_name,
        table_name: input.table_name,
        kind: input.kind,
        status: StoredTransferTaskStatus::Queued,
        task_name: input.task_name,
        progress_current: 0,
        progress_total: None,
        progress_description: record.progress_description,
        info_log: record.info_log,
        error_log: record.error_log,
        cancel_requested: false,
        created_at_ms: timestamp,
        updated_at_ms: timestamp,
        finished_at_ms: None,
        artifact_id: None,
    })
}

/// What a task has to be to start.
pub open spec fn start_check(id: i64, task: Option<TransferTaskRecord>) -> Result<
    (),
    StorageError,
> {
    match existing(id, task) {
        Err(error) => Err(error),
        Ok(record) => if record.status != StoredTransferTaskStatus::Queued
            || record.cancel_requested {
            Err(StorageError::InvalidTransfer("task cannot start in its current state"))
        } else {
            Ok(())
        },
    }
}

/// A task that has started runs.
pub open spec fn task_started(
    after: TransferTaskRecord,
    before: TransferTaskRecord,
    timestamp: i64,
) -> bool {
    &&& after.progress_description@ == "Running"@
    &&& after == (TransferTaskRecord {
        status: StoredTransferTaskStatus::Running,
        progress_description: after.progress_description,
        updated_at_ms: timestamp,
        ..before
    })
}

/// What progress and its task have to meet.
pub open spec fn progress_check(
    id: i64,
    progress: TransferProgress,
    task: Option<TransferTaskRecord>,
) -> Result<(), StorageError> {
    if text_check(progress.description@, MAX_TASK_NAME_BYTES, "progress description") is Err {
        Err(StorageError::InvalidTransfer("progress description"))
    } else if progress.info matches Some(info) && text_check(
        info@,
        MAX_LOG_BYTES,
        "task info log entry",
    ) is Err {
        Err(StorageError::InvalidTransfer("task info log entry"))
    } else if !fits_sql(progress.current) {
        Err(StorageError::NumericRange("transfer progress"))
    } else if progress.total matches Some(total) && !fits_sql(total) {
        Err(StorageError::NumericRange("transfer progress total"))
    } else {
        match existing(id, task) {
            Err(error) => Err(error),
            Ok(record) => if record.status != StoredTransferTaskStatus::Running {
                Err(StorageError::InvalidTransfer("task progress can only update while running"))
            } else {
                Ok(())
            },
        }
    }
}

/// Progress never goes back, a known total stays known, and the log grows by the entry.
pub open spec fn task_progressed(
    after: TransferTaskRecord,
    before: TransferTaskRecord,
    progress: TransferProgress,
    timestamp: i64,
) -> bool {
    &&& after.info_log@ == (match progress.info {
        None => before.info_log@,
        Some(info) => logged(before.info_log@, info@),
    })
    &&& after == (TransferTaskRecord {
        progress_current: if progress.current > before.progress_current {
            progress.current
        } else {
            before.progress_current
        },
        progress_total: match progress.total {
            Some(total) => Some(total),
            None => before.progress_total,
        },
        progress_description: progress.description,
        info_log: after.info_log,
        updated_at_ms: timestamp,
        ..before
    })
}

/// The task has not ended, and nobody has asked for its cancellation.
pub open spec fn cancellable(record: TransferTaskRecord) -> bool {
    !record.status.terminal() && !record.cancel_requested
}

/// A cancellation ends a waiting task at once, and only marks a running one.
pub open spec fn cancel_requested(
    after: TransferTaskRecord,
    before: TransferTaskRecord,
    timestamp: i64,
) -> bool {
    if before.status == StoredTransferTaskStatus::Queued {
        &&& after.progress_description@ == "Cancelled"@
        &&& after == (TransferTaskRecord {
            cancel_requested: true,
            status: StoredTransferTaskStatus::Cancelled,
            progress_description: after.progress_description,
            finished_at_ms: Some(timestamp),
            updated_at_ms: timestamp,
            ..before
        })
    } else {
        after == (TransferTaskRecord {
            cancel_requested: true,
            updated_at_ms: timestamp,
            ..before
        })
    }
}

/// What a task has to be to end without an artifact and without success.
pub open spec fn ending_check(
    id: i64,
    message: Seq<char>,
    task: Option<TransferTaskRecord>,
) -> Result<
    (),
    StorageError,
> {
    if text_check(message, MAX_LOG_BYTES, "task terminal message") is Err {
        Err(StorageError::InvalidTransfer("task terminal message"))
    } else {
        match existing(id, task) {
            Err(error) => Err(error),
            Ok(record) => if record.status.terminal() {
                Err(StorageError::InvalidTransfer("task is already in a terminal state"))
            } else {
                Ok(())
            },
        }
    }
}

/// A task that has ended without success, with the message that says why.
pub open spec fn task_ended(
    after: TransferTaskRecord,
    before: TransferTaskRecord,
    status: StoredTransferTaskStatus,
    description: Seq<char>,
    message: String,
    timestamp: i64,
) -> bool {
    &&& after.progress_description@ == description
    &&& after == (TransferTaskRecord {
        status,
        progress_description: after.progress_description,
        error_log: message,
        updated_at_ms: timestamp,
        finished_at_ms: Some(timestamp),
        ..before
    })
}

/// What a task has to be to succeed without an artifact.
pub open spec fn completion_check(
    id: i64,
    message: Seq<char>,
    task: Option<TransferTaskRecord>,
) -> Result<(), StorageError> {
    if text_check(message, MAX_LOG_BYTES, "task completion message") is Err {
        Err(StorageError::InvalidTransfer("task completion message"))
    } else {
        match existing(id, task) {
            Err(error) => Err(error),
            Ok(record) => if record.status != StoredTransferTaskStatus::Running
                || record.cancel_requested {
                Err(StorageError::InvalidTransfer("task cannot complete in its current state"))
            } else {
                Ok(())
            },
        }
    }
}

/// A task that has succeeded.
pub open spec fn task_succeeded(
    after: TransferTaskRecord,
    before: TransferTaskRecord,
    message: Seq<char>,
    timestamp: i64,
) -> bool {
    &&& after.progress_description@ == "Completed"@
    &&& after.info_log@ == (if message.len() == 0 {
        before.info_log@
    } else {
        logged(before.info_log@, message)
    })
    &&& after == (TransferTaskRecord {
        status: StoredTransferTaskStatus::Succeeded,
        progress_description: after.progress_description,
        info_log: after.info_log,
        cancel_requested: false,
        updated_at_ms: timestamp,
        finished_at_ms: Some(timestamp),
        ..before
    })
}

/// Adds an entry to a log.
pub fn append_log(log: String, entry: &str) -> (result: String)
    ensures
        result@ == logged(log@, entry@),
{
    if log.as_str().is_empty() {
        return take_tail(entry, MAX_LOG_BYTES);
    }
    let longer = log.concat("\n").concat(entry);
    take_tail(longer.as_str(), MAX_LOG_BYTES)
}

fn take_task(id: i64, task: Option<TransferTaskRecord>) -> (result: Result<
    TransferTaskRecord,
    StorageError,
>)
    ensures
        result == existing(id, task),
{
    match task {
        Some(record) => Ok(record),
        None => Err(StorageError::TransferTaskNotFound(id)),
    }
}

/// The tasks are listed the newest first, and no more of them than are retained.
pub open spec fn tasks_listed(
    rows: Seq<RawTransferTask>,
    result: Result<Vec<TransferTaskRecord>, StorageError>,
) -> bool {
    exists|list: Seq<RawTransferTask>| #[trigger]
        arranged(list, rows, ListOrder::NewestFirst) && rows_read(
            page_slice(list, 0, MAX_RETAINED_TASKS as int),
            result,
        )
}

impl Storage {
    /// Reads a task.
    pub fn get_transfer_task(row: Option<RawTransferTask>) -> (result: Result<
        Option<TransferTaskRecord>,
        StorageError,
    >)
        ensures
            row_read(row, result),
    {
        read_row(row)
    }

    /// Lists the retained tasks, the newest first.
    pub fn list_transfer_tasks(rows: Vec<RawTransferTask>) -> (result: Result<
        Vec<TransferTaskRecord>,
        StorageError,
    >)
        ensures
            tasks_listed(rows@, result),
    {
        let list = arrange(rows, ListOrder::NewestFirst);
        let ghost ordered = list@;
        let page = take_page(list, 0, MAX_RETAINED_TASKS as u64);
        let records = read_rows(page);
        assert(arranged(ordered, rows@, ListOrder::NewestFirst));
        records
    }

    /// Creates one waiting task.
    pub fn create_transfer_task(id: i64, input: CreateTransferTask, timestamp: i64) -> (result:
        Result<TransferTaskRecord, StorageError>)
        ensures
            match result {
                Ok(record) => create_task_check(input) is Ok && task_created(
                    record,
                    id,
                    input,
                    timestamp,
                ),
                Err(error) => create_task_check(input) == Err::<(), StorageError>(error),
            },
    {
        validate_create_task(&input)?;
        Ok(
            TransferTaskRecord {
                id,
                datasource_id: input.datasource_id,
                database_name: input.database_name,
                schema_name: input.schema_name,
                table_name: input.table_name,
                kind: input.kind,
                status: StoredTransferTaskStatus::Queued,
                task_name: input.task_name,
                progress_current: 0,
                progress_total: None,
                progress_description: String::new(),
                info_log: String::new(),
                error_log: String::new(),
                cancel_requested: false,
                created_at_ms: timestamp,
                updated_at_ms: timestamp,
                finished_at_ms: None,
                artifact_id: None,
            },
        )
    }

    /// Starts a waiting task.
    pub fn start_transfer_task(id: i64, task: Option<TransferTaskRecord>, timestamp: i64) -> (result:
        Result<TransferTaskRecord, StorageError>)
        ensures
            match result {
                Ok(after) => start_check(id, task) is Ok && task_started(after, task->0, timestamp),
                Err(error) => start_check(id, task) == Err::<(), StorageError>(error),
            },
    {
        let record = take_task(id, task)?;
        if record.status != StoredTransferTaskStatus::Queued || record.cancel_requested {
            return Err(StorageError::InvalidTransfer("task cannot start in its current state"));
        }
        Ok(
            TransferTaskRecord {
                status: StoredTransferTaskStatus::Running,
                progress_description: "Running".to_owned(),
                updated_at_ms: timestamp,
                ..record
            },
        )
    }

    /// Records the progress of a running task.
    pub fn update_transfer_progress(
        id: i64,
        progress: TransferProgress,
        task: Option<TransferTaskRecord>,
        timestamp: i64,
    ) -> (result: Result<TransferTaskRecord, StorageError>)
        ensures
            match result {
                Ok(after) => progress_check(id, progress, task) is Ok && task_progressed(
                    after,
                    task->0,
                    progress,
                    timestamp,
                ),
                Err(error) => progress_check(id, progress, task) == Err::<(), StorageError>(error),
            },
    {
        validate_text(progress.description.as_str(), MAX_TASK_NAME_BYTES, "progress description")?;
        if let Some(info) = &progress.info {
            validate_text(info.as_str(), MAX_LOG_BYTES, "task info log entry")?;
        }
        to_sql_i64(progress.current, "transfer progress")?;
        if let Some(total) = progress.total {
            to_sql_i64(total, "transfer progress total")?;
        }
        let record = take_task(id, task)?;
        if record.status != StoredTransferTaskStatus::Running {
            return Err(
                StorageError::InvalidTransfer("task progress can only update while running"),
            );
        }
        let info_log = match &progress.info {
            None => record.info_log,
            Some(info) => append_log(record.info_log, info.as_str()),
        };
        let progress_current: u64 = if progress.current > record.progress_current {
            progress.current
        } else {
            record.progress_current
        };
        let progress_total = match progress.total {
            Some(total) => Some(total),
            None => record.progress_total,
        };
        Ok(
            TransferTaskRecord {
                id: record.id,
                datasource_id: record.datasource_id,
                database_name: record.database_name,
                schema_name: record.schema_name,
                table_name: record.table_name,
                kind: record.kind,
                status: record.status,
                task_name: record.task_name,
                progress_current,
                progress_total,
                progress_description: progress.description,
                info_log,
                error_log: record.error_log,
                cancel_requested: record.cancel_requested,
                created_at_ms: record.created_at_ms,
                updated_at_ms: timestamp,
                finished_at_ms: record.finished_at_ms,
                artifact_id: record.artifact_id,
            },
        )
    }

    /// Requests cooperative cancellation; nothing changes if the task has ended or cancellation
    /// was requested before.
    pub fn request_transfer_cancel(id: i64, task: Option<TransferTaskRecord>, timestamp: i64) -> (
    result: Result<Option<TransferTaskRecord>, StorageError>)
        ensures
            match result {
                Err(error) => task is None && error == StorageError::TransferTaskNotFound(id),
                Ok(None) => task is Some && !cancellable(task->0),
                Ok(Some(after)) => task is Some && cancellable(task->0) && cancel_requested(
                    after,
                    task->0,
                    timestamp,
                ),
            },
    {
        let record = take_task(id, task)?;
        if record.status.is_terminal() || record.cancel_requested {
            return Ok(None);
        }
        if record.status == StoredTransferTaskStatus::Queued {
            return Ok(
                Some(
                    TransferTaskRecord {
                        cancel_requested: true,
                        status: StoredTransferTaskStatus::Cancelled,
                        progress_description: "Cancelled".to_owned(),
                        finished_at_ms: Some(timestamp),
                        updated_at_ms: timestamp,
                        ..record
                    },
                ),
            );
        }
        Ok(Some(TransferTaskRecord { cancel_requested: true, updated_at_ms: timestamp, ..record }))
    }

    /// Reports whether cancellation was requested.
    pub fn transfer_cancel_requested(id: i64, task: &Option<TransferTaskRecord>) -> (result: Result<
        bool,
        StorageError,
    >)
        ensures
            result == (match *task {
                Some(record) => Ok::<bool, StorageError>(record.cancel_requested),
                None => Err(StorageError::TransferTaskNotFound(id)),
            }),
    {
        match task {
            Some(record) => Ok(record.cancel_requested),
            None => Err(StorageError::TransferTaskNotFound(id)),
        }
    }

    /// Ends a task as cancelled.
    pub fn cancel_transfer_task(
        id: i64,
        message: String,
        task: Option<TransferTaskRecord>,
        timestamp: i64,
    ) -> (result: Result<TransferTaskRecord, StorageError>)
        ensures
            match result {
                Ok(after) => ending_check(id, message@, task) is Ok && task_ended(
                    after,
                    task->0,
                    StoredTransferTaskStatus::Cancelled,
                    "Cancelled"@,
                    message,
                    timestamp,
                ),
                Err(error) => ending_check(id, message@, task) == Err::<(), StorageError>(error),
            },
    {
        Storage::finish_transfer_without_artifact(
            id,
            StoredTransferTaskStatus::Cancelled,
            "Cancelled",
            message,
            task,
            timestamp,
        )
    }

    /// Ends a task as failed.
    pub fn fail_transfer_task(
        id: i64,
        message: String,
        task: Option<TransferTaskRecord>,
        timestamp: i64,
    ) -> (result: Result<TransferTaskRecord, StorageError>)
        ensures
            match result {
                Ok(after) => ending_check(id, message@, task) is Ok && task_ended(
                    after,
                    task->0,
                    StoredTransferTaskStatus::Failed,
                    "Failed"@,
                    message,
                    timestamp,
                ),
                Err(error) => ending_check(id, message@, task) == Err::<(), StorageError>(error),
            },
    {
        Storage::finish_transfer_without_artifact(
            id,
            StoredTransferTaskStatus::Failed,
            "Failed",
            message,
            task,
            timestamp,
        )
    }

    /// Ends a task without success, in the given state.
    pub fn finish_transfer_without_artifact(
        id: i64,
        status: StoredTransferTaskStatus,
        description: &str,
        message: String,
        task: Option<TransferTaskRecord>,
        timestamp: i64,
    ) -> (result: Result<TransferTaskRecord, StorageError>)
        ensures
            ({
                let check = if !status.terminal() || status
                    == StoredTransferTaskStatus::Succeeded {
                    Err(StorageError::InvalidTransfer("invalid terminal task state"))
                } else {
                    ending_check(id, message@, task)
                };
                match result {
                    Ok(after) => check is Ok && task_ended(
                        after,
                        task->0,
                        status,
                        description@,
                        message,
                        timestamp,
                    ),
                    Err(error) => check == Err::<(), StorageError>(error),
                }
            }),
    {
        if !status.is_terminal() || status == StoredTransferTaskStatus::Succeeded {
            return Err(StorageError::InvalidTransfer("invalid terminal task state"));
        }
        validate_text(message.as_str(), MAX_LOG_BYTES, "task terminal message")?;
        let record = take_task(id, task)?;
        if record.status.is_terminal() {
            return Err(StorageError::InvalidTransfer("task is already in a terminal state"));
        }
        Ok(
            TransferTaskRecord {
                status,
                progress_description: description.to_owned(),
                error_log: message,
                updated_at_ms: timestamp,
                finished_at_ms: Some(timestamp),
                ..record
            },
        )
    }

    /// Ends a running task as succeeded when it produces no artifact.
    pub fn complete_transfer_task(
        id: i64,
        message: &str,
        task: Option<TransferTaskRecord>,
        timestamp: i64,
    ) -> (result: Result<TransferTaskRecord, StorageError>)
        ensures
            match result {
                Ok(after) => completion_check(id, message@, task) is Ok && task_succeeded(
                    after,
                    task->0,
                    message@,
                    timestamp,
                ),
                Err(error) => completion_check(id, message@, task) == Err::<(), StorageError>(
                    error,
                ),
            },
    {
        validate_text(message, MAX_LOG_BYTES, "task completion message")?;
        let record = take_task(id, task)?;
        if record.status != StoredTransferTaskStatus::Running || record.cancel_requested {
            return Err(StorageError::InvalidTransfer("task cannot complete in its current state"));
        }
        Ok(succeed(record, message, timestamp))
    }
}

/// Ends a task as succeeded.
pub(crate) fn succeed(record: TransferTaskRecord, message: &str, timestamp: i64) -> (result:
    TransferTaskRecord)
    ensures
        task_succeeded(result, record, message@, timestamp),
{
    let info_log = if message.is_empty() {
        record.info_log
    } else {
        append_log(record.info_log, message)
    };
    TransferTaskRecord {
        id: record.id,
        datasource_id: record.datasource_id,
        database_name: record.database_name,
        schema_name: record.schema_name,
        table_name: record.table_name,
        kind: record.kind,
        status: StoredTransferTaskStatus::Succeeded,
        task_name: record.task_name,
        progress_current: record.progress_current,
        progress_total: record.progress_total,
        progress_description: "Completed".to_owned(),
        info_log,
        error_log: record.error_log,
        cancel_requested: false,
        created_at_ms: record.created_at_ms,
        updated_at_ms: timestamp,
        finished_at_ms: Some(timestamp),
        artifact_id: record.artifact_id,
    }
}

/// A task that has ended changes no more.
pub proof fn law_ended_task_is_final(
    id: i64,
    task: TransferTaskRecord,
    progress: TransferProgress,
    message: Seq<char>,
)
    requires
        task.status.terminal(),
    ensures
        start_check(id, Some(task)) is Err,
        progress_check(id, progress, Some(task)) is Err,
        ending_check(id, message, Some(task)) is Err,
        completion_check(id, message, Some(task)) is Err,
        !cancellable(task),
{
}

/// A task whose cancellation was requested neither starts nor succeeds.
pub proof fn law_cancellation_prevents_success(id: i64, task: TransferTaskRecord, message: Seq<char>)
    requires
        task.cancel_requested,
    ensures
        start_check(id, Some(task)) is Err,
        completion_check(id, message, Some(task)) is Err,
{
}

/// A log never holds more characters than its bound.
pub proof fn law_log_is_bounded(log: Seq<char>, entry: Seq<char>)
    ensures
        logged(log, entry).len() <= MAX_LOG_BYTES,
{
}

/// Progress never goes back.
pub proof fn law_progress_is_monotonic(
    after: TransferTaskRecord,
    before: TransferTaskRecord,
    progress: TransferProgress,
    timestamp: i64,
)
    requires
        task_progressed(after, before, progress, timestamp),
    ensures
        after.progress_current >= before.progress_current,
        after.progress_current >= progress.current,
        before.progress_total is Some ==> after.progress_total is Some,
        after.status == before.status,
{
}

} // verus!
