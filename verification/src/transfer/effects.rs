//! What an accepted operation on a transfer does, field by field.

use vstd::prelude::*;

use crate::digest::sha256_digest;
use crate::error::StorageError;
use crate::listing::{arranged, law_page_is_ordered, page_slice, shows, Entry, ListOrder};
use crate::query::lemma_filter_of_longer;
use crate::row::{rows_read, Row};
use crate::text::{blank, byte_len, lowered};
use crate::transfer::artifact::{
    artifact_begun, artifact_fields_check, artifact_found, artifact_published, artifact_resolved,
    begin_artifact_check, extension_valid, plain_file_name, publish_check, storage_name_valid,
    ArtifactPath, NewTransferArtifact, PathStyle, PendingArtifact, PublishedArtifact,
};
use crate::transfer::model::{
    artifact_held, artifact_row_check, create_task_check, task_row, CreateTransferTask,
    RawTransferArtifact, RawTransferTask, StoredArtifactRow, StoredTransferTaskKind,
    StoredTransferTaskStatus, TransferTaskRecord,
};
use crate::transfer::recovery::{
    artifact_expired, artifact_names, fated, file_fate, newer_count, partial_name, prunable, pruned,
    task_interrupted, tasks_interrupted, transfers_recovered, ArtifactExpiry, FileFate, TaskAge,
    TransferRecovery,
};
use crate::transfer::task::{
    cancel_requested, cancellable, completion_check, ending_check, logged, progress_check,
    start_check, task_created, task_ended, task_progressed, task_started, task_succeeded,
    tasks_listed, TransferProgress,
};

verus! {

/// A task is created as it was asked for; it waits, has made no progress and has empty logs. That is
/// accepted exactly if its datasource, its database, its table, where it has one, and the task itself
/// are named, and every text is within its bound.
pub proof fn law_task_is_created_as_asked(
    record: TransferTaskRecord,
    id: i64,
    input: CreateTransferTask,
    timestamp: i64,
)
    ensures
        task_created(record, id, input, timestamp) ==> {
            &&& record.id == id
            &&& record.datasource_id == input.datasource_id
            &&& record.database_name == input.database_name
            &&& record.schema_name == input.schema_name
            &&& record.table_name == input.table_name
            &&& record.kind == input.kind
            &&& record.task_name == input.task_name
            &&& record.status is Queued
            &&& record.progress_current == 0
            &&& record.progress_total is None
            &&& record.progress_description@.len() == 0
            &&& record.info_log@.len() == 0
            &&& record.error_log@.len() == 0
            &&& !record.cancel_requested
            &&& record.created_at_ms == timestamp
            &&& record.updated_at_ms == timestamp
            &&& record.finished_at_ms is None
            &&& record.artifact_id is None
        },
        create_task_check(input) is Ok <==> {
            &&& !blank(input.datasource_id@) && byte_len(input.datasource_id@) <= 1_024
            &&& !blank(input.database_name@) && byte_len(input.database_name@) <= 1_024
            &&& byte_len(input.schema_name@) <= 1_024
            &&& input.table_name matches Some(table) ==> !blank(table@) && byte_len(table@) <= 1_024
            &&& !blank(input.task_name@) && byte_len(input.task_name@) <= 1_024
        },
{
}

/// A task starts exactly if it waits and is not to be cancelled; it then runs.
pub proof fn law_waiting_task_starts(
    id: i64,
    before: TransferTaskRecord,
    after: TransferTaskRecord,
    timestamp: i64,
)
    requires
        task_started(after, before, timestamp),
    ensures
        start_check(id, Some(before)) is Ok <==> before.status is Queued
            && !before.cancel_requested,
        start_check(id, None) == Err::<(), StorageError>(StorageError::TransferTaskNotFound(id)),
        after.status is Running,
        after.progress_description@ == "Running"@,
        after.updated_at_ms == timestamp,
        after.id == before.id,
        after.datasource_id == before.datasource_id,
        after.database_name == before.database_name,
        after.schema_name == before.schema_name,
        after.table_name == before.table_name,
        after.kind == before.kind,
        after.task_name == before.task_name,
        after.progress_current == before.progress_current,
        after.progress_total == before.progress_total,
        after.info_log == before.info_log,
        after.error_log == before.error_log,
        after.cancel_requested == before.cancel_requested,
        after.created_at_ms == before.created_at_ms,
        after.finished_at_ms == before.finished_at_ms,
        after.artifact_id == before.artifact_id,
{
}

/// Progress is recorded exactly if the task runs and what is reported is within its bounds. The task
/// then has the description that was reported, the progress that was reported unless it had made
/// more, the total that was reported unless none was, and the line that was reported at the end of
/// its log.
pub proof fn law_progress_is_recorded(
    id: i64,
    before: TransferTaskRecord,
    after: TransferTaskRecord,
    progress: TransferProgress,
    timestamp: i64,
)
    requires
        task_progressed(after, before, progress, timestamp),
    ensures
        progress_check(id, progress, Some(before)) is Ok <==> {
            &&& before.status is Running
            &&& byte_len(progress.description@) <= 1_024
            &&& progress.info matches Some(info) ==> byte_len(info@) <= 262_144
            &&& progress.current <= i64::MAX
            &&& progress.total matches Some(total) ==> total <= i64::MAX
        },
        progress_check(id, progress, None) is Err,
        progress.current >= before.progress_current ==> after.progress_current == progress.current,
        progress.current < before.progress_current ==> after.progress_current
            == before.progress_current,
        progress.total is Some ==> after.progress_total == progress.total,
        progress.total is None ==> after.progress_total == before.progress_total,
        after.progress_description == progress.description,
        progress.info is None ==> after.info_log@ == before.info_log@,
        progress.info matches Some(info) ==> after.info_log@ == logged(before.info_log@, info@),
        after.updated_at_ms == timestamp,
        after.id == before.id,
        after.datasource_id == before.datasource_id,
        after.database_name == before.database_name,
        after.schema_name == before.schema_name,
        after.table_name == before.table_name,
        after.kind == before.kind,
        after.task_name == before.task_name,
        after.status == before.status,
        after.error_log == before.error_log,
        after.cancel_requested == before.cancel_requested,
        after.created_at_ms == before.created_at_ms,
        after.finished_at_ms == before.finished_at_ms,
        after.artifact_id == before.artifact_id,
{
}

/// A log that is within its bound gets the entry on a line of its own; of a longer one the last
/// characters stay.
pub proof fn law_log_ends_with_the_entry(log: Seq<char>, entry: Seq<char>)
    ensures
        log.len() == 0 && entry.len() <= 262_144 ==> logged(log, entry) == entry,
        log.len() > 0 && log.len() + 1 + entry.len() <= 262_144 ==> logged(log, entry) == log
            + seq!['\n'] + entry,
        log.len() > 0 && log.len() + 1 + entry.len() > 262_144 ==> logged(log, entry) == (log
            + seq!['\n'] + entry).skip(log.len() + 1 + entry.len() - 262_144),
        log.len() == 0 && entry.len() > 262_144 ==> logged(log, entry) == entry.skip(
            entry.len() - 262_144,
        ),
{
    reveal_strlit("\n");
    assert("\n"@ =~= seq!['\n']);
}

/// A cancellation that was asked for marks a task that has not ended and that nobody has cancelled
/// before. One that waits ends with it, and one that runs goes on.
pub proof fn law_cancellation_marks_the_task(
    before: TransferTaskRecord,
    after: TransferTaskRecord,
    timestamp: i64,
)
    requires
        cancel_requested(after, before, timestamp),
    ensures
        cancellable(before) <==> (before.status is Queued || before.status is Running)
            && !before.cancel_requested,
        after.cancel_requested,
        after.updated_at_ms == timestamp,
        before.status is Queued ==> {
            &&& after.status is Cancelled
            &&& after.progress_description@ == "Cancelled"@
            &&& after.finished_at_ms == Some(timestamp)
        },
        !(before.status is Queued) ==> {
            &&& after.status == before.status
            &&& after.progress_description == before.progress_description
            &&& after.finished_at_ms == before.finished_at_ms
        },
        after.id == before.id,
        after.datasource_id == before.datasource_id,
        after.database_name == before.database_name,
        after.schema_name == before.schema_name,
        after.table_name == before.table_name,
        after.kind == before.kind,
        after.task_name == before.task_name,
        after.progress_current == before.progress_current,
        after.progress_total == before.progress_total,
        after.info_log == before.info_log,
        after.error_log == before.error_log,
        after.created_at_ms == before.created_at_ms,
        after.artifact_id == before.artifact_id,
{
}

/// A task that has not ended ends in the state that was asked for, with the message as its error.
pub proof fn law_task_ends_with_its_message(
    id: i64,
    before: TransferTaskRecord,
    after: TransferTaskRecord,
    status: StoredTransferTaskStatus,
    description: Seq<char>,
    message: String,
    timestamp: i64,
)
    requires
        task_ended(after, before, status, description, message, timestamp),
    ensures
        ending_check(id, message@, Some(before)) is Ok <==> (before.status is Queued
            || before.status is Running) && byte_len(message@) <= 262_144,
        ending_check(id, message@, None) is Err,
        after.status == status,
        after.progress_description@ == description,
        after.error_log == message,
        after.updated_at_ms == timestamp,
        after.finished_at_ms == Some(timestamp),
        after.id == before.id,
        after.datasource_id == before.datasource_id,
        after.database_name == before.database_name,
        after.schema_name == before.schema_name,
        after.table_name == before.table_name,
        after.kind == before.kind,
        after.task_name == before.task_name,
        after.progress_current == before.progress_current,
        after.progress_total == before.progress_total,
        after.info_log == before.info_log,
        after.cancel_requested == before.cancel_requested,
        after.created_at_ms == before.created_at_ms,
        after.artifact_id == before.artifact_id,
{
}

/// A running task that is not to be cancelled succeeds, with the message, if there is one, at the end
/// of its log.
pub proof fn law_running_task_succeeds(
    id: i64,
    before: TransferTaskRecord,
    after: TransferTaskRecord,
    message: Seq<char>,
    timestamp: i64,
)
    requires
        task_succeeded(after, before, message, timestamp),
    ensures
        completion_check(id, message, Some(before)) is Ok <==> before.status is Running
            && !before.cancel_requested && byte_len(message) <= 262_144,
        completion_check(id, message, None) is Err,
        after.status is Succeeded,
        after.progress_description@ == "Completed"@,
        message.len() == 0 ==> after.info_log@ == before.info_log@,
        message.len() > 0 ==> after.info_log@ == logged(before.info_log@, message),
        !after.cancel_requested,
        after.updated_at_ms == timestamp,
        after.finished_at_ms == Some(timestamp),
        after.id == before.id,
        after.datasource_id == before.datasource_id,
        after.database_name == before.database_name,
        after.schema_name == before.schema_name,
        after.table_name == before.table_name,
        after.kind == before.kind,
        after.task_name == before.task_name,
        after.progress_current == before.progress_current,
        after.progress_total == before.progress_total,
        after.error_log == before.error_log,
        after.created_at_ms == before.created_at_ms,
        after.artifact_id == before.artifact_id,
{
}

/// A task row is read as it is, if its category and its state are known ones and its progress is not
/// negative.
pub proof fn law_task_row_is_read_as_it_is(raw: RawTransferTask)
    ensures
        task_row(raw) is Ok <==> {
            &&& StoredTransferTaskKind::persisted(raw.kind@) is Ok
            &&& StoredTransferTaskStatus::persisted(raw.status@) is Ok
            &&& raw.progress_current >= 0
            &&& raw.progress_total matches Some(total) ==> total >= 0
        },
        task_row(raw) matches Ok(record) ==> {
            &&& record.id == raw.id
            &&& record.datasource_id == raw.datasource_id
            &&& record.database_name == raw.database_name
            &&& record.schema_name == raw.schema_name
            &&& record.table_name == raw.table_name
            &&& record.task_name == raw.task_name
            &&& record.progress_description == raw.progress_description
            &&& record.info_log == raw.info_log
            &&& record.error_log == raw.error_log
            &&& record.cancel_requested == raw.cancel_requested
            &&& record.created_at_ms == raw.created_at_ms
            &&& record.updated_at_ms == raw.updated_at_ms
            &&& record.finished_at_ms == raw.finished_at_ms
            &&& record.artifact_id == raw.artifact_id
            &&& StoredTransferTaskKind::persisted(raw.kind@) == Ok::<
                StoredTransferTaskKind,
                StorageError,
            >(record.kind)
            &&& StoredTransferTaskStatus::persisted(raw.status@) == Ok::<
                StoredTransferTaskStatus,
                StorageError,
            >(record.status)
            &&& record.progress_current == raw.progress_current
            &&& raw.progress_total is None ==> record.progress_total is None
            &&& raw.progress_total matches Some(total) ==> (record.progress_total matches Some(all)
                && all == total)
        },
{
}

/// An artifact row is read as it is, if its digest has thirty-two bytes and its length is not
/// negative.
pub proof fn law_artifact_row_is_read_as_it_is(raw: RawTransferArtifact, row: StoredArtifactRow)
    ensures
        artifact_row_check(raw) is Ok <==> raw.sha256@.len() == 32 && raw.byte_count >= 0,
        artifact_row_check(raw) is Ok && artifact_held(row, raw) ==> {
            &&& row.storage_name == raw.storage_name
            &&& row.record.id == raw.id
            &&& row.record.task_id == raw.task_id
            &&& row.record.file_name == raw.file_name
            &&& row.record.media_type == raw.media_type
            &&& row.record.format == raw.format
            &&& row.record.byte_count == raw.byte_count
            &&& row.record.created_at_ms == raw.created_at_ms
            &&& row.record.expires_at_ms == raw.expires_at_ms
            &&& row.record.sha256@ == raw.sha256@
        },
{
}

/// The newest tasks are listed, up to twenty of them, the newest first.
pub proof fn law_newest_tasks_are_listed(
    rows: Seq<RawTransferTask>,
    result: Result<Vec<TransferTaskRecord>, StorageError>,
)
    requires
        tasks_listed(rows, result),
    ensures
        result matches Ok(records) ==> {
            &&& rows.len() <= 20 ==> records@.len() == rows.len()
            &&& rows.len() > 20 ==> records@.len() == 20
            &&& forall|i: int, j: int|
                0 <= i < j < records@.len() ==> {
                    ||| (#[trigger] records@[i]).created_at_ms > (#[trigger] records@[j]).created_at_ms
                    ||| records@[i].created_at_ms == records@[j].created_at_ms && records@[i].id
                        >= records@[j].id
                }
        },
{
    if let Ok(records) = result {
        let list = choose|list: Seq<RawTransferTask>| #[trigger]
            arranged(list, rows, ListOrder::NewestFirst) && rows_read(
                page_slice(list, 0, 20),
                result,
            );
        let shown = page_slice(list, 0, 20);
        assert(shows(shown, rows, ListOrder::NewestFirst, 0, 20));
        law_page_is_ordered(shown, rows, ListOrder::NewestFirst, 0, 20);
        assert forall|i: int| 0 <= i < shown.len() implies (#[trigger] records@[i]).created_at_ms
            == shown[i].created() && records@[i].id == shown[i].number() by {
            assert(shown[i].broken() is None && shown[i].holds(records@[i]));
        }
        assert forall|i: int, j: int| 0 <= i < j < records@.len() implies ({
            ||| (#[trigger] records@[i]).created_at_ms > (#[trigger] records@[j]).created_at_ms
            ||| records@[i].created_at_ms == records@[j].created_at_ms && records@[i].id
                >= records@[j].id
        }) by {
            assert(shown[i].created() >= shown[j].created());
        }
    }
}

/// An artifact is begun as it was asked for, under a partial name of its id, to be published under
/// its id and its extension. That is accepted exactly if its fields are valid and its task, where it
/// has one, is under way and not to be cancelled.
pub proof fn law_artifact_is_begun_as_asked(
    style: PathStyle,
    pending: PendingArtifact,
    input: NewTransferArtifact,
    id: String,
    task: Option<TransferTaskRecord>,
)
    ensures
        artifact_begun(pending, input, id) ==> {
            &&& pending.id == id
            &&& pending.part_name@ == id@ + ".part"@
            &&& pending.storage_name@ == id@ + "."@ + input.extension@
            &&& pending.task_id == input.task_id
            &&& pending.file_name == input.file_name
            &&& pending.media_type == input.media_type
            &&& pending.format == input.format
            &&& pending.expires_at_ms == input.expires_at_ms
        },
        begin_artifact_check(style, input, task) is Ok <==> {
            &&& artifact_fields_check(
                style,
                input.file_name@,
                input.media_type@,
                input.format@,
                input.extension@,
            ) is Ok
            &&& input.task_id is Some ==> (task matches Some(record) && (record.status is Queued
                || record.status is Running) && !record.cancel_requested)
        },
{
}

/// The fields of an artifact are valid exactly if its file name is one component of a path, its
/// media type and its format are named, every text is within its bound, and its extension is of one
/// to sixteen ASCII letters and digits.
pub proof fn law_artifact_fields_are_valid(
    style: PathStyle,
    file_name: Seq<char>,
    media_type: Seq<char>,
    format: Seq<char>,
    extension: Seq<char>,
)
    ensures
        artifact_fields_check(style, file_name, media_type, format, extension) is Ok <==> {
            &&& !blank(file_name) && byte_len(file_name) <= 1_024
            &&& file_name != seq!['.'] && file_name != seq!['.', '.']
            &&& forall|i: int| 0 <= i < file_name.len() ==> #[trigger] file_name[i] != '/'
            &&& style is Windows ==> {
                &&& forall|i: int| 0 <= i < file_name.len() ==> #[trigger] file_name[i] != '\\'
                &&& !(file_name.len() >= 2 && ('A' <= file_name[0] <= 'Z' || 'a' <= file_name[0]
                    <= 'z') && file_name[1] == ':')
            }
            &&& !blank(media_type) && byte_len(media_type) <= 255
            &&& !blank(format) && byte_len(format) <= 32
            &&& extension.len() > 0 && byte_len(extension) <= 16
            &&& forall|i: int|
                0 <= i < extension.len() ==> ('0' <= #[trigger] extension[i] <= '9' || 'A'
                    <= extension[i] <= 'Z' || 'a' <= extension[i] <= 'z')
        },
{
    reveal_strlit(".");
    reveal_strlit("..");
    assert("."@ =~= seq!['.']);
    assert(".."@ =~= seq!['.', '.']);
    if extension_valid(extension) {
        assert forall|i: int| 0 <= i < extension.len() implies ('0' <= #[trigger] extension[i]
            <= '9' || 'A' <= extension[i] <= 'Z' || 'a' <= extension[i] <= 'z') by {}
    }
    if file_name.len() > 0 && plain_file_name(style, file_name) {
        assert forall|i: int| 0 <= i < file_name.len() implies #[trigger] file_name[i] != '/' && (
        style is Windows ==> file_name[i] != '\\') by {
            assert(file_name.contains(file_name[i]));
        }
    }
}

/// The name of a managed file is of one to 128 bytes of ASCII letters, digits, hyphens, underscores
/// and dots, and is neither one dot nor two.
pub proof fn law_managed_name_is_plain(name: Seq<char>)
    ensures
        storage_name_valid(name) <==> {
            &&& name.len() > 0 && byte_len(name) <= 128
            &&& name != seq!['.'] && name != seq!['.', '.']
            &&& forall|i: int|
                0 <= i < name.len() ==> ('0' <= #[trigger] name[i] <= '9' || 'A' <= name[i] <= 'Z'
                    || 'a' <= name[i] <= 'z' || name[i] == '-' || name[i] == '_' || name[i] == '.')
        },
{
    reveal_strlit(".");
    reveal_strlit("..");
    assert("."@ =~= seq!['.']);
    assert(".."@ =~= seq!['.', '.']);
}

/// An artifact is published with what was asked for it, the length and the digest of its contents and
/// the given time; its task, where it has one, succeeds with it. That is accepted exactly if the
/// length can be stored and the task is under way and not to be cancelled.
pub proof fn law_artifact_is_published_as_written(
    published: PublishedArtifact,
    pending: PendingArtifact,
    contents: Seq<u8>,
    task: Option<TransferTaskRecord>,
    timestamp: i64,
)
    ensures
        publish_check(pending, contents, task) is Ok <==> {
            &&& contents.len() <= i64::MAX
            &&& pending.task_id is Some ==> (task matches Some(record) && (record.status is Queued
                || record.status is Running) && !record.cancel_requested)
        },
        artifact_published(published, pending, contents, task, timestamp) ==> {
            &&& published.artifact.id == pending.id
            &&& published.artifact.task_id == pending.task_id
            &&& published.artifact.file_name == pending.file_name
            &&& published.artifact.media_type == pending.media_type
            &&& published.artifact.format == pending.format
            &&& published.artifact.expires_at_ms == pending.expires_at_ms
            &&& published.artifact.byte_count == contents.len()
            &&& published.artifact.sha256@ == sha256_digest(contents)
            &&& published.artifact.created_at_ms == timestamp
            &&& pending.task_id is None <==> published.task is None
            &&& published.task matches Some(after) ==> {
                &&& after.artifact_id == Some(pending.id)
                &&& after.status is Succeeded
                &&& after.finished_at_ms == Some(timestamp)
                &&& after.updated_at_ms == timestamp
                &&& after.id == task->0.id
                &&& after.info_log@ == task->0.info_log@
            }
        },
{
}

/// An artifact is resolved exactly if it is there, has not expired, has the name of a managed file,
/// and its file is a regular file of the managed directory with the length and the contents that were
/// published; it is resolved as it was published.
pub proof fn law_artifact_resolves_as_published(
    id: String,
    row: Option<StoredArtifactRow>,
    timestamp: i64,
    path: ArtifactPath,
    file_length: u64,
    contents: Seq<u8>,
)
    ensures
        ({
            let outcome = artifact_resolved(id, row, timestamp, path, file_length, contents);
            &&& outcome is Ok <==> {
                &&& row matches Some(stored) && {
                    &&& stored.record.expires_at_ms matches Some(expiry) ==> timestamp < expiry
                    &&& storage_name_valid(stored.storage_name@)
                    &&& file_length == stored.record.byte_count
                    &&& contents.len() == stored.record.byte_count
                    &&& sha256_digest(contents) == stored.record.sha256@
                }
                &&& path.regular
                &&& path.inside
            }
            &&& outcome matches Ok(record) ==> (row matches Some(stored) && record == stored.record)
        }),
        artifact_found(id, row, timestamp) is Ok <==> (row matches Some(stored) && (
        stored.record.expires_at_ms matches Some(expiry) ==> timestamp < expiry)
            && storage_name_valid(stored.storage_name@)),
        artifact_found(id, row, timestamp) matches Ok(found) ==> row == Some(found),
{
}

/// A task that was under way is interrupted, at the time of the recovery and with the reason of the
/// stop unless it has an error of its own.
pub proof fn law_task_under_way_is_interrupted(
    after: TransferTaskRecord,
    before: TransferTaskRecord,
    timestamp: i64,
)
    requires
        task_interrupted(after, before, timestamp),
    ensures
        after.status is Interrupted,
        after.progress_description@ == "Interrupted"@,
        before.error_log@.len() == 0 ==> after.error_log@
            == "Application stopped before the task completed"@,
        before.error_log@.len() > 0 ==> after.error_log@ == before.error_log@,
        after.updated_at_ms == timestamp,
        after.finished_at_ms == Some(timestamp),
        after.id == before.id,
        after.datasource_id == before.datasource_id,
        after.database_name == before.database_name,
        after.schema_name == before.schema_name,
        after.table_name == before.table_name,
        after.kind == before.kind,
        after.task_name == before.task_name,
        after.progress_current == before.progress_current,
        after.progress_total == before.progress_total,
        after.info_log == before.info_log,
        after.cancel_requested == before.cancel_requested,
        after.created_at_ms == before.created_at_ms,
        after.artifact_id == before.artifact_id,
{
}

/// Recovery interrupts each task that waits or runs, in order, and no other.
pub proof fn law_recovery_interrupts_tasks_under_way(
    tasks: Seq<TransferTaskRecord>,
    task: TransferTaskRecord,
    after: Seq<TransferTaskRecord>,
    ended: TransferTaskRecord,
    timestamp: i64,
)
    requires
        tasks_interrupted(after, tasks, timestamp),
    ensures
        tasks_interrupted(Seq::empty(), Seq::empty(), timestamp),
        !(task.status is Queued || task.status is Running) ==> tasks_interrupted(
            after,
            tasks.push(task),
            timestamp,
        ),
        (task.status is Queued || task.status is Running) && task_interrupted(
            ended,
            task,
            timestamp,
        ) ==> tasks_interrupted(after.push(ended), tasks.push(task), timestamp),
        task.status is Queued || task.status is Running ==> !tasks_interrupted(
            after,
            tasks.push(task),
            timestamp,
        ),
{
    let under_way = |task: TransferTaskRecord| !task.status.terminal();
    lemma_filter_of_longer(tasks, task, under_way);
    lemma_filter_of_longer(Seq::empty(), task, under_way);
    let stopped = tasks.push(task).filter(under_way);
    if (task.status is Queued || task.status is Running) && task_interrupted(
        ended,
        task,
        timestamp,
    ) {
        let longer = after.push(ended);
        assert forall|i: int| 0 <= i < stopped.len() implies task_interrupted(
            #[trigger] longer[i],
            stopped[i],
            timestamp,
        ) by {
            if i < after.len() {
                assert(longer[i] == after[i]);
            }
        }
    }
}

/// An artifact expires exactly if it belongs to no task and its time has come. Recovery removes those
/// that have expired, in order, and keeps the others.
pub proof fn law_recovery_removes_expired_artifacts(
    rows: Seq<ArtifactExpiry>,
    row: ArtifactExpiry,
    timestamp: i64,
)
    ensures
        artifact_expired(row, timestamp) <==> row.task_id is None && (
        row.expires_at_ms matches Some(expiry) && expiry <= timestamp),
        artifact_names(Seq::empty(), timestamp, true).len() == 0,
        artifact_names(Seq::empty(), timestamp, false).len() == 0,
        artifact_expired(row, timestamp) ==> {
            &&& artifact_names(rows.push(row), timestamp, true) == artifact_names(
                rows,
                timestamp,
                true,
            ).push(row.storage_name)
            &&& artifact_names(rows.push(row), timestamp, false) == artifact_names(
                rows,
                timestamp,
                false,
            )
        },
        !artifact_expired(row, timestamp) ==> {
            &&& artifact_names(rows.push(row), timestamp, false) == artifact_names(
                rows,
                timestamp,
                false,
            ).push(row.storage_name)
            &&& artifact_names(rows.push(row), timestamp, true) == artifact_names(
                rows,
                timestamp,
                true,
            )
        },
{
    assert(rows.push(row).drop_last() =~= rows);
}

/// A name is that of a partial file exactly if something stands before `.part` in it, whatever the
/// case of its letters.
pub proof fn law_partial_name_has_a_stem(name: Seq<char>)
    ensures
        partial_name(name) <==> name.len() > 5 && lowered(name).skip(name.len() - 5) == ".part"@,
{
    reveal_strlit(".part");
    let low = lowered(name);
    if partial_name(name) {
        let stem = choose|stem: Seq<char>| stem.len() > 0 && low == #[trigger] (stem + ".part"@);
        assert(low.skip(name.len() - 5) =~= ".part"@);
    }
    if name.len() > 5 && low.skip(name.len() - 5) == ".part"@ {
        let stem = low.take(name.len() - 5);
        assert(low =~= stem + ".part"@);
    }
}

/// Recovery keeps a file exactly if an artifact that has not expired has its name and it is not a
/// partial file or, under the name of a managed file, that of an expired artifact.
pub proof fn law_recovery_keeps_files_of_artifacts(
    name: Seq<char>,
    expired: Seq<String>,
    known: Seq<String>,
)
    ensures
        ({
            let is_expired = exists|i: int|
                0 <= i < expired.len() && (#[trigger] expired[i])@ == name;
            let is_known = exists|i: int| 0 <= i < known.len() && (#[trigger] known[i])@ == name;
            let goes = is_expired && storage_name_valid(name);
            &&& file_fate(name, expired, known) is Expired <==> goes
            &&& file_fate(name, expired, known) is Partial <==> !goes && partial_name(name)
            &&& file_fate(name, expired, known) is Orphan <==> !goes && !partial_name(name)
                && !is_known
            &&& file_fate(name, expired, known) is Kept <==> !goes && !partial_name(name)
                && is_known
        }),
{
}

/// Files are counted by what becomes of them.
pub proof fn law_fates_are_counted(fates: Seq<FileFate>, fate: FileFate, other: FileFate)
    ensures
        fated(Seq::empty(), fate) == 0,
        fated(fates.push(other), fate) == fated(fates, fate) + (if other == fate {
            1nat
        } else {
            0nat
        }),
{
    assert(fates.push(other).drop_last() =~= fates);
}

/// A task is pruned exactly if it has ended and at least twenty tasks are newer; of two tasks the
/// one created later is newer, and of two created at once the one with the larger id.
pub proof fn law_ended_task_is_pruned_behind_twenty(
    tasks: Seq<TaskAge>,
    task: TaskAge,
    other: TaskAge,
    count: nat,
)
    requires
        count < tasks.len(),
    ensures
        prunable(tasks, task) <==> newer_count(tasks, task) >= 20 && (
        StoredTransferTaskStatus::persisted(task.status@) matches Ok(status) && !(status is Queued)
            && !(status is Running)),
        newer_count(Seq::empty(), task) == 0,
        newer_count(tasks.push(other), task) == newer_count(tasks, task) + (
        if other.created_at_ms > task.created_at_ms || (other.created_at_ms == task.created_at_ms
            && other.id > task.id) {
            1nat
        } else {
            0nat
        }),
        pruned(tasks, 0).len() == 0,
        prunable(tasks, tasks[count as int]) ==> pruned(tasks, count + 1) == pruned(
            tasks,
            count,
        ).push(tasks[count as int].id),
        !prunable(tasks, tasks[count as int]) ==> pruned(tasks, count + 1) == pruned(tasks, count),
{
    assert(tasks.push(other).drop_last() =~= tasks);
}

/// A recovery of the transfers reports how many tasks it ended and how many artifacts and files it
/// removed; it removes the artifacts that have expired and decides on each file by its name.
pub proof fn law_transfer_recovery_reports_what_it_does(
    recovery: TransferRecovery,
    tasks: Seq<TransferTaskRecord>,
    artifacts: Seq<ArtifactExpiry>,
    files: Seq<String>,
    timestamp: i64,
)
    requires
        transfers_recovered(recovery, tasks, artifacts, files, timestamp),
    ensures
        tasks_interrupted(recovery.interrupted@, tasks, timestamp),
        recovery.expired@ == artifact_names(artifacts, timestamp, true),
        recovery.fates@.len() == files.len(),
        forall|i: int|
            0 <= i < files.len() ==> #[trigger] recovery.fates@[i] == file_fate(
                files[i]@,
                artifact_names(artifacts, timestamp, true),
                artifact_names(artifacts, timestamp, false),
            ),
        recovery.report.interrupted_tasks == recovery.interrupted@.len(),
        recovery.report.expired_artifacts == recovery.expired@.len(),
        recovery.report.partial_files_removed == fated(recovery.fates@, FileFate::Partial),
        recovery.report.orphan_files_removed == fated(recovery.fates@, FileFate::Orphan),
{
}

} // verus!
