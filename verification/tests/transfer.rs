use std::collections::BTreeMap;

use chat2db_storage::identity::fresh_id;
use chat2db_storage::transfer::artifact::{
    is_plain_file_name, validate_storage_name, ArtifactDigest, ArtifactFile, ArtifactPath,
    NewTransferArtifact, PathStyle, PendingArtifact,
};
use chat2db_storage::transfer::model::{
    decode_transfer_artifact, RawTransferArtifact, RawTransferTask, StoredArtifactRow,
};
use chat2db_storage::transfer::recovery::{is_partial_name, ArtifactExpiry, FileFate, TaskAge};
use chat2db_storage::transfer::task::{append_log, TransferProgress};
use chat2db_storage::{
    AgentRecoveryReport, CreateTransferTask, RecoveryReport, SecretCleanupReport, StartupReport,
    Storage, StorageError, StoredTransferTaskKind, StoredTransferTaskStatus,
    TransferArtifactRecord, TransferRecoveryReport, TransferTaskRecord,
};

struct ArtifactRow {
    record: TransferArtifactRecord,
    storage_name: String,
}

/// Tables and a directory in memory, driven by the rules of the library.
struct Store {
    tasks: Vec<TransferTaskRecord>,
    artifacts: Vec<ArtifactRow>,
    files: BTreeMap<String, Vec<u8>>,
    refuse_removal: bool,
    next_id: i64,
    now: i64,
}

struct Writer {
    pending: PendingArtifact,
}

fn row(task: &TransferTaskRecord) -> RawTransferTask {
    RawTransferTask {
        id: task.id,
        datasource_id: task.datasource_id.clone(),
        database_name: task.database_name.clone(),
        schema_name: task.schema_name.clone(),
        table_name: task.table_name.clone(),
        kind: task.kind.as_str().to_owned(),
        status: task.status.as_str().to_owned(),
        task_name: task.task_name.clone(),
        progress_current: task.progress_current as i64,
        progress_total: task.progress_total.map(|total| total as i64),
        progress_description: task.progress_description.clone(),
        info_log: task.info_log.clone(),
        error_log: task.error_log.clone(),
        cancel_requested: task.cancel_requested,
        created_at_ms: task.created_at_ms,
        updated_at_ms: task.updated_at_ms,
        finished_at_ms: task.finished_at_ms,
        artifact_id: task.artifact_id.clone(),
    }
}

impl Store {
    fn open() -> Store {
        Store {
            tasks: Vec::new(),
            artifacts: Vec::new(),
            files: BTreeMap::new(),
            refuse_removal: false,
            next_id: 0,
            now: 1_000,
        }
    }

    fn tick(&mut self) -> i64 {
        self.now += 1;
        self.now
    }

    fn find(&self, id: i64) -> Option<TransferTaskRecord> {
        self.tasks.iter().find(|task| task.id == id).cloned()
    }

    fn put(&mut self, record: TransferTaskRecord) {
        self.tasks.retain(|task| task.id != record.id);
        self.tasks.push(record);
    }

    fn remove_file(&mut self, name: &str) {
        if !self.refuse_removal {
            self.files.remove(name);
        }
    }

    fn prune(&mut self) {
        let ages: Vec<TaskAge> = self
            .tasks
            .iter()
            .map(|task| TaskAge {
                id: task.id,
                status: task.status.as_str().to_owned(),
                created_at_ms: task.created_at_ms,
            })
            .collect();
        for id in Storage::prune_transfer_tasks(&ages) {
            let names: Vec<String> = self
                .artifacts
                .iter()
                .filter(|artifact| artifact.record.task_id == Some(id))
                .map(|artifact| artifact.storage_name.clone())
                .collect();
            self.tasks.retain(|task| task.id != id);
            self.artifacts.retain(|artifact| artifact.record.task_id != Some(id));
            for name in names {
                self.remove_file(&name);
            }
        }
    }

    fn create_transfer_task(
        &mut self,
        input: CreateTransferTask,
    ) -> Result<TransferTaskRecord, StorageError> {
        self.next_id += 1;
        let timestamp = self.tick();
        let record = Storage::create_transfer_task(self.next_id, input, timestamp)?;
        self.put(record.clone());
        self.prune();
        Ok(record)
    }

    fn get_transfer_task(&self, id: i64) -> Result<Option<TransferTaskRecord>, StorageError> {
        Storage::get_transfer_task(self.find(id).as_ref().map(row))
    }

    fn list_transfer_tasks(&self) -> Result<Vec<TransferTaskRecord>, StorageError> {
        Storage::list_transfer_tasks(self.tasks.iter().map(row).collect())
    }

    fn start_transfer_task(&mut self, id: i64) -> Result<(), StorageError> {
        let timestamp = self.tick();
        let record = Storage::start_transfer_task(id, self.find(id), timestamp)?;
        self.put(record);
        Ok(())
    }

    fn complete_transfer_task(&mut self, id: i64, message: &str) -> Result<(), StorageError> {
        let timestamp = self.tick();
        let record = Storage::complete_transfer_task(id, message, self.find(id), timestamp)?;
        self.put(record);
        self.prune();
        Ok(())
    }

    fn fail_transfer_task(&mut self, id: i64, message: &str) -> Result<(), StorageError> {
        let timestamp = self.tick();
        let record =
            Storage::fail_transfer_task(id, message.to_owned(), self.find(id), timestamp)?;
        self.put(record);
        self.prune();
        Ok(())
    }

    fn cancel_transfer_task(&mut self, id: i64, message: &str) -> Result<(), StorageError> {
        let timestamp = self.tick();
        let record =
            Storage::cancel_transfer_task(id, message.to_owned(), self.find(id), timestamp)?;
        self.put(record);
        self.prune();
        Ok(())
    }

    fn request_transfer_cancel(&mut self, id: i64) -> Result<bool, StorageError> {
        let timestamp = self.tick();
        match Storage::request_transfer_cancel(id, self.find(id), timestamp)? {
            Some(record) => {
                self.put(record);
                Ok(true)
            }
            None => Ok(false),
        }
    }

    fn begin_transfer_artifact(
        &mut self,
        task_id: Option<i64>,
        file_name: &str,
        media_type: &str,
        format: &str,
        extension: &str,
        expires_at_ms: Option<i64>,
    ) -> Result<Writer, StorageError> {
        let task = task_id.and_then(|id| self.find(id));
        let pending = Storage::begin_transfer_artifact(
            PathStyle::Unix,
            NewTransferArtifact {
                task_id,
                file_name: file_name.to_owned(),
                media_type: media_type.to_owned(),
                format: format.to_owned(),
                extension: extension.to_owned(),
                expires_at_ms,
            },
            &task,
            fresh_id(),
        )?;
        self.files.insert(pending.part_name.clone(), Vec::new());
        Ok(Writer { pending })
    }

    fn write_all(&mut self, writer: &Writer, bytes: &[u8]) {
        self.files
            .get_mut(&writer.pending.part_name)
            .expect("partial file exists")
            .extend_from_slice(bytes);
    }

    fn drop_writer(&mut self, writer: Writer) {
        self.remove_file(&writer.pending.part_name);
    }

    fn finish(&mut self, writer: Writer) -> Result<TransferArtifactRecord, StorageError> {
        let part_name = writer.pending.part_name.clone();
        let storage_name = writer.pending.storage_name.clone();
        let contents = self.files.remove(&part_name).expect("partial file exists");
        let digest = ArtifactDigest::new().update(&contents)?;
        self.files.insert(storage_name.clone(), contents);
        let task = writer.pending.task_id.and_then(|id| self.find(id));
        let timestamp = self.tick();
        match Storage::finish_transfer_artifact(writer.pending, digest, task, timestamp) {
            Ok(published) => {
                self.artifacts.push(ArtifactRow {
                    record: published.artifact.clone(),
                    storage_name,
                });
                if let Some(task) = published.task {
                    self.put(task);
                }
                self.prune();
                Ok(published.artifact)
            }
            Err(error) => {
                self.remove_file(&storage_name);
                Err(error)
            }
        }
    }

    fn stored(&self, id: &str) -> Option<StoredArtifactRow> {
        self.artifacts
            .iter()
            .find(|artifact| artifact.record.id == id)
            .map(|artifact| StoredArtifactRow {
                record: artifact.record.clone(),
                storage_name: artifact.storage_name.clone(),
            })
    }

    fn resolve_transfer_artifact(&self, id: &str) -> Result<String, StorageError> {
        let stored = self.stored(id);
        let name = stored.as_ref().map(|stored| stored.storage_name.clone()).unwrap_or_default();
        let file = self.files.get(&name);
        let bytes = file.cloned().unwrap_or_default();
        let mut contents = ArtifactDigest::new();
        for part in bytes.chunks(5) {
            contents = contents.update(part)?;
        }
        let found = ArtifactFile {
            path: ArtifactPath { regular: file.is_some(), inside: true },
            length: bytes.len() as u64,
            contents,
        };
        Storage::resolve_transfer_artifact(&id.to_owned(), stored, self.now, found)?;
        Ok(name)
    }

    fn delete_temporary_transfer_artifact(&mut self, id: &str) -> Result<bool, StorageError> {
        match Storage::delete_temporary_transfer_artifact(self.stored(id))? {
            Some(name) => {
                self.artifacts.retain(|artifact| artifact.record.id != id);
                self.remove_file(&name);
                Ok(true)
            }
            None => Ok(false),
        }
    }

    fn recover_transfers_at(&mut self, timestamp: i64) -> TransferRecoveryReport {
        let rows = self
            .artifacts
            .iter()
            .map(|artifact| ArtifactExpiry {
                storage_name: artifact.storage_name.clone(),
                task_id: artifact.record.task_id,
                expires_at_ms: artifact.record.expires_at_ms,
            })
            .collect();
        let files: Vec<String> = self.files.keys().cloned().collect();
        let recovery =
            Storage::recover_transfers_at(self.tasks.clone(), rows, &files, timestamp);
        for task in recovery.interrupted {
            self.put(task);
        }
        self.artifacts.retain(|artifact| !recovery.expired.contains(&artifact.storage_name));
        for (name, fate) in files.iter().zip(recovery.fates) {
            if fate != FileFate::Kept {
                self.remove_file(name);
            }
        }
        recovery.report
    }

    fn reopen(&mut self) -> StartupReport {
        let timestamp = self.tick();
        let transfers = self.recover_transfers_at(timestamp);
        Storage::startup_report(
            RecoveryReport::default(),
            SecretCleanupReport { deleted: 0, pending: 0 },
            AgentRecoveryReport::default(),
            transfers,
        )
    }
}

fn input(suffix: usize) -> CreateTransferTask {
    CreateTransferTask {
        datasource_id: "mysql-local".to_owned(),
        database_name: "inventory".to_owned(),
        schema_name: String::new(),
        table_name: Some(format!("items_{suffix}")),
        kind: StoredTransferTaskKind::ExportFile,
        task_name: format!("Export items {suffix}"),
    }
}

fn task(storage: &mut Store, suffix: usize) -> i64 {
    storage.create_transfer_task(input(suffix)).expect("task creates").id
}

#[test]
fn artifact_publish_is_atomic_and_completes_the_task() {
    let mut storage = Store::open();
    let id = task(&mut storage, 1);
    storage.start_transfer_task(id).expect("task starts");
    let writer = storage
        .begin_transfer_artifact(Some(id), "items.csv", "text/csv", "CSV", "csv", None)
        .expect("artifact begins");
    storage.write_all(&writer, b"id,name\n1,alpha\n");
    let artifact = storage.finish(writer).expect("artifact finishes");

    let task = storage
        .get_transfer_task(id)
        .expect("task reads")
        .expect("task exists");
    assert_eq!(task.status, StoredTransferTaskStatus::Succeeded);
    assert_eq!(task.artifact_id.as_deref(), Some(artifact.id.as_str()));
    let resolved = storage
        .resolve_transfer_artifact(&artifact.id)
        .expect("artifact resolves");
    assert_eq!(storage.files[&resolved], b"id,name\n1,alpha\n");
}

#[test]
fn artifact_display_names_never_create_paths() {
    let mut storage = Store::open();

    assert!(matches!(
        storage.begin_transfer_artifact(None, "../outside.csv", "text/csv", "CSV", "csv", None),
        Err(StorageError::InvalidTransfer(
            "artifact file name must not contain a path"
        ))
    ));
    assert_eq!(storage.files.len(), 0);
}

#[test]
fn artifact_resolution_rejects_tampered_and_truncated_files() {
    let mut storage = Store::open();

    let tampered = storage
        .begin_transfer_artifact(None, "tampered.csv", "text/csv", "CSV", "csv", None)
        .expect("artifact begins");
    storage.write_all(&tampered, b"id,name\n1,alpha\n");
    let tampered = storage.finish(tampered).expect("artifact finishes");
    let tampered_path = storage
        .resolve_transfer_artifact(&tampered.id)
        .expect("untampered artifact resolves");
    storage.files.insert(tampered_path, b"id,name\n1,omega\n".to_vec());
    assert!(matches!(
        storage.resolve_transfer_artifact(&tampered.id),
        Err(StorageError::Integrity(message)) if message.contains("SHA-256")
    ));

    let truncated = storage
        .begin_transfer_artifact(None, "truncated.csv", "text/csv", "CSV", "csv", None)
        .expect("artifact begins");
    storage.write_all(&truncated, b"id,name\n1,alpha\n");
    let truncated = storage.finish(truncated).expect("artifact finishes");
    let truncated_path = storage
        .resolve_transfer_artifact(&truncated.id)
        .expect("complete artifact resolves");
    storage.files.insert(truncated_path, b"id\n".to_vec());
    assert!(matches!(
        storage.resolve_transfer_artifact(&truncated.id),
        Err(StorageError::Integrity(message)) if message.contains("size")
    ));
}

#[test]
fn temporary_artifact_deletion_removes_metadata_and_file() {
    let mut storage = Store::open();
    let writer = storage
        .begin_transfer_artifact(None, "upload.csv", "text/csv", "CSV", "csv", None)
        .expect("artifact begins");
    storage.write_all(&writer, b"id\n1\n");
    let artifact = storage.finish(writer).expect("artifact finishes");
    let path = storage
        .resolve_transfer_artifact(&artifact.id)
        .expect("artifact resolves");

    assert!(storage
        .delete_temporary_transfer_artifact(&artifact.id)
        .expect("temporary artifact deletes"));
    assert!(!storage.files.contains_key(&path));
    assert!(!storage
        .delete_temporary_transfer_artifact(&artifact.id)
        .expect("repeated deletion is idempotent"));
    assert!(matches!(
        storage.resolve_transfer_artifact(&artifact.id),
        Err(StorageError::TransferArtifactNotFound(_))
    ));

    let task_id = task(&mut storage, 90);
    storage.start_transfer_task(task_id).expect("task starts");
    let writer = storage
        .begin_transfer_artifact(Some(task_id), "retained.csv", "text/csv", "CSV", "csv", None)
        .expect("task artifact begins");
    storage.write_all(&writer, b"id\n2\n");
    let retained = storage.finish(writer).expect("task artifact finishes");
    let retained_path = storage
        .resolve_transfer_artifact(&retained.id)
        .expect("task artifact resolves");
    assert!(!storage
        .delete_temporary_transfer_artifact(&retained.id)
        .expect("task artifact is not eligible for temporary cleanup"));
    assert!(storage.files.contains_key(&retained_path));
}

fn terminal_transition_with_broken_prune(
    transition: fn(&mut Store, i64) -> Result<(), StorageError>,
) {
    let mut storage = Store::open();
    let oldest = task(&mut storage, 0);
    for suffix in 1..21 {
        task(&mut storage, suffix);
    }
    storage.refuse_removal = true;
    transition(&mut storage, oldest)
        .expect("post-commit pruning cannot reverse a terminal transition");
}

#[test]
fn terminal_transitions_ignore_post_commit_prune_failures() {
    terminal_transition_with_broken_prune(|storage, id| {
        storage.start_transfer_task(id)?;
        storage.complete_transfer_task(id, "done")
    });
    terminal_transition_with_broken_prune(|storage, id| {
        storage.fail_transfer_task(id, "expected failure")
    });
    terminal_transition_with_broken_prune(|storage, id| {
        storage.cancel_transfer_task(id, "cancelled")
    });
}

#[test]
fn committed_task_survives_post_commit_prune_cleanup_failure() {
    let mut storage = Store::open();
    let oldest = task(&mut storage, 100);
    storage.start_transfer_task(oldest).expect("task starts");
    let writer = storage
        .begin_transfer_artifact(Some(oldest), "old.csv", "text/csv", "CSV", "csv", None)
        .expect("artifact begins");
    storage.write_all(&writer, b"id\n1\n");
    let artifact = storage.finish(writer).expect("artifact finishes");
    let artifact_path = storage
        .resolve_transfer_artifact(&artifact.id)
        .expect("artifact resolves");
    storage.refuse_removal = true;

    for suffix in 101..120 {
        task(&mut storage, suffix);
    }
    let accepted = storage
        .create_transfer_task(input(120))
        .expect("committed task remains accepted when cleanup fails");

    assert_eq!(accepted.status, StoredTransferTaskStatus::Queued);
    assert_eq!(
        storage
            .get_transfer_task(accepted.id)
            .expect("task reads")
            .expect("task exists"),
        accepted
    );
    assert!(
        storage.files.contains_key(&artifact_path),
        "cleanup failure fixture must remain isolated from task acceptance"
    );
}

#[test]
fn dropping_writer_removes_partial_file_and_restart_interrupts_running_tasks() {
    let mut storage = Store::open();
    let id = task(&mut storage, 2);
    storage.start_transfer_task(id).expect("task starts");
    let writer = storage
        .begin_transfer_artifact(Some(id), "items.sql", "application/sql", "SQL", "sql", None)
        .expect("artifact begins");
    let partial = writer.pending.part_name.clone();
    storage.drop_writer(writer);
    assert!(!storage.files.contains_key(&partial));

    let report = storage.reopen();
    assert_eq!(report.transfers.interrupted_tasks, 1);
    assert_eq!(
        storage
            .get_transfer_task(id)
            .expect("task reads")
            .expect("task exists")
            .status,
        StoredTransferTaskStatus::Interrupted
    );
}

#[test]
fn failed_artifact_publish_removes_the_renamed_file() {
    let mut storage = Store::open();
    let id = task(&mut storage, 3);
    storage.start_transfer_task(id).expect("task starts");
    let writer = storage
        .begin_transfer_artifact(Some(id), "items.csv", "text/csv", "CSV", "csv", None)
        .expect("artifact begins");
    storage.write_all(&writer, b"id\n1\n");
    storage
        .request_transfer_cancel(id)
        .expect("running task cancellation records");

    assert!(storage.finish(writer).is_err(), "cancelled task cannot publish");
    assert_eq!(
        storage.files.len(),
        0,
        "failed publication must remove partial and final files"
    );
}

#[test]
fn recovery_removes_expired_partial_and_orphan_artifacts() {
    let mut storage = Store::open();
    let timestamp = storage.now;
    let writer = storage
        .begin_transfer_artifact(
            None,
            "temporary.csv",
            "text/csv",
            "CSV",
            "csv",
            Some(timestamp + 10_000),
        )
        .expect("temporary artifact begins");
    storage.write_all(&writer, b"id\n1\n");
    let artifact = storage.finish(writer).expect("temporary artifact finishes");
    let artifact_path = storage
        .resolve_transfer_artifact(&artifact.id)
        .expect("temporary artifact resolves");
    storage.files.insert("stranded.part".to_owned(), b"partial".to_vec());
    storage.files.insert("orphan.bin".to_owned(), b"orphan".to_vec());

    let report = storage.recover_transfers_at(timestamp + 20_000);
    assert_eq!(report.expired_artifacts, 1);
    assert_eq!(report.partial_files_removed, 1);
    assert_eq!(report.orphan_files_removed, 1);
    assert!(!storage.files.contains_key(&artifact_path));
    assert!(!storage.files.contains_key("stranded.part"));
    assert!(!storage.files.contains_key("orphan.bin"));
}

#[test]
fn only_twenty_terminal_tasks_are_retained_with_their_artifacts() {
    let mut storage = Store::open();
    for suffix in 0..21 {
        let id = task(&mut storage, suffix);
        storage.start_transfer_task(id).expect("task starts");
        storage
            .fail_transfer_task(id, "expected test failure")
            .expect("task fails");
    }
    let tasks = storage.list_transfer_tasks().expect("tasks list");
    assert_eq!(tasks.len(), 20);
    assert!(tasks.iter().all(|task| task.id != 1));
}

#[test]
fn progress_is_recorded_only_while_a_task_runs() {
    let mut storage = Store::open();
    let id = task(&mut storage, 1);
    let progress = |current| TransferProgress {
        current,
        total: Some(10),
        description: "exporting".to_owned(),
        info: Some("line".to_owned()),
    };
    assert!(matches!(
        Storage::update_transfer_progress(id, progress(1), storage.find(id), 2_000),
        Err(StorageError::InvalidTransfer(_))
    ));
    storage.start_transfer_task(id).expect("task starts");
    let running = Storage::update_transfer_progress(id, progress(3), storage.find(id), 2_000)
        .expect("progress records");
    assert_eq!((running.progress_current, running.progress_total), (3, Some(10)));
    assert_eq!(running.progress_description, "exporting");
    assert!(running.info_log.ends_with("line"));
    assert!(matches!(
        Storage::update_transfer_progress(99, progress(1), None, 2_000),
        Err(StorageError::TransferTaskNotFound(99))
    ));
}

#[test]
fn a_queued_task_is_cancelled_at_once_and_an_ended_one_stays() {
    let mut storage = Store::open();
    let id = task(&mut storage, 1);
    assert!(storage.request_transfer_cancel(id).expect("cancellation records"));
    let cancelled = storage.find(id);
    assert!(Storage::transfer_cancel_requested(id, &cancelled).expect("flag reads"));
    let ended = task(&mut storage, 2);
    storage.start_transfer_task(ended).expect("task starts");
    storage.complete_transfer_task(ended, "done").expect("task completes");
    assert!(!storage.request_transfer_cancel(ended).expect("nothing records"));
    assert!(matches!(
        storage.fail_transfer_task(ended, "late"),
        Err(StorageError::InvalidTransfer(_))
    ));
    assert!(matches!(
        storage.request_transfer_cancel(99),
        Err(StorageError::TransferTaskNotFound(99))
    ));
}

#[test]
fn logs_keep_their_tail() {
    assert_eq!(append_log(String::new(), "first"), "first");
    assert_eq!(append_log("first".to_owned(), "second"), "first\nsecond");
    let long = append_log("a".repeat(256 * 1024), "end");
    assert_eq!(long.chars().count(), 256 * 1024);
    assert!(long.ends_with("a\nend"));
}

#[test]
fn managed_names_are_plain_file_names() {
    assert!(validate_storage_name("0f1e-2d.csv").is_ok());
    for name in ["", "../a", "a/b", "a\\b"] {
        assert!(validate_storage_name(name).is_err(), "{name}");
    }
    assert!(is_partial_name("stranded.part"));
    assert!(!is_partial_name("orphan.bin"));
}

#[test]
fn file_names_are_single_components_on_each_system() {
    for name in ["", ".", "..", "a/b", "/a", "../outside.csv"] {
        assert!(!is_plain_file_name(PathStyle::Unix, name), "{name}");
        assert!(!is_plain_file_name(PathStyle::Windows, name), "{name}");
    }
    for name in ["a\\b", "..\\outside.csv", "C:", "c:a.csv"] {
        assert!(is_plain_file_name(PathStyle::Unix, name), "{name}");
        assert!(!is_plain_file_name(PathStyle::Windows, name), "{name}");
    }
    for name in ["items.csv", "...", "1:a", "ab:c", ":a"] {
        assert!(is_plain_file_name(PathStyle::Unix, name), "{name}");
        assert!(is_plain_file_name(PathStyle::Windows, name), "{name}");
    }
}

#[test]
fn recovery_decides_the_fate_of_each_file() {
    let expired = vec!["old.csv".to_owned(), "old.part".to_owned(), "odd name.csv".to_owned()];
    let known = vec!["kept.csv".to_owned(), "kept.PART".to_owned()];
    for (name, fate) in [
        ("old.csv", FileFate::Expired),
        ("old.part", FileFate::Expired),
        ("odd name.csv", FileFate::Orphan),
        ("kept.csv", FileFate::Kept),
        ("kept.PART", FileFate::Partial),
        (".part", FileFate::Orphan),
        ("stray.csv", FileFate::Orphan),
    ] {
        assert_eq!(Storage::transfer_file_fate(name, &expired, &known), fate, "{name}");
    }
}

#[test]
fn an_artifact_digest_does_not_depend_on_how_the_bytes_arrive() {
    let whole = ArtifactDigest::new().update(b"abc").expect("bytes count");
    let parts = ArtifactDigest::new()
        .update(b"a")
        .expect("bytes count")
        .update(b"bc")
        .expect("bytes count");
    assert_eq!(whole.byte_count(), 3);
    assert_eq!(parts.byte_count(), 3);
    let digest = whole.finish();
    assert_eq!(digest, parts.finish());
    assert_eq!(
        digest[..4],
        [0xba, 0x78, 0x16, 0xbf],
        "the SHA-256 digest of abc begins with these bytes"
    );
}

#[test]
fn an_expired_or_escaped_artifact_is_not_served() {
    let mut storage = Store::open();
    let writer = storage
        .begin_transfer_artifact(None, "a.csv", "text/csv", "CSV", "csv", Some(5_000))
        .expect("artifact begins");
    let artifact = storage.finish(writer).expect("artifact finishes");
    storage.now = 5_000;
    assert!(matches!(
        storage.resolve_transfer_artifact(&artifact.id),
        Err(StorageError::TransferArtifactNotFound(id)) if id == artifact.id
    ));
    assert!(matches!(
        Storage::check_artifact_path(ArtifactPath { regular: true, inside: false }),
        Err(StorageError::Integrity("transfer artifact escaped the managed directory"))
    ));
}

#[test]
fn artifact_rows_read_back() {
    let raw = RawTransferArtifact {
        id: "artifact".to_owned(),
        task_id: Some(1),
        storage_name: "artifact.csv".to_owned(),
        file_name: "items.csv".to_owned(),
        media_type: "text/csv".to_owned(),
        format: "CSV".to_owned(),
        byte_count: 3,
        sha256: vec![7; 32],
        created_at_ms: 1,
        expires_at_ms: None,
    };
    let row = decode_transfer_artifact(raw.clone()).expect("artifact decodes");
    assert_eq!((row.record.byte_count, row.record.sha256), (3, [7; 32]));
    assert_eq!(row.storage_name, "artifact.csv");
    let short = RawTransferArtifact { sha256: vec![7; 31], ..raw.clone() };
    assert!(matches!(
        decode_transfer_artifact(short),
        Err(StorageError::Sqlite("artifact digest is not SHA-256"))
    ));
    let negative = RawTransferArtifact { byte_count: -1, ..raw };
    assert!(matches!(
        decode_transfer_artifact(negative),
        Err(StorageError::Sqlite("artifact byte count is out of range"))
    ));
}

#[test]
fn transfer_values_are_bounded_and_read_back() {
    let mut storage = Store::open();
    let mut nameless = input(1);
    nameless.task_name = " ".to_owned();
    assert!(matches!(
        storage.create_transfer_task(nameless),
        Err(StorageError::InvalidTransfer(_))
    ));
    for status in ["queued", "running", "succeeded", "failed", "cancelled", "interrupted"] {
        let read = StoredTransferTaskStatus::parse(status).expect("status reads");
        assert_eq!(read.as_str(), status);
    }
    assert!(StoredTransferTaskStatus::parse("paused").is_err());
    assert!(StoredTransferTaskKind::parse("unknown").is_err());
    let id = task(&mut storage, 1);
    let mut damaged = row(&storage.find(id).expect("task exists"));
    damaged.progress_current = -1;
    assert!(matches!(
        Storage::get_transfer_task(Some(damaged)),
        Err(StorageError::Sqlite("transfer progress is out of range"))
    ));
    let broken = |change: fn(&mut RawTransferTask)| {
        let mut raw = row(&storage.find(id).expect("task exists"));
        change(&mut raw);
        Storage::get_transfer_task(Some(raw)).expect_err("a broken row is refused")
    };
    assert!(matches!(
        broken(|raw| raw.progress_total = Some(-1)),
        StorageError::Sqlite("transfer progress total is out of range")
    ));
    assert!(matches!(
        broken(|raw| raw.kind = "unknown".to_owned()),
        StorageError::Sqlite("transfer task has an invalid kind")
    ));
    assert!(matches!(
        broken(|raw| raw.status = "paused".to_owned()),
        StorageError::Sqlite("transfer task has an invalid status")
    ));
}

#[test]
fn a_second_recovery_of_transfers_finds_nothing() {
    let mut storage = Store::open();
    let timestamp = storage.now;
    storage.create_transfer_task(input(1)).expect("task creates");
    let writer = storage
        .begin_transfer_artifact(None, "a.csv", "text/csv", "CSV", "csv", Some(timestamp + 10_000))
        .expect("artifact begins");
    storage.write_all(&writer, b"a");
    storage.finish(writer).expect("artifact finishes");
    let kept = storage
        .begin_transfer_artifact(None, "b.csv", "text/csv", "CSV", "csv", None)
        .expect("artifact begins");
    storage.write_all(&kept, b"b");
    storage.finish(kept).expect("artifact finishes");
    storage.files.insert("orphan.bin".to_owned(), b"orphan".to_vec());
    let first = storage.recover_transfers_at(timestamp + 10_000);
    assert_eq!(
        (first.interrupted_tasks, first.expired_artifacts, first.orphan_files_removed),
        (1, 1, 1)
    );
    assert_eq!(
        storage.recover_transfers_at(timestamp + 10_000),
        TransferRecoveryReport {
            interrupted_tasks: 0,
            expired_artifacts: 0,
            partial_files_removed: 0,
            orphan_files_removed: 0,
        }
    );
    assert_eq!(storage.files.len(), 1);
}
