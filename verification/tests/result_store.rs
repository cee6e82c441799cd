use std::collections::BTreeMap;
use std::time::Duration;

use chat2db_storage::identity::fresh_id;
use chat2db_storage::result::batch::{
    validate_schema, JdbcRow, ProtocolLimits, QueryStarted, RowBatch, MAX_BATCH_BYTES,
};
use chat2db_storage::result::frame::{check_frame_index, encode_frame, open_frame};
use chat2db_storage::result::naming::{is_result_file_name, result_file_name, result_file_stem};
use chat2db_storage::result::page::{ChunkRead, PageReader};
use chat2db_storage::result::quota::{FileEntry, IndexedBytes};
use chat2db_storage::result::read::{
    requested_end, select_page_chunks, ResultFile, SchemaRead,
};
use chat2db_storage::result::recovery::{
    validate_completed_result, CheckedResult, Disposition, ExpiryRow,
};
use chat2db_storage::result::rows::{
    decode_chunk, decode_result, encode_chunk, ChunkIndex, QueryCompleted, RawChunk, RawResult,
    StoredResult,
};
use chat2db_storage::result::writer::{ChunkCommit, CompletionCommit, ResultWriter};
use chat2db_storage::{
    CommitOutcome, PageRequest, PurgeReport, Readback, RecoveryReport, ResultMetadata, ResultPage,
    Storage, StorageError, StorageOptions, MIN_RESULT_PAGE_BYTES,
};
use prost::Message;
use sha2::Digest;

const LIMITS: ProtocolLimits = ProtocolLimits {
    max_batch_rows: 1_024,
    max_columns: 4_096,
    max_frame_bytes: 16 * 1024 * 1024,
};

fn schema() -> QueryStarted {
    QueryStarted {
        columns: 1,
        payload: "value".to_owned().encode_to_vec(),
    }
}

fn decode_schema(payload: &[u8]) -> Option<QueryStarted> {
    String::decode(payload).ok().map(|label| QueryStarted {
        columns: 1,
        payload: label.encode_to_vec(),
    })
}

fn row(value: &str) -> JdbcRow {
    JdbcRow {
        width: 1,
        encoded: value.to_owned().encode_to_vec(),
    }
}

fn rows(start: u64, values: &[&str]) -> RowBatch {
    let mut payload = Vec::new();
    start.encode_length_delimited(&mut payload).expect("offset encodes");
    for value in values {
        (*value).to_owned().encode_length_delimited(&mut payload).expect("row encodes");
    }
    RowBatch {
        start_row_offset: start,
        rows: values.iter().map(|value| row(value)).collect(),
        payload,
    }
}

fn decode_batch(payload: &[u8]) -> Option<RowBatch> {
    let mut rest = payload;
    let start_row_offset = u64::decode_length_delimited(&mut rest).ok()?;
    let mut rows = Vec::new();
    while !rest.is_empty() {
        rows.push(row(&String::decode_length_delimited(&mut rest).ok()?));
    }
    Some(RowBatch {
        start_row_offset,
        rows,
        payload: payload.to_vec(),
    })
}

fn completed(row_count: u64) -> QueryCompleted {
    QueryCompleted {
        row_count,
        truncated_by_max_rows: false,
        truncated_by_max_result_bytes: false,
    }
}

#[derive(Clone, Copy, PartialEq, Eq)]
enum FaultPoint {
    BeginAfterCommit,
    ChunkBeforeCommit,
    ChunkAfterCommit,
    CompletionAfterCommit,
    CompletionReadback,
}

/// An index and a results directory in memory, driven by the rules of the library.
struct Store {
    rules: Storage,
    results: Vec<RawResult>,
    chunks: Vec<(String, RawChunk)>,
    files: BTreeMap<String, Vec<u8>>,
    leases: Vec<String>,
    faults: Vec<FaultPoint>,
    now: i64,
}

fn injected() -> StorageError {
    StorageError::Integrity("injected commit failure")
}

impl Store {
    fn open() -> Store {
        Store::open_with_options(StorageOptions::default())
    }

    fn open_with_options(options: StorageOptions) -> Store {
        Store {
            rules: Storage::open_with_options(options).expect("options are valid"),
            results: Vec::new(),
            chunks: Vec::new(),
            files: BTreeMap::new(),
            leases: Vec::new(),
            faults: Vec::new(),
            now: 1_000_000,
        }
    }

    fn take_fault(&mut self, point: FaultPoint) -> bool {
        match self.faults.iter().position(|fault| *fault == point) {
            Some(index) => {
                self.faults.remove(index);
                true
            }
            None => false,
        }
    }

    fn index(&self) -> Vec<IndexedBytes> {
        self.results
            .iter()
            .map(|result| IndexedBytes {
                id: result.id.clone(),
                committed_length: result.committed_length,
            })
            .collect()
    }

    fn directory(&self) -> Vec<FileEntry> {
        self.files
            .iter()
            .map(|(name, bytes)| FileEntry {
                name: name.clone(),
                length: bytes.len() as u64,
            })
            .collect()
    }

    fn path(&self, id: &str) -> String {
        result_file_name(id).expect("result path")
    }

    fn raw(&mut self, id: &str) -> &mut RawResult {
        self.results
            .iter_mut()
            .find(|result| result.id == id)
            .expect("result is indexed")
    }

    fn load_stored_result(&self, id: &str) -> Option<StoredResult> {
        self.results
            .iter()
            .find(|result| result.id == id)
            .map(|raw| decode_result(raw.clone()).expect("result row reads"))
    }

    fn load_chunks(&self, id: &str) -> Vec<ChunkIndex> {
        self.chunks
            .iter()
            .filter(|(owner, _)| owner == id)
            .map(|(_, raw)| decode_chunk(raw.clone()).expect("chunk row reads"))
            .collect()
    }

    fn begin_result(&mut self, schema: &QueryStarted) -> Result<ResultWriter, StorageError> {
        let new = self.rules.begin_result(
            fresh_id(),
            schema,
            &LIMITS,
            &Duration::from_secs(60),
            self.now,
            self.index(),
            &self.directory(),
        )?;
        self.insert(new)
    }

    fn begin_result_at(
        &mut self,
        schema: &QueryStarted,
        created_at_ms: i64,
        expires_at_ms: i64,
    ) -> Result<ResultWriter, StorageError> {
        let new = self.rules.begin_result_at(
            fresh_id(),
            schema,
            &LIMITS,
            created_at_ms,
            expires_at_ms,
            self.index(),
            &self.directory(),
        )?;
        self.insert(new)
    }

    fn insert(
        &mut self,
        new: chat2db_storage::result::writer::NewResult,
    ) -> Result<ResultWriter, StorageError> {
        self.files.insert(new.file_name.clone(), new.frame.clone());
        self.results.push(RawResult {
            id: new.row.id.clone(),
            format_version: new.row.format_version,
            state: new.row.state.as_str().to_owned(),
            schema_frame_length: new.row.schema_frame_length as i64,
            schema_sha256: new.row.schema_sha256.clone(),
            committed_length: new.row.committed_length as i64,
            row_count: new.row.row_count as i64,
            truncated_by_max_rows: new.row.truncated_by_max_rows,
            truncated_by_max_result_bytes: new.row.truncated_by_max_result_bytes,
            created_at_ms: new.row.created_at_ms,
            expires_at_ms: new.row.expires_at_ms,
        });
        if self.take_fault(FaultPoint::BeginAfterCommit) {
            let seen = Readback::Found(self.load_stored_result(&new.row.id));
            match Storage::reconcile_result_begin(&new, &seen) {
                CommitOutcome::Applied(()) => {}
                CommitOutcome::NotApplied => return Err(injected()),
                CommitOutcome::Unknown(error) => return Err(error),
            }
        }
        self.leases.push(new.row.id.clone());
        Ok(new.into_writer())
    }

    fn append_batch(
        &mut self,
        writer: &mut ResultWriter,
        batch: &RowBatch,
    ) -> Result<(), StorageError> {
        writer.append_batch(&self.rules, batch, &LIMITS, self.index(), &self.directory())?;
        let id = writer.id().to_owned();
        let path = self.path(&id);
        let staged = writer.staged().expect("chunk is staged");
        self.files
            .get_mut(&path)
            .expect("result file exists")
            .extend_from_slice(&staged.frame);
        let current = self.load_stored_result(&id);
        let (chunk, advance) = Storage::commit_chunk(&current, staged)?;
        let ordinal = staged.chunk.ordinal;
        let lost = self.take_fault(FaultPoint::ChunkBeforeCommit);
        if !lost {
            self.chunks.push((id.clone(), chunk));
            let raw = self.raw(&id);
            raw.committed_length = advance.committed_length;
            raw.row_count = advance.row_count;
        }
        let commit = if lost || self.take_fault(FaultPoint::ChunkAfterCommit) {
            ChunkCommit::Seen {
                result: self.load_stored_result(&id),
                chunk: self.load_chunks(&id).into_iter().find(|chunk| chunk.ordinal == ordinal),
            }
        } else {
            ChunkCommit::Committed
        };
        match writer.settle_batch(&commit)? {
            true => Ok(()),
            false => Err(injected()),
        }
    }

    fn release(&mut self, id: &str) {
        self.leases.retain(|lease| lease != id);
    }

    fn reclaim(&mut self, id: &str) {
        self.release(id);
        let path = self.path(id);
        self.files.remove(&path);
        self.results.retain(|result| result.id != id);
        self.chunks.retain(|(owner, _)| owner != id);
    }

    fn drop_writer(&mut self, writer: ResultWriter) {
        let id = writer.id().to_owned();
        self.reclaim(&id);
    }

    fn leak_writer(&mut self, writer: ResultWriter) {
        let id = writer.id().to_owned();
        self.release(&id);
    }

    fn finish(
        &mut self,
        mut writer: ResultWriter,
        completed: &QueryCompleted,
    ) -> Result<ResultMetadata, StorageError> {
        let id = writer.id().to_owned();
        if let Err(error) = writer.check_completion(completed) {
            self.drop_writer(writer);
            return Err(error);
        }
        let current = self.load_stored_result(&id);
        let advance = Storage::commit_completion(&current, completed, writer.committed_length())?;
        let raw = self.raw(&id);
        raw.state = "complete".to_owned();
        raw.committed_length = advance.committed_length;
        raw.row_count = advance.row_count;
        raw.truncated_by_max_rows = completed.truncated_by_max_rows;
        raw.truncated_by_max_result_bytes = completed.truncated_by_max_result_bytes;
        let commit = if self.take_fault(FaultPoint::CompletionAfterCommit) {
            if self.take_fault(FaultPoint::CompletionReadback) {
                CompletionCommit::Failed(Readback::Unreadable)
            } else {
                CompletionCommit::Failed(Readback::Found(self.load_stored_result(&id)))
            }
        } else {
            CompletionCommit::Committed
        };
        self.release(&id);
        match writer.finish(completed, &commit) {
            CommitOutcome::Applied(metadata) => Ok(metadata),
            CommitOutcome::NotApplied => {
                self.reclaim(&id);
                Err(injected())
            }
            CommitOutcome::Unknown(error) => Err(error),
        }
    }

    fn result_metadata_at(
        &self,
        id: &str,
        timestamp: i64,
    ) -> Result<Option<ResultMetadata>, StorageError> {
        Storage::result_metadata_at(&self.load_stored_result(id), timestamp)
    }

    fn result_metadata(&self, id: &str) -> Result<Option<ResultMetadata>, StorageError> {
        self.result_metadata_at(id, self.now)
    }

    fn slice(&self, id: &str, offset: u64, length: u64) -> Vec<u8> {
        let Some(bytes) = self.files.get(&self.path(id)) else {
            return Vec::new();
        };
        let start = (offset as usize).min(bytes.len());
        let end = ((offset + length) as usize).min(bytes.len());
        bytes[start..end].to_vec()
    }

    fn read_first(&self, stored: &StoredResult) -> SchemaRead {
        let frame = self.slice(&stored.id, 0, stored.schema_frame_length);
        let schema = frame.get(4..).and_then(decode_schema);
        SchemaRead { frame, schema }
    }

    fn read_chunk(&self, id: &str, chunk: ChunkIndex) -> ChunkRead {
        let frame = self.slice(id, chunk.file_offset, chunk.frame_length);
        let batch = frame.get(4..).and_then(decode_batch);
        ChunkRead { chunk, frame, batch }
    }

    fn read_result_page(
        &self,
        id: &str,
        request: PageRequest,
    ) -> Result<ResultPage, StorageError> {
        let id = id.to_owned();
        let found = Storage::open_result_page(&id, &request, self.now, self.load_stored_result(&id))?;
        let file = match self.files.get(&self.path(&id)) {
            Some(bytes) => ResultFile::Length(bytes.len() as u64),
            None => ResultFile::Missing,
        };
        let end = requested_end(&request, found.row_count);
        let reads = select_page_chunks(self.load_chunks(&id), request.offset, end)
            .into_iter()
            .map(|chunk| self.read_chunk(&id, chunk))
            .collect();
        let first = self.read_first(&found);
        Storage::read_result_page_at(
            &id,
            &request,
            self.now,
            &LIMITS,
            Some(found),
            &file,
            first,
            reads,
        )
    }

    fn remove_orphans(&mut self) -> Vec<String> {
        let ids: Vec<String> = self.results.iter().map(|result| result.id.clone()).collect();
        let names: Vec<String> = self.files.keys().cloned().collect();
        let orphans = Storage::orphan_files(&ids, &names).expect("result ids are valid");
        for name in &orphans {
            self.files.remove(name);
        }
        orphans
    }

    fn recover_at(&mut self, timestamp: i64) -> Result<RecoveryReport, StorageError> {
        let results = Storage::load_results(self.results.clone())?;
        let mut checked = Vec::new();
        for result in results {
            let id = result.id.clone();
            let path = self.path(&id);
            let length = self.files.get(&path).map(|bytes| bytes.len() as u64);
            let first = self.read_first(&result);
            let reads = self
                .load_chunks(&id)
                .into_iter()
                .map(|chunk| self.read_chunk(&id, chunk))
                .collect();
            let check = validate_completed_result(&result, &LIMITS, length, first, reads);
            if let (Ok(true), Some(file)) = (&check, self.files.get_mut(&path)) {
                file.truncate(result.committed_length as usize);
            }
            checked.push(CheckedResult { result, check });
        }
        let names = self.files.keys().cloned().collect();
        let recovery = Storage::recover_at(checked, &names, timestamp);
        for id in &recovery.removed {
            self.reclaim(id);
        }
        for name in &recovery.orphans {
            self.files.remove(name);
        }
        recovery.outcome
    }

    fn restart(&mut self) -> RecoveryReport {
        self.leases.clear();
        self.recover_at(self.now).expect("storage recovers")
    }

    fn purge_expired_at(&mut self, timestamp: i64) -> PurgeReport {
        let rows: Vec<ExpiryRow> = self
            .results
            .iter()
            .map(|result| ExpiryRow {
                id: result.id.clone(),
                committed_length: result.committed_length,
                state: result.state.clone(),
                expires_at_ms: result.expires_at_ms,
            })
            .collect();
        let (removed, bytes) = Storage::purge_expired_at(&rows, &self.leases, timestamp);
        for id in &removed {
            self.reclaim(id);
        }
        let orphans = self.remove_orphans();
        Storage::purge_report(&removed, bytes, &orphans)
    }
}

fn one_row(storage: &mut Store) -> ResultMetadata {
    let mut writer = storage.begin_result(&schema()).expect("result begins");
    storage
        .append_batch(&mut writer, &rows(0, &["one"]))
        .expect("batch appends");
    storage.finish(writer, &completed(1)).expect("result completes")
}

#[test]
fn pages_across_chunks_and_inside_batch_boundaries() {
    let mut storage = Store::open();
    let mut writer = storage.begin_result(&schema()).expect("result begins");
    storage
        .append_batch(&mut writer, &rows(0, &["zero", "one", "two"]))
        .expect("first batch appends");
    storage
        .append_batch(&mut writer, &rows(3, &["three", "four", "five"]))
        .expect("second batch appends");
    let metadata = storage.finish(writer, &completed(6)).expect("result completes");

    let page = storage
        .read_result_page(
            &metadata.id,
            PageRequest {
                offset: 2,
                max_rows: 3,
                ..PageRequest::default()
            },
        )
        .expect("page reads");
    assert_eq!(page.rows.len(), 3);
    assert_eq!(page.rows[0], rows(0, &["two"]).rows[0]);
    assert_eq!(page.rows[2], rows(0, &["four"]).rows[0]);
    assert!(page.has_more);
}

#[test]
fn page_byte_budget_stops_before_the_next_large_row() {
    let mut storage = Store::open();
    let value = "x".repeat(4_194_300);
    let mut writer = storage.begin_result(&schema()).expect("result begins");
    storage
        .append_batch(&mut writer, &rows(0, &[&value]))
        .expect("first large batch appends");
    storage
        .append_batch(&mut writer, &rows(1, &[&value]))
        .expect("second large batch appends");
    let metadata = storage.finish(writer, &completed(2)).expect("result completes");

    let page = storage
        .read_result_page(
            &metadata.id,
            PageRequest {
                max_bytes: MIN_RESULT_PAGE_BYTES,
                ..PageRequest::default()
            },
        )
        .expect("bounded page reads");
    assert_eq!(page.rows.len(), 1);
    assert!(page.has_more);
}

#[test]
fn quota_failure_poisons_the_writer_before_file_growth() {
    let mut storage = Store::open_with_options(StorageOptions {
        max_retained_bytes: 256,
    });
    let mut writer = storage.begin_result(&schema()).expect("schema fits quota");
    let path = storage.path(writer.id());
    let initial_length = storage.files[&path].len();
    let error = storage
        .append_batch(&mut writer, &rows(0, &[&"x".repeat(1024)]))
        .expect_err("batch must exceed quota");
    assert!(matches!(error, StorageError::QuotaExceeded { .. }));
    assert_eq!(storage.files[&path].len(), initial_length);
    let poisoned = storage
        .append_batch(&mut writer, &rows(0, &["small"]))
        .expect_err("quota failure poisons writer");
    assert!(matches!(
        poisoned,
        StorageError::InvalidResult("result writer is poisoned")
    ));
}

#[test]
fn a_poisoned_writer_takes_no_further_batch() {
    let mut storage = Store::open();
    let mut writer = storage.begin_result(&schema()).expect("schema fits quota");
    storage.append_batch(&mut writer, &rows(0, &["first"])).expect("batch appends");
    writer.poison();
    let error = storage
        .append_batch(&mut writer, &rows(1, &["second"]))
        .expect_err("poisoned writer must fail");
    assert!(matches!(
        error,
        StorageError::InvalidResult("result writer is poisoned")
    ));
}

#[test]
fn empty_completed_result_retains_its_schema() {
    let mut storage = Store::open();
    let writer = storage.begin_result(&schema()).expect("result begins");
    let metadata = storage.finish(writer, &completed(0)).expect("result completes");

    let page = storage
        .read_result_page(&metadata.id, PageRequest::default())
        .expect("empty page reads");
    assert_eq!(page.schema, schema());
    assert!(page.rows.is_empty());
    assert!(!page.has_more);
}

#[test]
fn result_writes_reconcile_every_post_commit_failure() {
    let mut storage = Store::open();
    storage.faults = vec![
        FaultPoint::BeginAfterCommit,
        FaultPoint::ChunkAfterCommit,
        FaultPoint::CompletionAfterCommit,
    ];

    let mut writer = storage
        .begin_result(&schema())
        .expect("committed begin reconciles");
    storage
        .append_batch(&mut writer, &rows(0, &["one"]))
        .expect("committed chunk reconciles");
    let metadata = storage
        .finish(writer, &completed(1))
        .expect("committed completion reconciles");
    let page = storage
        .read_result_page(&metadata.id, PageRequest::default())
        .expect("reconciled result reads");
    assert_eq!(page.rows, rows(0, &["one"]).rows);
}

#[test]
fn result_chunk_pre_commit_failure_is_proven_rolled_back_and_reclaimed() {
    let mut storage = Store::open();
    let mut writer = storage.begin_result(&schema()).expect("result begins");
    let id = writer.id().to_owned();
    let path = storage.path(&id);
    storage.faults = vec![FaultPoint::ChunkBeforeCommit];

    let error = storage
        .append_batch(&mut writer, &rows(0, &["one"]))
        .expect_err("pre-commit failure must surface");
    assert!(matches!(error, StorageError::Integrity(_)));
    storage.drop_writer(writer);
    assert!(!storage.files.contains_key(&path));
    assert!(storage.load_stored_result(&id).is_none());
}

#[test]
fn unreadable_completion_outcome_is_preserved_for_later_recovery() {
    let mut storage = Store::open();
    let mut writer = storage.begin_result(&schema()).expect("result begins");
    storage
        .append_batch(&mut writer, &rows(0, &["one"]))
        .expect("batch appends");
    let id = writer.id().to_owned();
    storage.faults = vec![
        FaultPoint::CompletionAfterCommit,
        FaultPoint::CompletionReadback,
    ];

    let error = storage
        .finish(writer, &completed(1))
        .expect_err("unreadable commit outcome must stay unknown");
    assert!(matches!(
        error,
        StorageError::OutcomeUnknown {
            operation: "complete retained result",
            ..
        }
    ));
    assert!(storage
        .result_metadata(&id)
        .expect("later readback succeeds")
        .is_some());
}

#[test]
fn failed_append_poisons_the_writer() {
    let mut storage = Store::open();
    let mut writer = storage.begin_result(&schema()).expect("result begins");

    let error = storage
        .append_batch(&mut writer, &rows(9, &["gap"]))
        .expect_err("gap must fail");
    assert!(matches!(error, StorageError::InvalidResult(_)));
    let poisoned = storage
        .append_batch(&mut writer, &rows(0, &["cannot-continue"]))
        .expect_err("poisoned writer must fail");
    assert!(matches!(
        poisoned,
        StorageError::InvalidResult("result writer is poisoned")
    ));
}

#[test]
fn startup_removes_writing_results_and_orphan_files() {
    let mut storage = Store::open();
    let writer = storage.begin_result(&schema()).expect("result begins");
    let writing_id = writer.id().to_owned();
    storage.leak_writer(writer);

    let orphan = storage.path(&fresh_id());
    storage.files.insert(orphan.clone(), b"orphan".to_vec());
    let report = storage.restart();
    assert!(storage
        .result_metadata(&writing_id)
        .expect("metadata reads")
        .is_none());
    assert_eq!(report.writing_removed, 1);
    assert_eq!(report.orphan_files_removed, 1);
    assert!(!storage.files.contains_key(&orphan));
}

#[test]
fn dropping_or_failing_a_writer_reclaims_its_file_and_quota() {
    let mut storage = Store::open();
    let writer = storage.begin_result(&schema()).expect("result begins");
    let dropped_id = writer.id().to_owned();
    let dropped_path = storage.path(&dropped_id);
    storage.drop_writer(writer);
    assert!(!storage.files.contains_key(&dropped_path));
    assert!(storage.load_stored_result(&dropped_id).is_none());

    let mut writer = storage.begin_result(&schema()).expect("second result begins");
    storage
        .append_batch(&mut writer, &rows(0, &["one"]))
        .expect("batch appends");
    let failed_id = writer.id().to_owned();
    let failed_path = storage.path(&failed_id);
    let error = storage
        .finish(writer, &completed(2))
        .expect_err("mismatched completion must fail");
    assert!(matches!(error, StorageError::InvalidResult(_)));
    assert!(!storage.files.contains_key(&failed_path));
    assert!(storage.load_stored_result(&failed_id).is_none());
}

#[test]
fn physical_orphan_bytes_count_toward_the_global_quota() {
    let mut storage = Store::open_with_options(StorageOptions {
        max_retained_bytes: 256,
    });
    let orphan = storage.path(&fresh_id());
    storage.files.insert(orphan, vec![0_u8; 256]);

    let error = match storage.begin_result(&schema()) {
        Err(error) => error,
        Ok(_) => panic!("physical bytes must exhaust quota"),
    };
    assert!(matches!(error, StorageError::QuotaExceeded { .. }));

    let report = storage.purge_expired_at(storage.now);
    assert_eq!(report.orphan_files_removed, 1);
    let writer = storage
        .begin_result(&schema())
        .expect("quota is available after orphan cleanup");
    storage.drop_writer(writer);
}

#[test]
fn startup_truncates_unindexed_tail_but_keeps_complete_result() {
    let mut storage = Store::open();
    let metadata = one_row(&mut storage);
    let path = storage.path(&metadata.id);
    let indexed_length = storage.files[&path].len();

    storage
        .files
        .get_mut(&path)
        .expect("result opens")
        .extend_from_slice(b"unindexed-tail");
    let report = storage.restart();
    assert_eq!(report.tails_truncated, 1);
    assert_eq!(storage.files[&path].len(), indexed_length);
    assert!(storage
        .result_metadata(&metadata.id)
        .expect("metadata reads")
        .is_some());
}

#[test]
fn startup_evicts_missing_truncated_and_hash_corrupt_results() {
    for damage in ["missing", "truncated", "hash"] {
        let mut storage = Store::open();
        let metadata = one_row(&mut storage);
        let path = storage.path(&metadata.id);

        match damage {
            "missing" => {
                storage.files.remove(&path);
            }
            "truncated" => {
                storage.files.get_mut(&path).expect("result opens").pop();
            }
            "hash" => {
                let bytes = storage.files.get_mut(&path).expect("result reads");
                let last = bytes.last_mut().expect("result nonempty");
                *last ^= 0xff;
            }
            _ => unreachable!(),
        }

        let report = storage.restart();
        assert_eq!(report.corrupt_removed, 1);
        assert!(storage
            .result_metadata(&metadata.id)
            .expect("metadata reads")
            .is_none());
    }
}

#[test]
fn startup_preserves_every_newer_result_state_and_fails_closed() {
    for state in ["complete", "writing", "expired"] {
        let mut storage = Store::open();
        let writer = storage.begin_result(&schema()).expect("result begins");
        let metadata = storage.finish(writer, &completed(0)).expect("result completes");
        let path = storage.path(&metadata.id);
        let raw = storage.raw(&metadata.id);
        raw.format_version = 2;
        match state {
            "complete" => {}
            "writing" => raw.state = "writing".to_owned(),
            "expired" => raw.expires_at_ms = 0,
            _ => unreachable!(),
        }

        let error = storage
            .recover_at(storage.now)
            .expect_err("newer result format must stop startup");
        assert!(matches!(
            error,
            StorageError::UnsupportedResultFormat {
                found: 2,
                supported: 1,
                ..
            }
        ));
        let retained = storage
            .results
            .iter()
            .filter(|result| result.id == metadata.id)
            .count();
        assert_eq!(retained, 1, "state {state}");
        assert!(storage.files.contains_key(&path), "state {state}");
    }
}

#[test]
fn startup_evicts_a_noncontiguous_chunk_index_idempotently() {
    let mut storage = Store::open();
    let metadata = one_row(&mut storage);
    let (_, chunk) = &mut storage.chunks[0];
    chunk.start_row = 1;
    chunk.end_row_exclusive = 2;

    let report = storage.restart();
    assert_eq!(report.corrupt_removed, 1);
    assert!(storage
        .result_metadata(&metadata.id)
        .expect("metadata reads")
        .is_none());
    let second = storage.restart();
    assert_eq!(second, RecoveryReport::default());
}

#[test]
fn expired_complete_results_are_purged_idempotently() {
    let mut storage = Store::open();
    let created = storage.now;
    let writer = storage
        .begin_result_at(&schema(), created, created + 10)
        .expect("result begins");
    let metadata = storage.finish(writer, &completed(0)).expect("result completes");

    let report = storage.purge_expired_at(created + 10);
    assert_eq!(report.results_removed, 1);
    assert!(storage
        .result_metadata_at(&metadata.id, created + 10)
        .expect("metadata")
        .is_none());
    assert_eq!(storage.purge_expired_at(created + 10).results_removed, 0);
}

#[test]
fn runtime_expiry_does_not_delete_an_active_writer() {
    let mut storage = Store::open();
    let created = storage.now;
    let mut writer = storage
        .begin_result_at(&schema(), created, created + 1)
        .expect("result begins");

    assert_eq!(storage.purge_expired_at(created + 1).results_removed, 0);
    storage
        .append_batch(&mut writer, &rows(0, &["still-owned"]))
        .expect("active writer remains valid");
}

#[test]
fn runtime_expiry_reclaims_an_inactive_writing_result() {
    let mut storage = Store::open();
    let created = storage.now;
    let writer = storage
        .begin_result_at(&schema(), created, created + 1)
        .expect("result begins");
    let id = writer.id().to_owned();
    let path = storage.path(&id);
    storage.leak_writer(writer);

    let report = storage.purge_expired_at(created + 1);
    assert_eq!(report.results_removed, 1);
    assert!(!storage.files.contains_key(&path));
}

#[test]
fn page_request_rejects_an_unbounded_or_too_small_budget() {
    let mut storage = Store::open();
    let writer = storage.begin_result(&schema()).expect("result begins");
    let metadata = storage.finish(writer, &completed(0)).expect("result completes");

    let error = match storage.read_result_page(
        &metadata.id,
        PageRequest {
            max_bytes: MIN_RESULT_PAGE_BYTES - 1,
            ..PageRequest::default()
        },
    ) {
        Err(error) => error,
        Ok(_) => panic!("small byte budget must fail"),
    };
    assert!(matches!(error, StorageError::InvalidResult(_)));
}

#[test]
fn completion_rejects_mismatched_row_count() {
    let mut storage = Store::open();
    let mut writer = storage.begin_result(&schema()).expect("result begins");
    storage
        .append_batch(&mut writer, &rows(0, &["one"]))
        .expect("batch appends");
    let error = storage
        .finish(writer, &completed(2))
        .expect_err("count must fail");
    assert!(matches!(error, StorageError::InvalidResult(_)));
}

#[test]
fn file_format_is_big_endian_length_prefixed_protobuf() {
    let mut storage = Store::open();
    let schema = schema();
    let writer = storage.begin_result(&schema).expect("result begins");
    let bytes = &storage.files[&storage.path(writer.id())];
    let payload_length = u32::from_be_bytes(bytes[..4].try_into().expect("prefix")) as usize;
    assert_eq!(payload_length, schema.payload.len());
    assert_eq!(
        String::decode(&bytes[4..]).expect("schema decodes"),
        "value"
    );
}

#[test]
fn a_frame_opens_only_as_it_was_made() {
    let id = "result".to_owned();
    let frame = encode_frame(&vec![1, 2, 3], MAX_BATCH_BYTES).expect("frame encodes");
    assert_eq!(frame, [0, 0, 0, 3, 1, 2, 3]);
    assert!(encode_frame(&vec![0; 4], 3).is_err());
    let hash: Vec<u8> = sha2_digest(&frame);
    assert_eq!(
        open_frame(&id, 7, &hash, &frame, MAX_BATCH_BYTES).expect("frame opens"),
        [1, 2, 3]
    );
    let mut damaged = frame.clone();
    damaged[6] ^= 1;
    assert!(matches!(
        open_frame(&id, 7, &hash, &damaged, MAX_BATCH_BYTES),
        Err(StorageError::CorruptResult { .. })
    ));
    assert!(matches!(
        open_frame(&id, 7, &hash, &frame[..6].to_vec(), MAX_BATCH_BYTES),
        Err(StorageError::CorruptResult { .. })
    ));
    assert!(check_frame_index(&id, 7, &hash, MAX_BATCH_BYTES).is_ok());
    assert!(check_frame_index(&id, 3, &hash, MAX_BATCH_BYTES).is_err());
    assert!(check_frame_index(&id, 7, &vec![0; 31], MAX_BATCH_BYTES).is_err());
}

fn sha2_digest(bytes: &[u8]) -> Vec<u8> {
    sha2::Sha256::digest(bytes).to_vec()
}

#[test]
fn consecutive_pages_give_back_every_row() {
    let mut storage = Store::open();
    let values: Vec<String> = (0..10).map(|value| value.to_string()).collect();
    let texts: Vec<&str> = values.iter().map(String::as_str).collect();
    let mut writer = storage.begin_result(&schema()).expect("result begins");
    for (start, part) in [(0, &texts[..4]), (4, &texts[4..5]), (5, &texts[5..])] {
        storage
            .append_batch(&mut writer, &rows(start, part))
            .expect("batch appends");
    }
    let metadata = storage.finish(writer, &completed(10)).expect("result completes");
    let mut read = Vec::new();
    let mut offset = 0;
    loop {
        let page = storage
            .read_result_page(
                &metadata.id,
                PageRequest { offset, max_rows: 3, ..PageRequest::default() },
            )
            .expect("page reads");
        assert_eq!(page.offset, offset);
        offset += page.rows.len() as u64;
        read.extend(page.rows);
        if !page.has_more {
            break;
        }
    }
    assert_eq!(read, rows(0, &texts).rows);
    let past = storage
        .read_result_page(
            &metadata.id,
            PageRequest { offset: 11, ..PageRequest::default() },
        )
        .expect("a page past the end reads");
    assert!(past.rows.is_empty() && !past.has_more);
}

#[test]
fn a_page_reader_takes_chunks_until_it_is_full() {
    let mut storage = Store::open();
    let metadata = one_row(&mut storage);
    let chunk = storage.load_chunks(&metadata.id).remove(0);
    let read = storage.read_chunk(&metadata.id, chunk);
    let request = PageRequest { max_rows: 1, ..PageRequest::default() };
    let mut reader =
        PageReader::new(&metadata.id, 1, &LIMITS, &request, 1).expect("page begins");
    assert!(!reader.is_full());
    reader.check_chunk(&read.chunk).expect("chunk continues the page");
    let payload = reader.open_chunk(&read.chunk, &read.frame).expect("frame opens");
    assert_eq!(payload, rows(0, &["one"]).payload);
    reader.take_batch(&read.chunk, decode_batch(&payload)).expect("batch is taken");
    assert_eq!(reader.into_rows(), rows(0, &["one"]).rows);
}

#[test]
fn damaged_results_are_not_read() {
    let mut storage = Store::open();
    let metadata = one_row(&mut storage);
    let path = storage.path(&metadata.id);
    storage.files.get_mut(&path).expect("file exists").push(0);
    assert!(matches!(
        storage.read_result_page(&metadata.id, PageRequest::default()),
        Err(StorageError::CorruptResult { .. })
    ));
    storage.files.remove(&path);
    assert!(storage.read_result_page(&metadata.id, PageRequest::default()).is_err());
    assert!(matches!(
        storage.read_result_page(&fresh_id(), PageRequest::default()),
        Err(StorageError::ResultNotFound(_))
    ));
    storage.now += 60_000;
    assert!(matches!(
        storage.read_result_page(&metadata.id, PageRequest::default()),
        Err(StorageError::ResultNotFound(_))
    ));
}

#[test]
fn batches_keep_the_shape_of_the_schema() {
    let mut storage = Store::open();
    for batch in [
        RowBatch { rows: Vec::new(), ..rows(0, &[]) },
        RowBatch {
            rows: vec![JdbcRow { width: 2, encoded: vec![1] }],
            ..rows(0, &["one"])
        },
        RowBatch { payload: vec![0; MAX_BATCH_BYTES + 1], ..rows(0, &["one"]) },
    ] {
        let mut writer = storage.begin_result(&schema()).expect("result begins");
        assert!(matches!(
            storage.append_batch(&mut writer, &batch),
            Err(StorageError::InvalidResult(_))
        ));
        storage.drop_writer(writer);
    }
    assert!(validate_schema(&schema(), &LIMITS).is_ok());
    let wide = QueryStarted { columns: 4_097, payload: vec![1] };
    assert!(matches!(
        validate_schema(&wide, &LIMITS),
        Err(StorageError::InvalidResult(_))
    ));
}

#[test]
fn result_files_are_named_by_uuid() {
    let id = "8df08cac-24e7-446d-92ea-cda948ec9184";
    let name = result_file_name(id).expect("id is a UUID");
    assert!(is_result_file_name(&name));
    assert_eq!(result_file_stem(&name), Some(id));
    assert!(matches!(
        result_file_name("../escape"),
        Err(StorageError::InvalidResult("result id is invalid"))
    ));
    assert!(!is_result_file_name("notes.txt"));
}

#[test]
fn rows_of_the_index_read_back() {
    let chunk = ChunkIndex {
        ordinal: 1,
        file_offset: 2,
        frame_length: 3,
        start_row: 4,
        end_row_exclusive: 6,
        row_count: 2,
        sha256: vec![7; 32],
    };
    let raw = encode_chunk(chunk).expect("chunk encodes");
    let read = decode_chunk(raw.clone()).expect("chunk decodes");
    assert_eq!((read.ordinal, read.start_row, read.end_row_exclusive), (1, 4, 6));
    let mut negative = raw;
    negative.file_offset = -1;
    assert!(matches!(
        decode_chunk(negative),
        Err(StorageError::NumericRange(_))
    ));
    let mut storage = Store::open();
    let metadata = one_row(&mut storage);
    let mut unknown = storage.raw(&metadata.id).clone();
    unknown.state = "paused".to_owned();
    assert!(matches!(
        decode_result(unknown),
        Err(StorageError::CorruptResult { .. })
    ));
}

#[test]
fn retention_must_be_positive() {
    let mut storage = Store::open();
    let begun = storage.rules.begin_result(
        fresh_id(),
        &schema(),
        &LIMITS,
        &Duration::ZERO,
        storage.now,
        storage.index(),
        &storage.directory(),
    );
    assert!(matches!(begun, Err(StorageError::InvalidResult(_))));
    assert!(matches!(
        storage.begin_result_at(&schema(), 10, 10),
        Err(StorageError::InvalidResult(_))
    ));
}

#[test]
fn a_second_recovery_of_results_finds_nothing() {
    let mut storage = Store::open();
    let kept = one_row(&mut storage);
    let writer = storage.begin_result(&schema()).expect("result begins");
    storage.leak_writer(writer);
    let path = storage.path(&kept.id);
    storage.files.get_mut(&path).expect("result file exists").extend_from_slice(b"tail");
    let orphan = storage.path(&fresh_id());
    storage.files.insert(orphan, b"orphan".to_vec());
    let first = storage.restart();
    assert_eq!(
        (first.writing_removed, first.tails_truncated, first.orphan_files_removed),
        (1, 1, 1)
    );
    assert_eq!(storage.restart(), RecoveryReport::default());
    assert_eq!(storage.files.len(), 1);
}

#[test]
fn recovery_settles_each_result_and_stops_at_a_failure() {
    let mut storage = Store::open();
    one_row(&mut storage);
    let now = storage.now;
    let result = || {
        Storage::load_results(storage.results.clone())
            .expect("rows decode")
            .remove(0)
    };
    let corrupt = || StorageError::CorruptResult {
        result_id: result().id,
        reason: "result file is missing",
    };
    assert_eq!(
        Storage::settle_result(&result(), now, Ok(true)).expect("result settles"),
        Disposition::Kept { tail_truncated: true }
    );
    assert_eq!(
        Storage::settle_result(&result(), now, Err(corrupt())).expect("result settles"),
        Disposition::Corrupt
    );
    assert_eq!(
        Storage::settle_result(&result(), i64::MAX, Ok(true)).expect("result settles"),
        Disposition::Expired
    );
    let names = vec![storage.path(&result().id), "notes.txt".to_owned()];
    let removal = Storage::recover_at(
        vec![CheckedResult { result: result(), check: Err(corrupt()) }],
        &names,
        now,
    );
    assert_eq!(removal.removed, vec![result().id]);
    assert!(removal.orphans.is_empty());
    assert_eq!(removal.outcome.expect("store recovers").corrupt_removed, 1);
    let failure = Storage::recover_at(
        vec![
            CheckedResult { result: result(), check: Err(corrupt()) },
            CheckedResult {
                result: result(),
                check: Err(StorageError::NumericRange("indexed frame length")),
            },
            CheckedResult { result: result(), check: Err(corrupt()) },
        ],
        &vec!["00000000-0000-4000-8000-000000000000.c2result".to_owned()],
        now,
    );
    assert_eq!(failure.removed, vec![result().id]);
    assert!(failure.orphans.is_empty());
    assert!(matches!(failure.outcome, Err(StorageError::NumericRange("indexed frame length"))));
}
