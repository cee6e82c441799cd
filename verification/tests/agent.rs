use std::cell::RefCell;
use std::time::Duration;

use chat2db_storage::agent::commit::CompactionReadback;
use chat2db_storage::agent::handle::{ObservedResult, ResolvedHandle};
use chat2db_storage::agent::message::SessionMessages;
use chat2db_storage::agent::permission::PermissionOutcome;
use chat2db_storage::agent::progress::InitiatingMessages;
use chat2db_storage::agent::recovery::ObservedHandle;
use chat2db_storage::agent::rows::{
    decode_message, decode_permission, decode_run, encode_message, encode_permission, encode_run,
    RawSession,
};
use chat2db_storage::agent::run::{CoverageRow, SessionCoverage};
use chat2db_storage::agent::session::SessionReferences;
use chat2db_storage::identity::{fresh_id, fresh_ids};
use chat2db_storage::vault::StagedChange;
use chat2db_storage::{
    AgentCompaction, AgentMessageRecord, AgentMessageRole, AgentRecoveryReport, AgentResultHandle,
    AgentRunMessage, AgentRunRecord, AgentRunStatus, AgentRunUpdate, AgentSessionRecord,
    AppendAgentMessage, CancelAgentRun, CancelledAgentRun, CommitOutcome, CompactAgentRun,
    CompactedAgentRun, CompleteAgentRun, CompletedAgentRun, CreateAgentSession, CreateDatasource,
    CreateProviderProfile, DatasourceRecord, FailAgentRun, FailedAgentRun, ProviderKind,
    ProviderProfileRecord, RequestToolPermission, SqlPermissionMode, StartAgentRun,
    StartedAgentRun, Storage, StorageError, ToolPermissionDecision, ToolPermissionRecord,
    ToolPermissionStatus, UnknownAgentWrite, UpdateAgentSession, UpdateDatasource,
    MAX_AGENT_MESSAGES_PER_SESSION, MAX_AGENT_MESSAGE_BYTES, MAX_AGENT_MESSAGE_BYTES_PER_SESSION,
};

#[derive(Clone, Copy, PartialEq, Eq)]
enum FaultPoint {
    CompactionBeforeCommit,
    CompactionCommitFailure,
    CompactionAfterCommit,
    CompactionReadback,
}

#[derive(Clone)]
struct RetainedResult {
    id: String,
    complete: bool,
    expires_at_ms: i64,
}

#[derive(Default)]
struct Tables {
    providers: Vec<ProviderProfileRecord>,
    datasources: Vec<DatasourceRecord>,
    sessions: Vec<AgentSessionRecord>,
    messages: Vec<AgentMessageRecord>,
    runs: Vec<AgentRunRecord>,
    permissions: Vec<ToolPermissionRecord>,
    handles: Vec<AgentResultHandle>,
    results: Vec<RetainedResult>,
    faults: Vec<FaultPoint>,
    now: i64,
}

/// Tables in memory, driven by the rules of the library.
struct Store {
    tables: RefCell<Tables>,
}

impl Tables {
    fn tick(&mut self) -> i64 {
        self.now += 1;
        self.now
    }

    fn session(&self, id: &str) -> Option<AgentSessionRecord> {
        self.sessions.iter().find(|session| session.id == id).cloned()
    }

    fn run(&self, id: &str) -> Option<AgentRunRecord> {
        self.runs.iter().find(|run| run.id == id).cloned()
    }

    fn permission(&self, id: &str) -> Option<ToolPermissionRecord> {
        self.permissions.iter().find(|permission| permission.id == id).cloned()
    }

    fn permissions_of(&self, run_id: &str) -> Vec<ToolPermissionRecord> {
        self.permissions
            .iter()
            .filter(|permission| permission.run_id == run_id)
            .cloned()
            .collect()
    }

    fn active(&self, session_id: &str) -> bool {
        self.runs
            .iter()
            .any(|run| run.session_id == session_id && !run.status.is_terminal())
    }

    fn provider_active(&self, id: &str) -> bool {
        self.sessions
            .iter()
            .any(|session| session.provider_id == id && self.active(&session.id))
    }

    fn datasource_active(&self, id: &str) -> bool {
        self.sessions
            .iter()
            .any(|session| session.datasource_id.as_deref() == Some(id) && self.active(&session.id))
    }

    fn references(&self, provider_id: &str, datasource_id: &Option<String>) -> SessionReferences {
        SessionReferences {
            provider_exists: self.providers.iter().any(|provider| provider.id == provider_id),
            datasource_exists: match datasource_id {
                Some(id) => self.datasources.iter().any(|datasource| &datasource.id == id),
                None => false,
            },
        }
    }

    fn totals(&self, session_id: &str, run_id: Option<&str>) -> SessionMessages {
        let own: Vec<&AgentMessageRecord> = self
            .messages
            .iter()
            .filter(|message| message.session_id == session_id)
            .collect();
        SessionMessages {
            session_exists: self.session(session_id).is_some(),
            run_owned: match run_id {
                Some(id) => self.run(id).is_some_and(|run| run.session_id == session_id),
                None => false,
            },
            count: own.len() as i64,
            bytes: own.iter().map(|message| message.content_bytes as i64).sum(),
            maximum: own.iter().map(|message| message.ordinal as i64).max(),
        }
    }

    fn run_totals(&self, run_id: &str) -> SessionMessages {
        match self.run(run_id) {
            Some(run) => self.totals(&run.session_id, Some(run_id)),
            None => self.totals("", None),
        }
    }

    fn initiating(&self, run_id: &str) -> InitiatingMessages {
        let ordinals: Vec<i64> = self
            .messages
            .iter()
            .filter(|message| {
                message.run_id.as_deref() == Some(run_id) && message.role == AgentMessageRole::User
            })
            .map(|message| message.ordinal as i64)
            .collect();
        InitiatingMessages {
            count: ordinals.len() as i64,
            ordinal: ordinals.iter().copied().min(),
        }
    }

    fn coverage(&self, session_id: &str) -> SessionCoverage {
        let runs = self.runs.iter().map(|run| CoverageRow {
            session_id: run.session_id.clone(),
            ordinal: run.compacted_through_ordinal.map(|ordinal| ordinal as i64),
        });
        let summaries = self.messages.iter().map(|message| CoverageRow {
            session_id: message.session_id.clone(),
            ordinal: message.summary_through_ordinal.map(|ordinal| ordinal as i64),
        });
        Storage::gather_session_coverage(
            &session_id.to_owned(),
            self.session(session_id).is_some(),
            &runs.chain(summaries).collect(),
        )
    }

    fn put_run(&mut self, record: AgentRunRecord) {
        let raw = encode_run(&record).expect("run row encodes");
        let record = decode_run(raw).expect("run row decodes");
        self.runs.retain(|run| run.id != record.id);
        self.runs.push(record);
    }

    fn put_messages(&mut self, records: Vec<AgentMessageRecord>) {
        if let Some(first) = records.first() {
            let session = self.session(&first.session_id).expect("session exists");
            let dated = Storage::date_agent_session(session, &records);
            self.sessions.retain(|session| session.id != dated.id);
            self.sessions.push(dated);
        }
        for record in records {
            let raw = encode_message(&record).expect("message row encodes");
            self.messages.push(decode_message(raw).expect("message row decodes"));
        }
    }

    fn put_permissions(&mut self, records: Vec<ToolPermissionRecord>) {
        for record in records {
            let raw = encode_permission(&record).expect("permission row encodes");
            let record = decode_permission(raw).expect("permission row decodes");
            self.permissions.retain(|permission| permission.id != record.id);
            self.permissions.push(record);
        }
    }

    fn take_fault(&mut self, point: FaultPoint) -> bool {
        match self.faults.iter().position(|fault| *fault == point) {
            Some(index) => {
                self.faults.remove(index);
                true
            }
            None => false,
        }
    }

    fn observe(&self, result_id: &str) -> Option<ObservedResult> {
        self.results
            .iter()
            .find(|result| result.id == result_id)
            .map(|result| ObservedResult {
                complete: result.complete,
                expires_at_ms: result.expires_at_ms,
            })
    }

    fn settle(&mut self, outcome: PermissionOutcome) -> Result<ToolPermissionRecord, StorageError> {
        let (step, failure) = match outcome {
            PermissionOutcome::Done(step) => (step, None),
            PermissionOutcome::Lapsed(step, error) => (step, Some(error)),
        };
        self.put_permissions(vec![step.permission.clone()]);
        if let Some(run) = step.run {
            self.put_run(run);
        }
        match failure {
            None => Ok(step.permission),
            Some(error) => Err(error),
        }
    }
}

impl Store {
    fn inject_faults(&self, points: &[FaultPoint]) {
        self.tables.borrow_mut().faults.extend_from_slice(points);
    }

    fn create_provider_profile(
        &self,
        input: CreateProviderProfile,
    ) -> Result<ProviderProfileRecord, StorageError> {
        let mut tables = self.tables.borrow_mut();
        let timestamp = tables.tick();
        let created = Storage::create_provider_profile(fresh_id(), input, None, timestamp)?;
        tables.providers.push(created.record.clone());
        Ok(created.record)
    }

    fn get_provider_profile(&self, id: &str) -> Option<ProviderProfileRecord> {
        let tables = self.tables.borrow();
        let found = tables.providers.iter().find(|provider| provider.id == id).cloned();
        found
    }

    fn update_provider_profile(
        &self,
        id: &str,
        revision: u64,
        input: CreateProviderProfile,
    ) -> Result<ProviderProfileRecord, StorageError> {
        let current = self.get_provider_profile(id);
        let mut tables = self.tables.borrow_mut();
        let active = tables.provider_active(id);
        let timestamp = tables.tick();
        let updated = Storage::update_provider_profile(
            &id.to_owned(),
            revision,
            input,
            StagedChange::Keep,
            current,
            active,
            timestamp,
        )?;
        tables.providers.retain(|provider| provider.id != id);
        tables.providers.push(updated.record.clone());
        Ok(updated.record)
    }

    fn create_datasource(&self, input: CreateDatasource) -> Result<DatasourceRecord, StorageError> {
        let mut tables = self.tables.borrow_mut();
        let timestamp = tables.tick();
        let created = Storage::create_datasource(fresh_id(), input, None, timestamp)?;
        tables.datasources.push(created.record.clone());
        Ok(created.record)
    }

    fn get_datasource(&self, id: &str) -> Option<DatasourceRecord> {
        let tables = self.tables.borrow();
        let found = tables.datasources.iter().find(|datasource| datasource.id == id).cloned();
        found
    }

    fn update_datasource(
        &self,
        id: &str,
        revision: u64,
        input: UpdateDatasource,
    ) -> Result<DatasourceRecord, StorageError> {
        let current = self.get_datasource(id);
        let mut tables = self.tables.borrow_mut();
        let active = tables.datasource_active(id);
        let timestamp = tables.tick();
        let updated = Storage::update_datasource(
            &id.to_owned(),
            revision,
            input,
            StagedChange::Keep,
            current,
            active,
            timestamp,
        )?;
        tables.datasources.retain(|datasource| datasource.id != id);
        tables.datasources.push(updated.record.clone());
        Ok(updated.record)
    }

    fn delete_datasource(&self, id: &str, revision: u64) -> Result<(), StorageError> {
        let current = self.get_datasource(id);
        let mut tables = self.tables.borrow_mut();
        let active = tables.datasource_active(id);
        Storage::delete_datasource(&id.to_owned(), revision, current, active)?;
        tables.datasources.retain(|datasource| datasource.id != id);
        Ok(())
    }

    fn create_agent_session(
        &self,
        input: CreateAgentSession,
    ) -> Result<AgentSessionRecord, StorageError> {
        let mut tables = self.tables.borrow_mut();
        let references = tables.references(&input.provider_id, &input.datasource_id);
        let timestamp = tables.tick();
        let created =
            Storage::create_agent_session(input, references, fresh_id(), &fresh_id(), timestamp)?;
        tables.sessions.push(created.session.clone());
        tables.put_messages(created.system_message.into_iter().collect());
        Ok(created.session)
    }

    fn get_agent_session(&self, id: &str) -> Result<Option<AgentSessionRecord>, StorageError> {
        Storage::get_agent_session(self.tables.borrow().session(id).map(|session| RawSession {
            id: session.id,
            title: session.title,
            provider_id: session.provider_id,
            datasource_id: session.datasource_id,
            revision: session.revision as i64,
            created_at_ms: session.created_at_ms,
            updated_at_ms: session.updated_at_ms,
        }))
    }

    fn update_agent_session(
        &self,
        id: &str,
        revision: u64,
        input: UpdateAgentSession,
    ) -> Result<AgentSessionRecord, StorageError> {
        let mut tables = self.tables.borrow_mut();
        let references = tables.references(&input.provider_id, &input.datasource_id);
        let session = tables.session(id);
        let active = tables.active(id);
        let timestamp = tables.tick();
        let updated = Storage::update_agent_session(
            &id.to_owned(),
            revision,
            input,
            session,
            active,
            references,
            timestamp,
        )?;
        tables.sessions.retain(|session| session.id != id);
        tables.sessions.push(updated.clone());
        Ok(updated)
    }

    fn delete_agent_session(&self, id: &str, revision: u64) -> Result<(), StorageError> {
        let mut tables = self.tables.borrow_mut();
        let session = tables.session(id);
        let active = tables.active(id);
        Storage::delete_agent_session(&id.to_owned(), revision, session, active)?;
        let runs: Vec<String> = tables
            .runs
            .iter()
            .filter(|run| run.session_id == id)
            .map(|run| run.id.clone())
            .collect();
        tables.sessions.retain(|session| session.id != id);
        tables.messages.retain(|message| message.session_id != id);
        tables.runs.retain(|run| run.session_id != id);
        tables.permissions.retain(|permission| !runs.contains(&permission.run_id));
        tables.handles.retain(|handle| handle.session_id != id);
        Ok(())
    }

    fn append_agent_message(
        &self,
        session_id: &str,
        input: AppendAgentMessage,
    ) -> Result<AgentMessageRecord, StorageError> {
        let mut tables = self.tables.borrow_mut();
        let active = tables.active(session_id);
        let totals = tables.totals(session_id, None);
        let timestamp = tables.tick();
        let message = Storage::append_agent_message(
            &session_id.to_owned(),
            input,
            active,
            totals,
            &fresh_id(),
            timestamp,
        )?;
        tables.put_messages(vec![message.clone()]);
        Ok(message)
    }

    fn list_agent_messages(
        &self,
        session_id: &str,
        start_ordinal: u64,
        limit: u32,
    ) -> Result<Vec<AgentMessageRecord>, StorageError> {
        let tables = self.tables.borrow();
        let rows = tables
            .messages
            .iter()
            .map(|message| encode_message(message).expect("message row encodes"))
            .collect();
        Storage::list_agent_messages(
            &session_id.to_owned(),
            start_ordinal,
            limit,
            tables.session(session_id).is_some(),
            rows,
        )
    }

    fn get_agent_session_compaction_coverage(
        &self,
        session_id: &str,
    ) -> Result<Option<u64>, StorageError> {
        let coverage = self.tables.borrow().coverage(session_id);
        Storage::get_agent_session_compaction_coverage(&session_id.to_owned(), coverage)
    }

    fn start_agent_run(
        &self,
        session_id: &str,
        input: StartAgentRun,
    ) -> Result<StartedAgentRun, StorageError> {
        let mut tables = self.tables.borrow_mut();
        let active = tables.active(session_id);
        let totals = SessionMessages {
            run_owned: true,
            ..tables.totals(session_id, None)
        };
        let timestamp = tables.tick();
        let started = Storage::start_agent_run(
            &session_id.to_owned(),
            input,
            active,
            totals,
            fresh_id(),
            &fresh_id(),
            timestamp,
        )?;
        tables.put_run(started.run.clone());
        tables.put_messages(vec![started.user_message.clone()]);
        Ok(started)
    }

    fn get_agent_run(&self, id: &str) -> Result<Option<AgentRunRecord>, StorageError> {
        let run = self.tables.borrow().run(id);
        Storage::get_agent_run(run.map(|run| encode_run(&run).expect("run row encodes")))
    }

    fn update_agent_run(
        &self,
        id: &str,
        expected: AgentRunStatus,
        update: AgentRunUpdate,
    ) -> Result<AgentRunRecord, StorageError> {
        let mut tables = self.tables.borrow_mut();
        let run = tables.run(id);
        let initiating = tables.initiating(id);
        let timestamp = tables.tick();
        let updated = Storage::update_agent_run(
            &id.to_owned(),
            expected,
            update,
            run,
            initiating,
            timestamp,
        )?;
        tables.put_run(updated.clone());
        Ok(updated)
    }

    fn compact_agent_run(
        &self,
        id: &str,
        expected: AgentRunStatus,
        input: CompactAgentRun,
    ) -> Result<CompactedAgentRun, StorageError> {
        let mut tables = self.tables.borrow_mut();
        let run = tables.run(id);
        let coverage = match &run {
            Some(run) => tables.coverage(&run.session_id),
            None => tables.coverage(""),
        };
        let initiating = tables.initiating(id);
        let totals = tables.run_totals(id);
        let timestamp = tables.tick();
        let id = id.to_owned();
        let compacted = Storage::compact_agent_run(
            &id,
            expected,
            input,
            run.clone(),
            coverage,
            initiating,
            totals,
            &fresh_id(),
            timestamp,
        )?;
        if tables.take_fault(FaultPoint::CompactionBeforeCommit) {
            return Err(StorageError::Integrity("injected commit failure"));
        }
        let lost = tables.take_fault(FaultPoint::CompactionCommitFailure);
        if !lost {
            tables.put_run(compacted.run.clone());
            tables.put_messages(compacted.summary_message.iter().cloned().collect());
        }
        if !lost && !tables.take_fault(FaultPoint::CompactionAfterCommit) {
            return Ok(compacted);
        }
        let readback = if tables.take_fault(FaultPoint::CompactionReadback) {
            None
        } else {
            Some(CompactionReadback {
                run: tables.run(&id),
                summary: compacted.summary_message.as_ref().and_then(|summary| {
                    tables.messages.iter().find(|message| message.id == summary.id).cloned()
                }),
            })
        };
        let prior = run.expect("a compacted run exists");
        match Storage::reconcile_agent_compaction_commit(
            &id,
            &prior,
            compacted.run,
            &compacted.summary_message,
            readback,
        ) {
            CommitOutcome::Applied(compacted) => Ok(compacted),
            CommitOutcome::NotApplied => Err(StorageError::Integrity("injected commit failure")),
            CommitOutcome::Unknown(error) => Err(error),
        }
    }

    fn complete_agent_run(
        &self,
        id: &str,
        expected: AgentRunStatus,
        input: CompleteAgentRun,
    ) -> Result<CompletedAgentRun, StorageError> {
        let mut tables = self.tables.borrow_mut();
        let ids = fresh_ids(input.messages.len());
        let timestamp = tables.tick();
        let ended = Storage::complete_agent_run(
            &id.to_owned(),
            expected,
            input,
            tables.run(id),
            tables.initiating(id),
            tables.run_totals(id),
            &ids,
            tables.permissions_of(id),
            timestamp,
        )?;
        tables.put_run(ended.outcome.run.clone());
        tables.put_messages(ended.outcome.messages.clone());
        tables.put_permissions(ended.revoked);
        Ok(ended.outcome)
    }

    fn fail_agent_run(
        &self,
        id: &str,
        expected: AgentRunStatus,
        input: FailAgentRun,
    ) -> Result<FailedAgentRun, StorageError> {
        let mut tables = self.tables.borrow_mut();
        let ids = fresh_ids(input.messages.len());
        let timestamp = tables.tick();
        let ended = Storage::fail_agent_run(
            &id.to_owned(),
            expected,
            input,
            tables.run(id),
            tables.initiating(id),
            tables.run_totals(id),
            &ids,
            tables.permissions_of(id),
            timestamp,
        )?;
        tables.put_run(ended.outcome.run.clone());
        tables.put_messages(ended.outcome.messages.clone());
        tables.put_permissions(ended.revoked);
        Ok(ended.outcome)
    }

    fn request_agent_run_cancellation(&self, id: &str) -> Result<AgentRunRecord, StorageError> {
        let mut tables = self.tables.borrow_mut();
        let timestamp = tables.tick();
        let requested = Storage::request_agent_run_cancellation(
            &id.to_owned(),
            tables.run(id),
            tables.permissions_of(id),
            timestamp,
        )?;
        tables.put_run(requested.outcome.clone());
        tables.put_permissions(requested.revoked);
        Ok(requested.outcome)
    }

    fn finish_cancelled_agent_run(
        &self,
        id: &str,
        expected: AgentRunStatus,
        input: CancelAgentRun,
    ) -> Result<CancelledAgentRun, StorageError> {
        let mut tables = self.tables.borrow_mut();
        let ids = fresh_ids(input.messages.len());
        let timestamp = tables.tick();
        let ended = Storage::finish_cancelled_agent_run(
            &id.to_owned(),
            expected,
            input,
            tables.run(id),
            tables.initiating(id),
            tables.run_totals(id),
            &ids,
            timestamp,
        )?;
        tables.put_run(ended.run.clone());
        tables.put_messages(ended.messages.clone());
        Ok(ended)
    }

    fn create_tool_permission(
        &self,
        run_id: &str,
        input: RequestToolPermission,
    ) -> Result<ToolPermissionRecord, StorageError> {
        let mut tables = self.tables.borrow_mut();
        let timestamp = tables.tick();
        let step = Storage::create_tool_permission(
            &run_id.to_owned(),
            input,
            tables.run(run_id),
            fresh_id(),
            timestamp,
        )?;
        tables.settle(PermissionOutcome::Done(step))
    }

    fn get_tool_permission(&self, id: &str) -> Result<Option<ToolPermissionRecord>, StorageError> {
        let permission = self.tables.borrow().permission(id);
        Storage::get_tool_permission(
            permission
                .map(|permission| encode_permission(&permission).expect("permission row encodes")),
        )
    }

    fn get_active_tool_permission_for_run(
        &self,
        run_id: &str,
    ) -> Result<Option<ToolPermissionRecord>, StorageError> {
        let rows = self
            .tables
            .borrow()
            .permissions
            .iter()
            .map(|permission| encode_permission(permission).expect("permission row encodes"))
            .collect();
        Storage::get_active_tool_permission_for_run(run_id, rows)
    }

    #[allow(clippy::too_many_arguments)]
    fn decide_tool_permission(
        &self,
        id: &str,
        revision: u64,
        run_id: &str,
        tool_call_id: &str,
        arguments_sha256: [u8; 32],
        last_sequence: u64,
        decision: ToolPermissionDecision,
    ) -> Result<ToolPermissionRecord, StorageError> {
        let mut tables = self.tables.borrow_mut();
        let timestamp = tables.tick();
        let permission = tables.permission(id);
        let run = permission.as_ref().and_then(|permission| tables.run(&permission.run_id));
        let outcome = Storage::decide_tool_permission(
            &id.to_owned(),
            revision,
            &run_id.to_owned(),
            &tool_call_id.to_owned(),
            arguments_sha256,
            last_sequence,
            decision,
            permission,
            run,
            timestamp,
        )?;
        tables.settle(outcome)
    }

    fn consume_tool_permission(
        &self,
        id: &str,
        revision: u64,
        run_id: &str,
        tool_call_id: &str,
        arguments_sha256: [u8; 32],
        last_sequence: u64,
    ) -> Result<ToolPermissionRecord, StorageError> {
        let timestamp = self.tables.borrow_mut().tick();
        self.consume_tool_permission_at(
            id,
            revision,
            run_id,
            tool_call_id,
            arguments_sha256,
            last_sequence,
            timestamp,
        )
    }

    #[allow(clippy::too_many_arguments)]
    fn consume_tool_permission_at(
        &self,
        id: &str,
        revision: u64,
        run_id: &str,
        tool_call_id: &str,
        arguments_sha256: [u8; 32],
        last_sequence: u64,
        timestamp: i64,
    ) -> Result<ToolPermissionRecord, StorageError> {
        let mut tables = self.tables.borrow_mut();
        let permission = tables.permission(id);
        let run = permission.as_ref().and_then(|permission| tables.run(&permission.run_id));
        let outcome = Storage::consume_tool_permission(
            &id.to_owned(),
            revision,
            &run_id.to_owned(),
            &tool_call_id.to_owned(),
            arguments_sha256,
            last_sequence,
            permission,
            run,
            timestamp,
        )?;
        tables.settle(outcome)
    }

    fn settle_agent_write(
        &self,
        run_id: &str,
        tool_call_id: &str,
        arguments_sha256: [u8; 32],
    ) -> Result<AgentRunRecord, StorageError> {
        let mut tables = self.tables.borrow_mut();
        let timestamp = tables.tick();
        let run = Storage::settle_agent_write(
            &run_id.to_owned(),
            &tool_call_id.to_owned(),
            arguments_sha256,
            tables.run(run_id),
            timestamp,
        )?;
        tables.put_run(run.clone());
        Ok(run)
    }

    fn fail_agent_write_outcome_unknown(
        &self,
        run_id: &str,
        tool_call_id: &str,
        arguments_sha256: [u8; 32],
        input: UnknownAgentWrite,
    ) -> Result<FailedAgentRun, StorageError> {
        let mut tables = self.tables.borrow_mut();
        let ids = fresh_ids(input.messages.len());
        let timestamp = tables.tick();
        let failed = Storage::fail_agent_write_outcome_unknown(
            &run_id.to_owned(),
            &tool_call_id.to_owned(),
            arguments_sha256,
            input,
            tables.run(run_id),
            tables.initiating(run_id),
            tables.run_totals(run_id),
            &ids,
            timestamp,
        )?;
        tables.put_run(failed.run.clone());
        tables.put_messages(failed.messages.clone());
        Ok(failed)
    }

    fn create_agent_result_handle(
        &self,
        session_id: &str,
        run_id: &str,
        result_id: &str,
        retention: Duration,
    ) -> Result<AgentResultHandle, StorageError> {
        let mut tables = self.tables.borrow_mut();
        let timestamp = tables.tick();
        let handle = Storage::create_agent_result_handle(
            &session_id.to_owned(),
            &run_id.to_owned(),
            &result_id.to_owned(),
            retention,
            tables.run(run_id).map(|run| run.session_id),
            tables.observe(result_id),
            fresh_id(),
            timestamp,
        )?;
        tables.handles.push(handle.clone());
        Ok(handle)
    }

    fn create_agent_result_handle_at(
        &self,
        session_id: &str,
        run_id: &str,
        result_id: &str,
        timestamp: i64,
        requested_expiry: i64,
    ) -> Result<AgentResultHandle, StorageError> {
        let mut tables = self.tables.borrow_mut();
        let handle = Storage::create_agent_result_handle_at(
            &session_id.to_owned(),
            &run_id.to_owned(),
            &result_id.to_owned(),
            tables.run(run_id).map(|run| run.session_id),
            tables.observe(result_id),
            fresh_id(),
            timestamp,
            requested_expiry,
        )?;
        tables.handles.push(handle.clone());
        Ok(handle)
    }

    fn resolve_agent_result_handle(
        &self,
        id: &str,
        session_id: &str,
        run_id: &str,
    ) -> Result<AgentResultHandle, StorageError> {
        let timestamp = self.tables.borrow_mut().tick();
        self.resolve_agent_result_handle_at(id, session_id, run_id, timestamp)
    }

    fn resolve_agent_result_handle_at(
        &self,
        id: &str,
        session_id: &str,
        run_id: &str,
        timestamp: i64,
    ) -> Result<AgentResultHandle, StorageError> {
        let mut tables = self.tables.borrow_mut();
        let handle = tables.handles.iter().find(|handle| handle.id == id).cloned();
        let observed = handle.as_ref().and_then(|handle| tables.observe(&handle.result_id));
        match Storage::resolve_agent_result_handle(
            &id.to_owned(),
            session_id,
            run_id,
            handle,
            observed,
            timestamp,
        )? {
            ResolvedHandle::Live(handle) => Ok(handle),
            ResolvedHandle::Removed(error) => {
                tables.handles.retain(|handle| handle.id != id);
                Err(error)
            }
        }
    }

    fn restart(&self) -> AgentRecoveryReport {
        let mut tables = self.tables.borrow_mut();
        let timestamp = tables.tick();
        let handles = tables
            .handles
            .iter()
            .map(|handle| ObservedHandle {
                handle: handle.clone(),
                result: tables.observe(&handle.result_id),
            })
            .collect();
        let recovery = Storage::recover_agents_at(
            tables.runs.clone(),
            tables.permissions.clone(),
            handles,
            timestamp,
        );
        for run in recovery.runs {
            tables.put_run(run);
        }
        tables.put_permissions(recovery.permissions);
        for removed in recovery.handles {
            tables.handles.retain(|handle| handle.id != removed.id);
        }
        recovery.report
    }

    fn insert_message(&self, message: AgentMessageRecord) {
        self.tables.borrow_mut().messages.push(message);
    }

    fn result_is_readable(&self, result_id: &str) -> bool {
        let tables = self.tables.borrow();
        tables
            .observe(result_id)
            .is_some_and(|result| result.complete && result.expires_at_ms > tables.now)
    }
}

fn provider_input(name: &str) -> CreateProviderProfile {
    CreateProviderProfile {
        name: name.to_owned(),
        kind: ProviderKind::OpenAiCompatible,
        base_url: "https://provider.example/v1".to_owned(),
        model: "model-1".to_owned(),
        context_window_tokens: 128_000,
        max_output_tokens: 8_192,
    }
}

fn setup() -> (Store, String) {
    let storage = Store {
        tables: RefCell::new(Tables {
            now: 1_000_000,
            ..Tables::default()
        }),
    };
    let provider = storage
        .create_provider_profile(provider_input("primary"))
        .expect("provider creates");
    (storage, provider.id)
}

fn completed_result(storage: &Store) -> String {
    let mut tables = storage.tables.borrow_mut();
    let result = RetainedResult {
        id: fresh_id(),
        complete: true,
        expires_at_ms: tables.now + 60_000,
    };
    tables.results.push(result.clone());
    result.id
}

fn historical_message(
    session_id: &str,
    id: String,
    ordinal: u64,
    role: AgentMessageRole,
    summary_through_ordinal: Option<u64>,
    content_json: String,
) -> AgentMessageRecord {
    AgentMessageRecord {
        id,
        session_id: session_id.to_owned(),
        run_id: None,
        ordinal,
        role,
        summary_through_ordinal,
        content_bytes: content_json.len() as u64,
        content_json,
        created_at_ms: 0,
    }
}

const DEBUG_SENTINEL: &str = "PRIVATE_STORAGE_AGENT_PAYLOAD_98c641";

fn session_input(provider_id: &str) -> CreateAgentSession {
    CreateAgentSession {
        title: "Session".to_owned(),
        provider_id: provider_id.to_owned(),
        datasource_id: None,
        system_prompt: None,
    }
}

fn create_running_run(storage: &Store, session_id: &str) -> AgentRunRecord {
    storage
        .start_agent_run(
            session_id,
            StartAgentRun {
                user_message: "hello".to_owned(),
                sql_permission_mode: SqlPermissionMode::AskBeforeWrite,
            },
        )
        .expect("run starts")
        .run
}

fn create_compactable_run(storage: &Store, session_id: &str) -> StartedAgentRun {
    for (role, text) in [
        (AgentMessageRole::User, "previous question"),
        (AgentMessageRole::Assistant, "previous answer"),
    ] {
        storage
            .append_agent_message(
                session_id,
                AppendAgentMessage {
                    role,
                    summary_through_ordinal: None,
                    content_json: message_json(text),
                },
            )
            .expect("historical message appends");
    }
    storage
        .start_agent_run(
            session_id,
            StartAgentRun {
                user_message: "current question".to_owned(),
                sql_permission_mode: SqlPermissionMode::AskBeforeWrite,
            },
        )
        .expect("run starts")
}

fn permission_input(
    tool_call_id: &str,
    digest: [u8; 32],
    last_sequence: u64,
) -> RequestToolPermission {
    RequestToolPermission {
        tool_call_id: tool_call_id.to_owned(),
        tool_name: "sql_write".to_owned(),
        arguments_sha256: digest,
        summary: "Execute one SQL write".to_owned(),
        last_sequence,
        retention: Duration::from_secs(60),
    }
}

fn message_json(text: &str) -> String {
    format!(r#"[{{"type":"text","text":"{text}"}}]"#)
}

fn compaction_input(
    last_sequence: u64,
    coverage: Option<u64>,
    summary: Option<&str>,
) -> CompactAgentRun {
    let compaction = match (coverage, summary) {
        (None, None) => AgentCompaction::NoOp,
        (Some(compacted_through_ordinal), None) => AgentCompaction::DeterministicTrim {
            compacted_through_ordinal,
        },
        (Some(compacted_through_ordinal), Some(summary)) => AgentCompaction::Summary {
            compacted_through_ordinal,
            content_json: message_json(summary),
        },
        (None, Some(_)) => panic!("summary compaction requires coverage"),
    };
    CompactAgentRun {
        last_sequence,
        model_rounds: 0,
        tool_calls: 0,
        input_tokens: 0,
        output_tokens: 0,
        total_tokens: 0,
        compaction,
    }
}

#[test]
fn session_system_prompt_is_ordinal_zero_and_revision_cas_is_enforced() {
    let (storage, provider_id) = setup();
    let second_provider = storage
        .create_provider_profile(provider_input("secondary"))
        .expect("second provider creates");
    let session = storage
        .create_agent_session(CreateAgentSession {
            title: "Initial title".to_owned(),
            provider_id,
            datasource_id: None,
            system_prompt: Some("rules".to_owned()),
        })
        .expect("session creates");
    assert_eq!(session.revision, 1);
    let messages = storage
        .list_agent_messages(&session.id, 0, 10)
        .expect("messages list");
    assert_eq!(messages.len(), 1);
    assert_eq!(messages[0].ordinal, 0);
    assert_eq!(messages[0].role, AgentMessageRole::System);
    assert_eq!(messages[0].content_json, message_json("rules"));
    assert!(!messages[0].id.is_empty());
    assert!(messages[0].run_id.is_none());

    let appended = storage
        .append_agent_message(
            &session.id,
            AppendAgentMessage {
                role: AgentMessageRole::User,
                summary_through_ordinal: None,
                content_json: " [ { \"type\" : \"text\", \"text\" : \"hello\" } ] ".to_owned(),
            },
        )
        .expect("message appends");
    assert_eq!(appended.ordinal, 1);
    assert_eq!(appended.content_json, message_json("hello"));

    let updated = storage
        .update_agent_session(
            &session.id,
            session.revision,
            UpdateAgentSession {
                title: "Renamed".to_owned(),
                provider_id: second_provider.id,
                datasource_id: None,
            },
        )
        .expect("session updates");
    assert_eq!(updated.revision, 2);
    let stale = storage
        .update_agent_session(
            &session.id,
            session.revision,
            UpdateAgentSession {
                title: "Stale".to_owned(),
                provider_id: updated.provider_id.clone(),
                datasource_id: None,
            },
        )
        .err().expect("stale session revision fails");
    assert!(matches!(
        stale,
        StorageError::AgentSessionRevisionConflict {
            actual: Some(2),
            ..
        }
    ));
}

#[test]
fn session_delete_enforces_revision_and_active_run_guards() {
    let (storage, provider_id) = setup();
    let session = storage
        .create_agent_session(session_input(&provider_id))
        .expect("session creates");
    let updated = storage
        .update_agent_session(
            &session.id,
            session.revision,
            UpdateAgentSession {
                title: "Updated".to_owned(),
                provider_id: provider_id.clone(),
                datasource_id: None,
            },
        )
        .expect("session updates");

    assert!(matches!(
        storage.delete_agent_session(&session.id, session.revision),
        Err(StorageError::AgentSessionRevisionConflict {
            actual: Some(2),
            ..
        })
    ));

    let run = create_running_run(&storage, &session.id);
    assert!(matches!(
        storage.delete_agent_session(&session.id, updated.revision),
        Err(StorageError::AgentSessionBusy(_))
    ));
    assert!(
        storage
            .get_agent_session(&session.id)
            .expect("session reads")
            .is_some()
    );
    assert!(storage.get_agent_run(&run.id).expect("run reads").is_some());
}

#[test]
fn concurrent_session_delete_has_one_winner_and_a_not_found_loser() {
    let (storage, provider_id) = setup();
    let session = storage
        .create_agent_session(session_input(&provider_id))
        .expect("session creates");
    let outcomes: Vec<_> = (0..2)
        .map(|_| storage.delete_agent_session(&session.id, session.revision))
        .collect();

    assert_eq!(outcomes.iter().filter(|outcome| outcome.is_ok()).count(), 1);
    assert_eq!(
        outcomes
            .iter()
            .filter(|outcome| {
                matches!(outcome, Err(StorageError::AgentSessionNotFound(id)) if id == &session.id)
            })
            .count(),
        1
    );
}

#[test]
fn session_delete_cascades_agent_state_but_keeps_shared_resources() {
    let (storage, provider_id) = setup();
    let datasource = storage
        .create_datasource(
            CreateDatasource {
                name: "Shared database".to_owned(),
                driver_id: "driver-a".to_owned(),
            },
        )
        .expect("datasource creates");
    let session = storage
        .create_agent_session(CreateAgentSession {
            title: "Deletable session".to_owned(),
            provider_id: provider_id.clone(),
            datasource_id: Some(datasource.id.clone()),
            system_prompt: Some("private system prompt".to_owned()),
        })
        .expect("session creates");
    let run = create_running_run(&storage, &session.id);
    let result_id = completed_result(&storage);
    let handle = storage
        .create_agent_result_handle(&session.id, &run.id, &result_id, Duration::from_secs(60))
        .expect("result handle creates");
    let digest = [11_u8; 32];
    let permission = storage
        .create_tool_permission(&run.id, permission_input("delete-cascade", digest, 2))
        .expect("permission creates");
    storage
        .decide_tool_permission(
            &permission.id,
            permission.revision,
            &run.id,
            "delete-cascade",
            digest,
            3,
            ToolPermissionDecision::Deny,
        )
        .expect("permission denies");
    storage
        .complete_agent_run(
            &run.id,
            AgentRunStatus::Running,
            CompleteAgentRun {
                last_sequence: 4,
                model_rounds: 1,
                tool_calls: 1,
                input_tokens: 1,
                output_tokens: 1,
                total_tokens: 2,
                messages: vec![AgentRunMessage {
                    role: AgentMessageRole::Assistant,
                    summary_through_ordinal: None,
                    content_json: message_json("done"),
                }],
                compaction_count: 0,
                compacted_through_ordinal: None,
            },
        )
        .expect("run completes");

    storage
        .delete_agent_session(&session.id, session.revision)
        .expect("session deletes");

    let counts = {
        let tables = storage.tables.borrow();
        (
            tables.sessions.iter().filter(|row| row.id == session.id).count(),
            tables.messages.iter().filter(|row| row.session_id == session.id).count(),
            tables.runs.iter().filter(|row| row.session_id == session.id).count(),
            tables.permissions.iter().filter(|row| row.run_id == run.id).count(),
            tables.handles.iter().filter(|row| row.session_id == session.id).count(),
        )
    };
    assert_eq!(counts, (0, 0, 0, 0, 0));
    assert!(
        storage
            .get_provider_profile(&provider_id)
            .is_some()
    );
    assert!(
        storage
            .get_datasource(&datasource.id)
            .is_some()
    );
    assert!(storage.result_is_readable(&result_id));
    assert!(matches!(
        storage.resolve_agent_result_handle(&handle.id, &session.id, &run.id),
        Err(StorageError::ResultHandleNotFound(_))
    ));
    assert!(matches!(
        storage.delete_agent_session(&session.id, session.revision),
        Err(StorageError::AgentSessionNotFound(_))
    ));
}

#[test]
fn session_message_append_cannot_interleave_with_an_active_run() {
    let (storage, provider_id) = setup();
    let session = storage
        .create_agent_session(session_input(&provider_id))
        .expect("session creates");
    let run = create_running_run(&storage, &session.id);

    assert!(matches!(
        storage.append_agent_message(
            &session.id,
            AppendAgentMessage {
                role: AgentMessageRole::Assistant,
                summary_through_ordinal: None,
                content_json: message_json("must not interleave"),
            },
        ),
        Err(StorageError::AgentSessionBusy(_))
    ));

    storage
        .complete_agent_run(
            &run.id,
            AgentRunStatus::Running,
            CompleteAgentRun {
                last_sequence: 2,
                model_rounds: 1,
                tool_calls: 0,
                input_tokens: 1,
                output_tokens: 1,
                total_tokens: 2,
                messages: vec![AgentRunMessage {
                    role: AgentMessageRole::Assistant,
                    summary_through_ordinal: None,
                    content_json: message_json("done"),
                }],
                compaction_count: 0,
                compacted_through_ordinal: None,
            },
        )
        .expect("run completes atomically");

    let appended = storage
        .append_agent_message(
            &session.id,
            AppendAgentMessage {
                role: AgentMessageRole::User,
                summary_through_ordinal: None,
                content_json: message_json("after the run"),
            },
        )
        .expect("session append resumes after the run");
    assert!(appended.run_id.is_none());
    assert_eq!(appended.ordinal, 2);
}

#[test]
fn active_run_freezes_session_provider_and_datasource_targets() {
    let (storage, provider_id) = setup();
    let provider = storage
        .get_provider_profile(&provider_id)
        .expect("provider exists");
    let second_provider = storage
        .create_provider_profile(provider_input("secondary"))
        .expect("second provider creates");
    let datasource = storage
        .create_datasource(
            CreateDatasource {
                name: "Primary database".to_owned(),
                driver_id: "driver-a".to_owned(),
            },
        )
        .expect("datasource creates");
    let second_datasource = storage
        .create_datasource(
            CreateDatasource {
                name: "Second database".to_owned(),
                driver_id: "driver-b".to_owned(),
            },
        )
        .expect("second datasource creates");
    let session = storage
        .create_agent_session(CreateAgentSession {
            title: "Session".to_owned(),
            provider_id: provider_id.clone(),
            datasource_id: Some(datasource.id.clone()),
            system_prompt: None,
        })
        .expect("session creates");
    let run = create_running_run(&storage, &session.id);

    let renamed = storage
        .update_agent_session(
            &session.id,
            session.revision,
            UpdateAgentSession {
                title: "Renamed while running".to_owned(),
                provider_id: provider_id.clone(),
                datasource_id: Some(datasource.id.clone()),
            },
        )
        .expect("title-only update preserves the execution target");
    assert!(matches!(
        storage.update_agent_session(
            &session.id,
            renamed.revision,
            UpdateAgentSession {
                title: "Unsafe rebind".to_owned(),
                provider_id: second_provider.id.clone(),
                datasource_id: Some(second_datasource.id.clone()),
            },
        ),
        Err(StorageError::AgentSessionBusy(_))
    ));
    assert!(matches!(
        storage.update_provider_profile(
            &provider.id,
            provider.revision,
            provider_input("changed while running"),
        ),
        Err(StorageError::AgentDependencyBusy {
            resource: "provider profile",
            ..
        })
    ));
    assert!(matches!(
        storage.update_datasource(
            &datasource.id,
            datasource.revision,
            UpdateDatasource {
                name: "Changed while running".to_owned(),
                driver_id: "driver-c".to_owned(),
            },
        ),
        Err(StorageError::AgentDependencyBusy {
            resource: "datasource",
            ..
        })
    ));
    assert!(matches!(
        storage.delete_datasource(&datasource.id, datasource.revision),
        Err(StorageError::AgentDependencyBusy {
            resource: "datasource",
            ..
        })
    ));

    storage
        .request_agent_run_cancellation(&run.id)
        .expect("cancellation requests");
    storage
        .finish_cancelled_agent_run(
            &run.id,
            AgentRunStatus::Running,
            CancelAgentRun {
                last_sequence: 2,
                model_rounds: 0,
                tool_calls: 0,
                input_tokens: 0,
                output_tokens: 0,
                total_tokens: 0,
                messages: Vec::new(),
                compaction_count: 0,
                compacted_through_ordinal: None,
            },
        )
        .expect("cancelled run finishes");

    storage
        .update_provider_profile(
            &provider.id,
            provider.revision,
            provider_input("changed after run"),
        )
        .expect("terminal run releases provider mutation");
    storage
        .update_datasource(
            &datasource.id,
            datasource.revision,
            UpdateDatasource {
                name: "Changed after run".to_owned(),
                driver_id: "driver-c".to_owned(),
            },
        )
        .expect("terminal run releases datasource mutation");
    storage
        .update_agent_session(
            &session.id,
            renamed.revision,
            UpdateAgentSession {
                title: "Rebound after run".to_owned(),
                provider_id: second_provider.id,
                datasource_id: Some(second_datasource.id),
            },
        )
        .expect("terminal run releases session rebind");
}

#[test]
fn message_roles_reject_incompatible_content_blocks() {
    let (storage, provider_id) = setup();
    let session = storage
        .create_agent_session(session_input(&provider_id))
        .expect("session creates");

    for (role, content_json) in [
        (
            AgentMessageRole::User,
            "[{\"type\":\"tool_calls\",\"calls\":[]}]",
        ),
        (
            AgentMessageRole::Assistant,
            "[{\"type\":\"tool_result\",\"toolCallId\":\"call-1\"}]",
        ),
        (
            AgentMessageRole::Tool,
            "[{\"type\":\"text\",\"text\":\"bad\"}]",
        ),
    ] {
        let error = storage
            .append_agent_message(
                &session.id,
                AppendAgentMessage {
                    role,
                    summary_through_ordinal: None,
                    content_json: content_json.to_owned(),
                },
            )
            .err().expect("role/content mismatch must fail");
        assert!(matches!(error, StorageError::InvalidAgent(_)));
    }
    assert!(
        storage
            .list_agent_messages(&session.id, 0, 10)
            .expect("messages list")
            .is_empty()
    );
}

#[test]
fn agent_storage_debug_redacts_prompts_sql_outputs_and_permission_summaries() {
    let (storage, provider_id) = setup();
    let create_session = CreateAgentSession {
        title: "Session".to_owned(),
        provider_id,
        datasource_id: None,
        system_prompt: Some(DEBUG_SENTINEL.to_owned()),
    };
    let mut debug_values = vec![format!("{:?}", create_session.redacted())];
    let session = storage
        .create_agent_session(create_session)
        .expect("session creates");

    let start = StartAgentRun {
        user_message: DEBUG_SENTINEL.to_owned(),
        sql_permission_mode: SqlPermissionMode::AskBeforeWrite,
    };
    debug_values.push(format!("{:?}", start.redacted()));
    let started = storage
        .start_agent_run(&session.id, start)
        .expect("run starts");
    debug_values.push(format!("{:?}", started.run.redacted()));
    debug_values.push(format!("{:?}", started.user_message.redacted()));

    let append = AppendAgentMessage {
        role: AgentMessageRole::Assistant,
        summary_through_ordinal: None,
        content_json: message_json(DEBUG_SENTINEL),
    };
    debug_values.push(format!("{:?}", append.redacted()));

    let permission_request = RequestToolPermission {
        summary: DEBUG_SENTINEL.to_owned(),
        ..permission_input("call-1", [7_u8; 32], 2)
    };
    debug_values.push(format!("{:?}", permission_request.redacted()));
    let permission = storage
        .create_tool_permission(&started.run.id, permission_request)
        .expect("permission creates");
    debug_values.push(format!("{:?}", permission.redacted()));
    storage
        .decide_tool_permission(
            &permission.id,
            permission.revision,
            &started.run.id,
            &permission.tool_call_id,
            permission.arguments_sha256,
            3,
            ToolPermissionDecision::Deny,
        )
        .expect("permission denial resumes the run");

    let failure = FailAgentRun {
        last_sequence: 4,
        model_rounds: 1,
        tool_calls: 1,
        input_tokens: 1,
        output_tokens: 1,
        total_tokens: 2,
        error_code: "provider_error".to_owned(),
        error_message: Some(DEBUG_SENTINEL.to_owned()),
        messages: vec![AgentRunMessage {
            role: AgentMessageRole::Assistant,
            summary_through_ordinal: None,
            content_json: message_json(DEBUG_SENTINEL),
        }],
        compaction_count: 0,
        compacted_through_ordinal: None,
    };
    debug_values.push(format!("{:?}", failure.redacted()));
    let failed = storage
        .fail_agent_run(&started.run.id, AgentRunStatus::Running, failure)
        .expect("run fails");
    debug_values.push(format!("{:?}", failed.run.redacted()));
    for message in &failed.messages {
        debug_values.push(format!("{:?}", message.redacted()));
    }

    for debug in debug_values {
        assert!(!debug.contains(DEBUG_SENTINEL), "sensitive Debug output: {debug}");
    }
}

#[test]
fn run_start_and_completion_atomically_persist_the_transcript_and_snapshot() {
    let (storage, provider_id) = setup();
    let session = storage
        .create_agent_session(session_input(&provider_id))
        .expect("session creates");
    let started = storage
        .start_agent_run(
            &session.id,
            StartAgentRun {
                user_message: "show recent orders".to_owned(),
                sql_permission_mode: SqlPermissionMode::ReadOnly,
            },
        )
        .expect("run starts");
    assert_eq!(started.run.status, AgentRunStatus::Running);
    assert_eq!(started.run.last_sequence, 1);
    assert_eq!(started.run.started_at_ms, Some(started.run.created_at_ms));
    assert_eq!(
        started.user_message.run_id.as_deref(),
        Some(started.run.id.as_str())
    );
    assert!(matches!(
        storage.start_agent_run(
            &session.id,
            StartAgentRun {
                user_message: "overlap".to_owned(),
                sql_permission_mode: SqlPermissionMode::ReadOnly,
            },
        ),
        Err(StorageError::AgentSessionBusy(_))
    ));

    let completed = storage
        .complete_agent_run(
            &started.run.id,
            AgentRunStatus::Running,
            CompleteAgentRun {
                last_sequence: 6,
                model_rounds: 2,
                tool_calls: 1,
                input_tokens: 10,
                output_tokens: 4,
                total_tokens: 14,
                messages: vec![
                    AgentRunMessage {
                        role: AgentMessageRole::Assistant,
                        summary_through_ordinal: None,
                        content_json: "[{\"type\":\"tool_calls\",\"calls\":[{\"id\":\"call-1\",\"name\":\"query\",\"argumentsJson\":\"{}\"}]}]".to_owned(),
                    },
                    AgentRunMessage {
                        role: AgentMessageRole::Tool,
                        summary_through_ordinal: None,
                        content_json: "[{\"type\":\"tool_result\",\"toolCallId\":\"call-1\",\"name\":\"query\",\"output\":{\"type\":\"text\",\"content\":\"ok\",\"truncated\":false}}]".to_owned(),
                    },
                    AgentRunMessage {
                        role: AgentMessageRole::Assistant,
                        summary_through_ordinal: None,
                        content_json: message_json("done"),
                    },
                ],
                compaction_count: 0,
                compacted_through_ordinal: None,
            },
        )
        .expect("run completes");
    assert_eq!(completed.run.status, AgentRunStatus::Completed);
    assert_eq!(completed.run.model_rounds, 2);
    assert_eq!(completed.run.total_tokens, 14);
    assert_eq!(completed.messages.len(), 3);
    assert_eq!(
        completed.run.message_id.as_deref(),
        completed.messages.last().map(|message| message.id.as_str())
    );
    let transcript = storage
        .list_agent_messages(&session.id, 0, 10)
        .expect("transcript reads");
    assert_eq!(transcript.len(), 4);
    assert!(
        transcript
            .windows(2)
            .all(|pair| pair[1].ordinal == pair[0].ordinal + 1)
    );
    storage
        .start_agent_run(
            &session.id,
            StartAgentRun {
                user_message: "next question".to_owned(),
                sql_permission_mode: SqlPermissionMode::ReadOnly,
            },
        )
        .expect("terminal run releases the session");
}

#[test]
fn failed_run_atomically_persists_safe_error_and_complete_messages() {
    let (storage, provider_id) = setup();
    let session = storage
        .create_agent_session(session_input(&provider_id))
        .expect("session creates");
    let run = create_running_run(&storage, &session.id);
    let failed = storage
        .fail_agent_run(
            &run.id,
            AgentRunStatus::Running,
            FailAgentRun {
                last_sequence: 2,
                model_rounds: 1,
                tool_calls: 0,
                input_tokens: 4,
                output_tokens: 1,
                total_tokens: 5,
                error_code: "provider_unavailable".to_owned(),
                error_message: Some("Provider unavailable".to_owned()),
                messages: vec![AgentRunMessage {
                    role: AgentMessageRole::Assistant,
                    summary_through_ordinal: None,
                    content_json: message_json("partial response"),
                }],
                compaction_count: 0,
                compacted_through_ordinal: None,
            },
        )
        .expect("run fails");
    assert_eq!(failed.run.status, AgentRunStatus::Failed);
    assert_eq!(
        failed.run.error_code.as_deref(),
        Some("provider_unavailable")
    );
    assert_eq!(failed.messages.len(), 1);
    assert_eq!(
        storage
            .list_agent_messages(&session.id, 0, 10)
            .expect("messages list")
            .len(),
        2
    );
}

#[test]
fn session_message_append_cannot_bypass_compaction_transaction() {
    let (storage, provider_id) = setup();
    let session = storage
        .create_agent_session(session_input(&provider_id))
        .expect("session creates");
    storage
        .append_agent_message(
            &session.id,
            AppendAgentMessage {
                role: AgentMessageRole::User,
                summary_through_ordinal: None,
                content_json: message_json("original"),
            },
        )
        .expect("original message appends");
    let summary = storage
        .append_agent_message(
            &session.id,
            AppendAgentMessage {
                role: AgentMessageRole::Summary,
                summary_through_ordinal: Some(0),
                content_json: message_json("summary"),
            },
        )
        .err().expect("standalone summary is rejected");
    assert!(matches!(summary, StorageError::InvalidAgent(_)));
    assert!(matches!(
        storage.append_agent_message(
            &session.id,
            AppendAgentMessage {
                role: AgentMessageRole::User,
                summary_through_ordinal: Some(0),
                content_json: message_json("invalid coverage"),
            },
        ),
        Err(StorageError::InvalidAgent(_))
    ));
    assert_eq!(
        storage
            .list_agent_messages(&session.id, 0, 10)
            .expect("messages list")
            .len(),
        1
    );
}

#[test]
fn session_compaction_coverage_uses_run_and_summary_maxima() {
    let (storage, provider_id) = setup();
    let session = storage
        .create_agent_session(session_input(&provider_id))
        .expect("session creates");
    assert_eq!(
        storage
            .get_agent_session_compaction_coverage(&session.id)
            .expect("empty coverage loads"),
        None
    );
    assert!(matches!(
        storage.get_agent_session_compaction_coverage("missing"),
        Err(StorageError::AgentSessionNotFound(id)) if id == "missing"
    ));

    for (role, text) in [
        (AgentMessageRole::User, "original question"),
        (AgentMessageRole::Assistant, "original answer"),
    ] {
        storage
            .append_agent_message(
                &session.id,
                AppendAgentMessage {
                    role,
                    summary_through_ordinal: None,
                    content_json: message_json(text),
                },
            )
            .expect("original message appends");
    }
    let first_summary = message_json("first historical summary");
    storage.insert_message(historical_message(
        &session.id,
        "historical-summary-1".to_owned(),
        2,
        AgentMessageRole::Summary,
        Some(1),
        first_summary,
    ));
    assert_eq!(
        storage
            .get_agent_session_compaction_coverage(&session.id)
            .expect("summary coverage loads"),
        Some(1)
    );

    let started = storage
        .start_agent_run(
            &session.id,
            StartAgentRun {
                user_message: "next question".to_owned(),
                sql_permission_mode: SqlPermissionMode::ReadOnly,
            },
        )
        .expect("run starts");
    let compacted = storage
        .compact_agent_run(
            &started.run.id,
            AgentRunStatus::Running,
            compaction_input(2, Some(2), None),
        )
        .expect("deterministic trim persists");
    assert_eq!(compacted.run.compaction_count, 1);
    assert!(compacted.summary_message.is_none());
    storage
        .complete_agent_run(
            &started.run.id,
            AgentRunStatus::Running,
            CompleteAgentRun {
                last_sequence: 3,
                model_rounds: 1,
                tool_calls: 0,
                input_tokens: 1,
                output_tokens: 1,
                total_tokens: 2,
                messages: vec![AgentRunMessage {
                    role: AgentMessageRole::Assistant,
                    summary_through_ordinal: None,
                    content_json: message_json("next answer"),
                }],
                compaction_count: 1,
                compacted_through_ordinal: Some(2),
            },
        )
        .expect("run completes");
    assert_eq!(
        storage
            .get_agent_session_compaction_coverage(&session.id)
            .expect("run coverage loads"),
        Some(2)
    );

    let later_summary = message_json("later historical summary");
    storage.insert_message(historical_message(
        &session.id,
        "historical-summary-2".to_owned(),
        5,
        AgentMessageRole::Summary,
        Some(4),
        later_summary,
    ));
    assert_eq!(
        storage
            .get_agent_session_compaction_coverage(&session.id)
            .expect("maximum coverage loads"),
        Some(4)
    );
}

#[test]
fn run_compaction_coverage_must_precede_its_initiating_user() {
    let (storage, provider_id) = setup();
    let session = storage
        .create_agent_session(session_input(&provider_id))
        .expect("session creates");
    for (role, text) in [
        (AgentMessageRole::User, "previous question"),
        (AgentMessageRole::Assistant, "previous answer"),
    ] {
        storage
            .append_agent_message(
                &session.id,
                AppendAgentMessage {
                    role,
                    summary_through_ordinal: None,
                    content_json: message_json(text),
                },
            )
            .expect("previous message appends");
    }
    let started = storage
        .start_agent_run(
            &session.id,
            StartAgentRun {
                user_message: "current question".to_owned(),
                sql_permission_mode: SqlPermissionMode::ReadOnly,
            },
        )
        .expect("run starts");
    assert_eq!(started.user_message.ordinal, 2);

    let error = storage
        .compact_agent_run(
            &started.run.id,
            AgentRunStatus::Running,
            compaction_input(2, Some(started.user_message.ordinal), None),
        )
        .err().expect("coverage cannot include the initiating user");
    assert!(matches!(error, StorageError::InvalidAgent(_)));

    let updated = storage
        .compact_agent_run(
            &started.run.id,
            AgentRunStatus::Running,
            compaction_input(2, Some(started.user_message.ordinal - 1), None),
        )
        .expect("the same sequence remains reusable after validation failure");
    assert_eq!(updated.run.compacted_through_ordinal, Some(1));
    assert!(updated.summary_message.is_none());
}

#[test]
fn summary_compaction_is_atomic_and_no_op_does_not_fabricate_coverage() {
    let (storage, provider_id) = setup();
    let session = storage
        .create_agent_session(session_input(&provider_id))
        .expect("session creates");
    for (role, text) in [
        (AgentMessageRole::User, "previous question"),
        (AgentMessageRole::Assistant, "previous answer"),
    ] {
        storage
            .append_agent_message(
                &session.id,
                AppendAgentMessage {
                    role,
                    summary_through_ordinal: None,
                    content_json: message_json(text),
                },
            )
            .expect("historical message appends");
    }
    let started = storage
        .start_agent_run(
            &session.id,
            StartAgentRun {
                user_message: "current question".to_owned(),
                sql_permission_mode: SqlPermissionMode::ReadOnly,
            },
        )
        .expect("run starts");

    let compacted = storage
        .compact_agent_run(
            &started.run.id,
            AgentRunStatus::Running,
            compaction_input(2, Some(1), Some("bounded summary")),
        )
        .expect("summary compaction commits");
    assert_eq!(compacted.run.last_sequence, 2);
    assert_eq!(compacted.run.compaction_count, 1);
    assert_eq!(compacted.run.compacted_through_ordinal, Some(1));
    let summary = compacted.summary_message.expect("summary is returned");
    assert_eq!(summary.run_id.as_deref(), Some(started.run.id.as_str()));
    assert_eq!(summary.role, AgentMessageRole::Summary);
    assert_eq!(summary.summary_through_ordinal, Some(1));
    assert_eq!(summary.content_json, message_json("bounded summary"));

    let no_op = storage
        .compact_agent_run(
            &started.run.id,
            AgentRunStatus::Running,
            compaction_input(3, None, None),
        )
        .expect("no-op compaction persists its event sequence");
    assert_eq!(no_op.run.last_sequence, 3);
    assert_eq!(no_op.run.compaction_count, 1);
    assert_eq!(no_op.run.compacted_through_ordinal, Some(1));
    assert!(no_op.summary_message.is_none());
    let messages = storage
        .list_agent_messages(&session.id, 0, 10)
        .expect("messages list");
    assert_eq!(messages.len(), 4);
    assert_eq!(
        messages
            .iter()
            .map(|message| message.ordinal)
            .collect::<Vec<_>>(),
        [0, 1, 2, 3]
    );
}

#[test]
fn compaction_requires_exact_sequence_and_session_wide_forward_coverage() {
    let (storage, provider_id) = setup();
    let session = storage
        .create_agent_session(session_input(&provider_id))
        .expect("session creates");
    let started = create_compactable_run(&storage, &session.id);

    for sequence in [1, 3] {
        assert!(matches!(
            storage.compact_agent_run(
                &started.run.id,
                AgentRunStatus::Running,
                compaction_input(sequence, Some(1), None),
            ),
            Err(StorageError::InvalidAgent(_))
        ));
    }
    assert!(
        storage
            .get_agent_run(&started.run.id)
            .expect("run reloads")
            .expect("run exists")
            == started.run
    );

    let compacted = storage
        .compact_agent_run(
            &started.run.id,
            AgentRunStatus::Running,
            compaction_input(2, Some(1), None),
        )
        .expect("exact next sequence compacts");
    assert_eq!(compacted.run.compaction_count, 1);
    for coverage in [0, 1] {
        assert!(matches!(
            storage.compact_agent_run(
                &started.run.id,
                AgentRunStatus::Running,
                compaction_input(3, Some(coverage), None),
            ),
            Err(StorageError::InvalidAgent(_))
        ));
    }
    let no_op = storage
        .compact_agent_run(
            &started.run.id,
            AgentRunStatus::Running,
            compaction_input(3, None, None),
        )
        .expect("failed coverage attempts do not consume the sequence");
    assert_eq!(no_op.run.compaction_count, 1);
    storage
        .complete_agent_run(
            &started.run.id,
            AgentRunStatus::Running,
            CompleteAgentRun {
                last_sequence: 4,
                model_rounds: 1,
                tool_calls: 0,
                input_tokens: 1,
                output_tokens: 1,
                total_tokens: 2,
                messages: vec![AgentRunMessage {
                    role: AgentMessageRole::Assistant,
                    summary_through_ordinal: None,
                    content_json: message_json("first run answer"),
                }],
                compaction_count: 1,
                compacted_through_ordinal: Some(1),
            },
        )
        .expect("first run completes");

    let second = storage
        .start_agent_run(
            &session.id,
            StartAgentRun {
                user_message: "second run".to_owned(),
                sql_permission_mode: SqlPermissionMode::ReadOnly,
            },
        )
        .expect("second run starts");
    assert!(matches!(
        storage.compact_agent_run(
            &second.run.id,
            AgentRunStatus::Running,
            compaction_input(2, Some(1), None),
        ),
        Err(StorageError::InvalidAgent(_))
    ));
    let advanced = storage
        .compact_agent_run(
            &second.run.id,
            AgentRunStatus::Running,
            compaction_input(2, Some(second.user_message.ordinal - 1), None),
        )
        .expect("new run advances session-wide coverage");
    assert_eq!(
        advanced.run.compacted_through_ordinal,
        Some(second.user_message.ordinal - 1)
    );
}

#[test]
fn compaction_rejects_waiting_cancelled_and_write_fenced_runs() {
    let (storage, provider_id) = setup();

    let waiting_session = storage
        .create_agent_session(session_input(&provider_id))
        .expect("waiting session creates");
    let waiting = create_running_run(&storage, &waiting_session.id);
    storage
        .create_tool_permission(&waiting.id, permission_input("waiting", [1; 32], 2))
        .expect("permission creates");
    assert!(matches!(
        storage.compact_agent_run(
            &waiting.id,
            AgentRunStatus::Running,
            compaction_input(3, None, None),
        ),
        Err(StorageError::AgentStateConflict { .. })
    ));

    let cancelled_session = storage
        .create_agent_session(session_input(&provider_id))
        .expect("cancelled session creates");
    let cancelled = create_running_run(&storage, &cancelled_session.id);
    let cancelled = storage
        .request_agent_run_cancellation(&cancelled.id)
        .expect("cancellation requests");
    assert!(matches!(
        storage.compact_agent_run(
            &cancelled.id,
            AgentRunStatus::Running,
            compaction_input(2, None, None),
        ),
        Err(StorageError::InvalidAgent(_))
    ));
    assert!(
        storage
            .get_agent_run(&cancelled.id)
            .expect("cancelled run reloads")
            .expect("cancelled run exists")
            == cancelled
    );

    let fenced_session = storage
        .create_agent_session(session_input(&provider_id))
        .expect("fenced session creates");
    let fenced = create_running_run(&storage, &fenced_session.id);
    let digest = [2; 32];
    let permission = storage
        .create_tool_permission(&fenced.id, permission_input("write", digest, 2))
        .expect("permission creates");
    let permission = storage
        .decide_tool_permission(
            &permission.id,
            permission.revision,
            &fenced.id,
            "write",
            digest,
            3,
            ToolPermissionDecision::Approve,
        )
        .expect("permission approves");
    storage
        .consume_tool_permission(
            &permission.id,
            permission.revision,
            &fenced.id,
            "write",
            digest,
            4,
        )
        .expect("permission installs write fence");
    let before = storage
        .get_agent_run(&fenced.id)
        .expect("fenced run reloads")
        .expect("fenced run exists");
    assert!(matches!(
        storage.compact_agent_run(
            &fenced.id,
            AgentRunStatus::Running,
            compaction_input(5, None, None),
        ),
        Err(StorageError::InvalidAgent(_))
    ));
    assert!(
        storage
            .get_agent_run(&fenced.id)
            .expect("fenced run reloads")
            .expect("fenced run exists")
            == before
    );
}

#[test]
fn invalid_or_quota_blocked_summary_leaves_progress_reusable_for_trim() {
    let (storage, provider_id) = setup();
    let session = storage
        .create_agent_session(session_input(&provider_id))
        .expect("session creates");
    let started = create_compactable_run(&storage, &session.id);
    let oversized = message_json(
        &"x".repeat(usize::try_from(MAX_AGENT_MESSAGE_BYTES).expect("limit fits usize")),
    );
    for content_json in [
        "[]".to_owned(),
        message_json(""),
        message_json("   "),
        r#"[{"type":"tool_calls","calls":[{"id":"call-1","name":"sql_read","argumentsJson":"{}"}]}]"#.to_owned(),
        r#"[{"type":"text","text":"visible","hiddenReasoning":"secret"}]"#.to_owned(),
        oversized,
    ] {
        let input = CompactAgentRun {
            last_sequence: 2,
            model_rounds: 0,
            tool_calls: 0,
            input_tokens: 0,
            output_tokens: 0,
            total_tokens: 0,
            compaction: AgentCompaction::Summary {
                compacted_through_ordinal: 1,
                content_json,
            },
        };
        assert!(storage
            .compact_agent_run(&started.run.id, AgentRunStatus::Running, input)
            .is_err());
        assert!(
            storage
                .get_agent_run(&started.run.id)
                .expect("run reloads")
                .expect("run exists")
                == started.run
        );
    }
    let trimmed = storage
        .compact_agent_run(
            &started.run.id,
            AgentRunStatus::Running,
            compaction_input(2, Some(1), None),
        )
        .expect("invalid summaries leave sequence reusable for trim");
    assert_eq!(trimmed.run.compaction_count, 1);
    assert!(trimmed.summary_message.is_none());
    assert_eq!(
        storage
            .list_agent_messages(&session.id, 0, 10)
            .expect("messages list")
            .len(),
        3
    );

    let full_session = storage
        .create_agent_session(session_input(&provider_id))
        .expect("full session creates");
    let full_started = create_compactable_run(&storage, &full_session.id);
    for value in 3..MAX_AGENT_MESSAGES_PER_SESSION {
        storage.insert_message(historical_message(
            &full_session.id,
            format!("{}-fill-{value}", full_session.id),
            value,
            AgentMessageRole::Assistant,
            None,
            message_json("x"),
        ));
    }
    let quota_error = storage
        .compact_agent_run(
            &full_started.run.id,
            AgentRunStatus::Running,
            compaction_input(2, Some(1), Some("cannot append")),
        )
        .err().expect("summary respects the session message quota");
    assert!(matches!(
        quota_error,
        StorageError::AgentQuotaExceeded {
            resource: "session message count",
            ..
        }
    ));
    assert!(
        storage
            .get_agent_run(&full_started.run.id)
            .expect("full run reloads")
            .expect("full run exists")
            == full_started.run
    );
    let trimmed = storage
        .compact_agent_run(
            &full_started.run.id,
            AgentRunStatus::Running,
            compaction_input(2, Some(1), None),
        )
        .expect("trim succeeds without inserting into a full session");
    assert_eq!(trimmed.run.compaction_count, 1);
    assert!(trimmed.summary_message.is_none());
    assert_eq!(
        storage
            .list_agent_messages(&full_session.id, MAX_AGENT_MESSAGES_PER_SESSION - 1, 1,)
            .expect("last message remains")
            .len(),
        1
    );
}

#[test]
fn compaction_rolls_back_and_reconciles_or_reports_post_commit_outcomes() {
    let (storage, provider_id) = setup();

    let create_run_with_history = |title: &str| {
        let session = storage
            .create_agent_session(CreateAgentSession {
                title: title.to_owned(),
                provider_id: provider_id.clone(),
                datasource_id: None,
                system_prompt: None,
            })
            .expect("session creates");
        for (role, text) in [
            (AgentMessageRole::User, "previous question"),
            (AgentMessageRole::Assistant, "previous answer"),
        ] {
            storage
                .append_agent_message(
                    &session.id,
                    AppendAgentMessage {
                        role,
                        summary_through_ordinal: None,
                        content_json: message_json(text),
                    },
                )
                .expect("historical message appends");
        }
        let started = storage
            .start_agent_run(
                &session.id,
                StartAgentRun {
                    user_message: "current question".to_owned(),
                    sql_permission_mode: SqlPermissionMode::ReadOnly,
                },
            )
            .expect("run starts");
        (session, started)
    };

    let (rollback_session, rollback_started) = create_run_with_history("rollback");
    storage.inject_faults(&[FaultPoint::CompactionBeforeCommit]);
    let error = storage
        .compact_agent_run(
            &rollback_started.run.id,
            AgentRunStatus::Running,
            compaction_input(2, Some(1), Some("must roll back")),
        )
        .err().expect("pre-commit fault fails");
    assert!(matches!(error, StorageError::Integrity(_)));
    let rolled_back = storage
        .get_agent_run(&rollback_started.run.id)
        .expect("run reloads")
        .expect("run exists");
    assert_eq!(rolled_back.last_sequence, 1);
    assert_eq!(rolled_back.compaction_count, 0);
    assert_eq!(rolled_back.compacted_through_ordinal, None);
    assert_eq!(
        storage
            .list_agent_messages(&rollback_session.id, 0, 10)
            .expect("messages list")
            .len(),
        3
    );
    storage.inject_faults(&[FaultPoint::CompactionCommitFailure]);
    let error = storage
        .compact_agent_run(
            &rollback_started.run.id,
            AgentRunStatus::Running,
            compaction_input(2, Some(1), Some("commit failure rolls back")),
        )
        .err().expect("commit failure reconciles as not applied");
    assert!(matches!(error, StorageError::Integrity(_)));
    assert_eq!(
        storage
            .get_agent_run(&rollback_started.run.id)
            .expect("run reloads")
            .expect("run exists")
            .last_sequence,
        1
    );
    assert_eq!(
        storage
            .list_agent_messages(&rollback_session.id, 0, 10)
            .expect("messages list")
            .len(),
        3
    );
    storage
        .compact_agent_run(
            &rollback_started.run.id,
            AgentRunStatus::Running,
            compaction_input(2, Some(1), None),
        )
        .expect("the rolled-back sequence remains reusable");

    let (reconciled_session, reconciled_started) = create_run_with_history("reconciled");
    storage.inject_faults(&[FaultPoint::CompactionAfterCommit]);
    let reconciled = storage
        .compact_agent_run(
            &reconciled_started.run.id,
            AgentRunStatus::Running,
            compaction_input(2, Some(1), Some("durable and reconciled")),
        )
        .expect("exact readback reconciles the post-commit failure");
    assert_eq!(reconciled.run.last_sequence, 2);
    assert!(reconciled.summary_message.is_some());
    assert_eq!(
        storage
            .list_agent_messages(&reconciled_session.id, 0, 10)
            .expect("messages list")
            .iter()
            .filter(|message| message.role == AgentMessageRole::Summary)
            .count(),
        1
    );

    let (unknown_session, unknown_started) = create_run_with_history("unknown");
    storage.inject_faults(&[
        FaultPoint::CompactionAfterCommit,
        FaultPoint::CompactionReadback,
    ]);
    let error = storage
        .compact_agent_run(
            &unknown_started.run.id,
            AgentRunStatus::Running,
            compaction_input(2, Some(1), Some("durable but unreadable")),
        )
        .err().expect("unavailable readback leaves an unknown outcome");
    assert!(matches!(
        error,
        StorageError::OutcomeUnknown {
            operation: "compact agent run",
            ..
        }
    ));
    let durable = storage
        .get_agent_run(&unknown_started.run.id)
        .expect("run reloads")
        .expect("run exists");
    assert_eq!(durable.last_sequence, 2);
    assert_eq!(durable.compaction_count, 1);
    assert_eq!(durable.compacted_through_ordinal, Some(1));
    assert_eq!(
        storage
            .list_agent_messages(&unknown_session.id, 0, 10)
            .expect("messages list")
            .iter()
            .filter(|message| message.role == AgentMessageRole::Summary)
            .count(),
        1
    );
    assert!(matches!(
        storage.compact_agent_run(
            &unknown_started.run.id,
            AgentRunStatus::Running,
            compaction_input(2, Some(1), Some("must not duplicate")),
        ),
        Err(StorageError::InvalidAgent(_))
    ));
}

#[test]
fn compaction_state_cannot_bypass_the_dedicated_transaction() {
    let (storage, provider_id) = setup();
    let session = storage
        .create_agent_session(session_input(&provider_id))
        .expect("session creates");
    for (role, text) in [
        (AgentMessageRole::User, "previous question"),
        (AgentMessageRole::Assistant, "previous answer"),
    ] {
        storage
            .append_agent_message(
                &session.id,
                AppendAgentMessage {
                    role,
                    summary_through_ordinal: None,
                    content_json: message_json(text),
                },
            )
            .expect("historical message appends");
    }
    let started = storage
        .start_agent_run(
            &session.id,
            StartAgentRun {
                user_message: "current question".to_owned(),
                sql_permission_mode: SqlPermissionMode::ReadOnly,
            },
        )
        .expect("run starts");
    let update = AgentRunUpdate {
        status: AgentRunStatus::Running,
        last_sequence: 2,
        model_rounds: 0,
        tool_calls: 0,
        input_tokens: 0,
        output_tokens: 0,
        total_tokens: 0,
        compaction_count: 1,
        compacted_through_ordinal: Some(1),
    };
    assert!(matches!(
        storage.update_agent_run(&started.run.id, AgentRunStatus::Running, update),
        Err(StorageError::InvalidAgent(_))
    ));
    assert!(matches!(
        storage.complete_agent_run(
            &started.run.id,
            AgentRunStatus::Running,
            CompleteAgentRun {
                last_sequence: 2,
                model_rounds: 1,
                tool_calls: 0,
                input_tokens: 1,
                output_tokens: 1,
                total_tokens: 2,
                messages: vec![AgentRunMessage {
                    role: AgentMessageRole::Assistant,
                    summary_through_ordinal: None,
                    content_json: message_json("answer"),
                }],
                compaction_count: 1,
                compacted_through_ordinal: Some(1),
            },
        ),
        Err(StorageError::InvalidAgent(_))
    ));
    let current = storage
        .get_agent_run(&started.run.id)
        .expect("run reloads")
        .expect("run exists");
    assert_eq!(current.last_sequence, 1);
    assert_eq!(current.compaction_count, 0);
    assert_eq!(
        storage
            .list_agent_messages(&session.id, 0, 10)
            .expect("messages list")
            .len(),
        3
    );
}

#[test]
fn terminal_apis_and_message_batches_cannot_bypass_compaction_transaction() {
    let (storage, provider_id) = setup();

    let failed_session = storage
        .create_agent_session(session_input(&provider_id))
        .expect("failed session creates");
    let failed = create_compactable_run(&storage, &failed_session.id);
    let summary_batch = FailAgentRun {
        last_sequence: 2,
        model_rounds: 0,
        tool_calls: 0,
        input_tokens: 0,
        output_tokens: 0,
        total_tokens: 0,
        error_code: "provider_failed".to_owned(),
        error_message: None,
        messages: vec![AgentRunMessage {
            role: AgentMessageRole::Summary,
            summary_through_ordinal: Some(1),
            content_json: message_json("bypass"),
        }],
        compaction_count: 0,
        compacted_through_ordinal: None,
    };
    assert!(matches!(
        storage.fail_agent_run(&failed.run.id, AgentRunStatus::Running, summary_batch,),
        Err(StorageError::InvalidAgent(_))
    ));
    let forged_failure = FailAgentRun {
        last_sequence: 2,
        model_rounds: 0,
        tool_calls: 0,
        input_tokens: 0,
        output_tokens: 0,
        total_tokens: 0,
        error_code: "provider_failed".to_owned(),
        error_message: None,
        messages: Vec::new(),
        compaction_count: 1,
        compacted_through_ordinal: Some(1),
    };
    assert!(matches!(
        storage.fail_agent_run(&failed.run.id, AgentRunStatus::Running, forged_failure,),
        Err(StorageError::InvalidAgent(_))
    ));
    assert!(
        storage
            .get_agent_run(&failed.run.id)
            .expect("failed run reloads")
            .expect("failed run exists")
            == failed.run
    );

    let cancelled_session = storage
        .create_agent_session(session_input(&provider_id))
        .expect("cancelled session creates");
    let cancelled = create_compactable_run(&storage, &cancelled_session.id);
    let cancelled = storage
        .request_agent_run_cancellation(&cancelled.run.id)
        .expect("cancellation requests");
    assert!(matches!(
        storage.finish_cancelled_agent_run(
            &cancelled.id,
            AgentRunStatus::Running,
            CancelAgentRun {
                last_sequence: 2,
                model_rounds: 0,
                tool_calls: 0,
                input_tokens: 0,
                output_tokens: 0,
                total_tokens: 0,
                messages: Vec::new(),
                compaction_count: 1,
                compacted_through_ordinal: Some(1),
            },
        ),
        Err(StorageError::InvalidAgent(_))
    ));
    assert!(
        storage
            .get_agent_run(&cancelled.id)
            .expect("cancelled run reloads")
            .expect("cancelled run exists")
            == cancelled
    );

    let unknown_session = storage
        .create_agent_session(session_input(&provider_id))
        .expect("unknown session creates");
    let unknown = create_compactable_run(&storage, &unknown_session.id);
    let digest = [3; 32];
    let permission = storage
        .create_tool_permission(&unknown.run.id, permission_input("write", digest, 2))
        .expect("permission creates");
    let permission = storage
        .decide_tool_permission(
            &permission.id,
            permission.revision,
            &unknown.run.id,
            "write",
            digest,
            3,
            ToolPermissionDecision::Approve,
        )
        .expect("permission approves");
    storage
        .consume_tool_permission(
            &permission.id,
            permission.revision,
            &unknown.run.id,
            "write",
            digest,
            4,
        )
        .expect("permission installs write fence");
    let before_unknown = storage
        .get_agent_run(&unknown.run.id)
        .expect("unknown run reloads")
        .expect("unknown run exists");
    assert!(matches!(
        storage.fail_agent_write_outcome_unknown(
            &unknown.run.id,
            "write",
            digest,
            UnknownAgentWrite {
                last_sequence: 5,
                model_rounds: 0,
                tool_calls: 0,
                input_tokens: 0,
                output_tokens: 0,
                total_tokens: 0,
                messages: Vec::new(),
                compaction_count: 1,
                compacted_through_ordinal: Some(1),
            },
        ),
        Err(StorageError::InvalidAgent(_))
    ));
    assert!(
        storage
            .get_agent_run(&unknown.run.id)
            .expect("unknown run reloads")
            .expect("unknown run exists")
            == before_unknown
    );
}

#[test]
fn message_single_and_count_limits_are_hard_and_reserved_payloads_are_rejected() {
    let (storage, provider_id) = setup();
    let session = storage
        .create_agent_session(session_input(&provider_id))
        .expect("session creates");

    let oversized = format!(
        "[{{\"type\":\"text\",\"text\":\"{}\"}}]",
        "x".repeat(usize::try_from(MAX_AGENT_MESSAGE_BYTES).expect("limit fits usize"))
    );
    let error = storage
        .append_agent_message(
            &session.id,
            AppendAgentMessage {
                role: AgentMessageRole::User,
                summary_through_ordinal: None,
                content_json: oversized,
            },
        )
        .err().expect("oversized message fails");
    assert!(matches!(error, StorageError::AgentQuotaExceeded { .. }));
    let hidden = storage
        .append_agent_message(
            &session.id,
            AppendAgentMessage {
                role: AgentMessageRole::Assistant,
                summary_through_ordinal: None,
                content_json: "[{\"type\":\"text\",\"hidden_reasoning\":\"never persist\"}]"
                    .to_owned(),
            },
        )
        .err().expect("hidden reasoning fails");
    assert!(matches!(hidden, StorageError::InvalidAgent(_)));
    for content_json in [
        r#"[{"type":"text","text":"ok","hiddenReasoning":"SECRET"}]"#,
        r#"[{"type":"text","text":"ok","rawProviderDelta":"SECRET"}]"#,
        r#"[{"type":"text","text":"ok","apiKey":"SECRET"}]"#,
        r#"[{"type":"text","text":"ok","unexpected":"SECRET"}]"#,
    ] {
        let unknown = storage
            .append_agent_message(
                &session.id,
                AppendAgentMessage {
                    role: AgentMessageRole::Assistant,
                    summary_through_ordinal: None,
                    content_json: content_json.to_owned(),
                },
            )
            .err().expect("unknown canonical fields fail closed");
        assert!(matches!(unknown, StorageError::InvalidAgent(_)));
    }
    assert!(
        storage
            .list_agent_messages(&session.id, 0, 10)
            .expect("messages list")
            .is_empty()
    );

    for value in 0..64 * 64 {
        storage.insert_message(historical_message(
            &session.id,
            format!("{}-{value}", session.id),
            value,
            AgentMessageRole::User,
            None,
            message_json("x"),
        ));
    }
    let count_error = storage
        .append_agent_message(
            &session.id,
            AppendAgentMessage {
                role: AgentMessageRole::User,
                summary_through_ordinal: None,
                content_json: message_json("x"),
            },
        )
        .err().expect("message count limit fails");
    assert!(matches!(
        count_error,
        StorageError::AgentQuotaExceeded { .. }
    ));

    let byte_session = storage
        .create_agent_session(session_input(&provider_id))
        .expect("byte-limit session creates");
    let maximum = usize::try_from(MAX_AGENT_MESSAGE_BYTES).expect("limit fits usize");
    let empty_message_bytes = message_json("").len();
    let canonical = message_json(&"x".repeat(maximum - empty_message_bytes));
    assert_eq!(canonical.len(), maximum);
    let rows = MAX_AGENT_MESSAGE_BYTES_PER_SESSION / MAX_AGENT_MESSAGE_BYTES;
    for value in 0..rows {
        storage.insert_message(historical_message(
            &byte_session.id,
            format!("{}-{value}", byte_session.id),
            value,
            AgentMessageRole::User,
            None,
            canonical.clone(),
        ));
    }
    let bytes_error = storage
        .append_agent_message(
            &byte_session.id,
            AppendAgentMessage {
                role: AgentMessageRole::User,
                summary_through_ordinal: None,
                content_json: message_json("x"),
            },
        )
        .err().expect("message byte limit fails");
    assert!(matches!(
        bytes_error,
        StorageError::AgentQuotaExceeded {
            resource: "session message bytes",
            ..
        }
    ));
}

#[test]
fn approved_permission_is_bound_and_can_be_consumed_exactly_once() {
    let (storage, provider_id) = setup();
    let session = storage
        .create_agent_session(session_input(&provider_id))
        .expect("session creates");
    let run = create_running_run(&storage, &session.id);
    let digest = [7_u8; 32];
    let pending = storage
        .create_tool_permission(&run.id, permission_input("tool-call-1", digest, 2))
        .expect("permission creates");
    for (run_id, tool_call_id, candidate_digest) in [
        ("wrong-run", "tool-call-1", digest),
        (run.id.as_str(), "wrong-call", digest),
        (run.id.as_str(), "tool-call-1", [8_u8; 32]),
    ] {
        let error = storage
            .decide_tool_permission(
                &pending.id,
                pending.revision,
                run_id,
                tool_call_id,
                candidate_digest,
                3,
                ToolPermissionDecision::Approve,
            )
            .err().expect("misrouted decision must fail");
        assert!(matches!(
            error,
            StorageError::PermissionNotExecutable { .. }
        ));
    }
    let approved = storage
        .decide_tool_permission(
            &pending.id,
            pending.revision,
            &run.id,
            "tool-call-1",
            digest,
            3,
            ToolPermissionDecision::Approve,
        )
        .expect("permission approves");
    let mismatch = storage
        .consume_tool_permission(
            &approved.id,
            approved.revision,
            &run.id,
            "tool-call-1",
            [8_u8; 32],
            4,
        )
        .err().expect("argument mismatch cannot consume");
    assert!(matches!(
        mismatch,
        StorageError::PermissionNotExecutable { .. }
    ));

    let outcomes: Vec<_> = (0..2)
        .map(|_| {
            storage.consume_tool_permission(
                &approved.id,
                approved.revision,
                &run.id,
                "tool-call-1",
                digest,
                4,
            )
        })
        .collect();
    assert_eq!(outcomes.iter().filter(|outcome| outcome.is_ok()).count(), 1);
    let consumed = storage
        .get_tool_permission(&approved.id)
        .expect("permission reads")
        .expect("permission exists");
    assert_eq!(consumed.status, ToolPermissionStatus::Consumed);
    let fenced = storage
        .get_agent_run(&run.id)
        .expect("run reads")
        .expect("run exists");
    assert_eq!(
        fenced.write_in_flight_tool_call_id.as_deref(),
        Some("tool-call-1")
    );
    storage
        .settle_agent_write(&run.id, "tool-call-1", digest)
        .expect("known write outcome clears fence");
    assert!(
        storage
            .get_agent_run(&run.id)
            .expect("run reads")
            .expect("run exists")
            .write_in_flight_tool_call_id
            .is_none()
    );
}

#[test]
fn expired_denied_permission_cannot_resume_a_new_permission_wait() {
    let (storage, provider_id) = setup();

    let denied_session = storage
        .create_agent_session(session_input(&provider_id))
        .expect("denied session creates");
    let denied_run = create_running_run(&storage, &denied_session.id);
    let denied_digest = [21_u8; 32];
    let denied = storage
        .create_tool_permission(
            &denied_run.id,
            permission_input("old-denied", denied_digest, 2),
        )
        .expect("old denied permission creates");
    let denied = storage
        .decide_tool_permission(
            &denied.id,
            denied.revision,
            &denied_run.id,
            "old-denied",
            denied_digest,
            3,
            ToolPermissionDecision::Deny,
        )
        .expect("old permission denies");
    let new_denied_wait = storage
        .create_tool_permission(
            &denied_run.id,
            permission_input("new-after-denied", [22_u8; 32], 4),
        )
        .expect("new pending permission creates");
    for permission in &mut storage.tables.borrow_mut().permissions {
        if permission.id == denied.id {
            permission.expires_at_ms = 0;
        }
    }
    assert!(matches!(
        storage.decide_tool_permission(
            &denied.id,
            denied.revision,
            &denied_run.id,
            "old-denied",
            denied_digest,
            5,
            ToolPermissionDecision::Deny,
        ),
        Err(StorageError::PermissionNotExecutable { .. })
    ));
    assert_eq!(
        storage
            .get_active_tool_permission_for_run(&denied_run.id)
            .expect("active permission reads")
            .expect("new permission remains active")
            .id,
        new_denied_wait.id
    );
    assert_eq!(
        storage
            .get_agent_run(&denied_run.id)
            .expect("run reads")
            .expect("run exists")
            .status,
        AgentRunStatus::WaitingPermission
    );
}

#[test]
fn expired_consumed_permission_cannot_resume_a_new_permission_wait() {
    let (storage, provider_id) = setup();
    let consumed_session = storage
        .create_agent_session(session_input(&provider_id))
        .expect("consumed session creates");
    let consumed_run = create_running_run(&storage, &consumed_session.id);
    let consumed_digest = [23_u8; 32];
    let consumed = storage
        .create_tool_permission(
            &consumed_run.id,
            permission_input("old-consumed", consumed_digest, 2),
        )
        .expect("old consumed permission creates");
    let consumed = storage
        .decide_tool_permission(
            &consumed.id,
            consumed.revision,
            &consumed_run.id,
            "old-consumed",
            consumed_digest,
            3,
            ToolPermissionDecision::Approve,
        )
        .expect("old consumed permission approves");
    let consumed = storage
        .consume_tool_permission(
            &consumed.id,
            consumed.revision,
            &consumed_run.id,
            "old-consumed",
            consumed_digest,
            4,
        )
        .expect("old approval consumes");
    storage
        .settle_agent_write(&consumed_run.id, "old-consumed", consumed_digest)
        .expect("old write settles");
    let new_consumed_wait = storage
        .create_tool_permission(
            &consumed_run.id,
            permission_input("new-after-consumed", [24_u8; 32], 5),
        )
        .expect("new pending permission creates");
    for permission in &mut storage.tables.borrow_mut().permissions {
        if permission.id == consumed.id {
            permission.expires_at_ms = 0;
        }
    }
    assert!(matches!(
        storage.consume_tool_permission_at(
            &consumed.id,
            consumed.revision,
            &consumed_run.id,
            "old-consumed",
            consumed_digest,
            6,
            1,
        ),
        Err(StorageError::PermissionNotExecutable { .. })
    ));
    assert_eq!(
        storage
            .get_active_tool_permission_for_run(&consumed_run.id)
            .expect("active permission reads")
            .expect("new permission remains active")
            .id,
        new_consumed_wait.id
    );
    assert_eq!(
        storage
            .get_agent_run(&consumed_run.id)
            .expect("run reads")
            .expect("run exists")
            .status,
        AgentRunStatus::WaitingPermission
    );
}

#[test]
fn cancellation_waits_for_a_known_write_outcome_then_commits_messages_atomically() {
    let (storage, provider_id) = setup();
    let session = storage
        .create_agent_session(session_input(&provider_id))
        .expect("session creates");
    let run = create_running_run(&storage, &session.id);
    let digest = [9_u8; 32];
    let pending = storage
        .create_tool_permission(&run.id, permission_input("write", digest, 2))
        .expect("permission creates");
    let approved = storage
        .decide_tool_permission(
            &pending.id,
            pending.revision,
            &run.id,
            "write",
            digest,
            3,
            ToolPermissionDecision::Approve,
        )
        .expect("permission approves");
    storage
        .consume_tool_permission(&approved.id, approved.revision, &run.id, "write", digest, 4)
        .expect("write fence installs");
    let requested = storage
        .request_agent_run_cancellation(&run.id)
        .expect("cancellation requests");
    assert!(requested.cancel_requested);
    assert_eq!(requested.status, AgentRunStatus::Running);

    let cancellation = CancelAgentRun {
        last_sequence: 5,
        model_rounds: 1,
        tool_calls: 1,
        input_tokens: 1,
        output_tokens: 1,
        total_tokens: 2,
        messages: vec![AgentRunMessage {
            role: AgentMessageRole::Tool,
            summary_through_ordinal: None,
            content_json: "[{\"type\":\"tool_result\",\"toolCallId\":\"write\",\"name\":\"sql_write\",\"output\":{\"type\":\"text\",\"content\":\"unknown\",\"truncated\":false}}]".to_owned(),
        }],
        compaction_count: 0,
        compacted_through_ordinal: None,
    };
    assert!(matches!(
        storage.finish_cancelled_agent_run(
            &run.id,
            AgentRunStatus::Running,
            cancellation.clone(),
        ),
        Err(StorageError::InvalidAgent(_))
    ));
    storage
        .settle_agent_write(&run.id, "write", digest)
        .expect("known outcome clears fence");
    let cancelled = storage
        .finish_cancelled_agent_run(&run.id, AgentRunStatus::Running, cancellation)
        .expect("cancellation and transcript commit");
    assert_eq!(cancelled.run.status, AgentRunStatus::Cancelled);
    assert_eq!(cancelled.messages.len(), 1);
    assert_eq!(
        storage
            .list_agent_messages(&session.id, 0, 10)
            .expect("messages list")
            .len(),
        2
    );
}

#[test]
fn unknown_write_outcome_fails_atomically_and_retains_the_exact_fence() {
    let (storage, provider_id) = setup();
    let session = storage
        .create_agent_session(session_input(&provider_id))
        .expect("session creates");
    let run = create_running_run(&storage, &session.id);
    let digest = [10_u8; 32];
    let pending = storage
        .create_tool_permission(&run.id, permission_input("uncertain", digest, 2))
        .expect("permission creates");
    let approved = storage
        .decide_tool_permission(
            &pending.id,
            pending.revision,
            &run.id,
            "uncertain",
            digest,
            3,
            ToolPermissionDecision::Approve,
        )
        .expect("permission approves");
    storage
        .consume_tool_permission(
            &approved.id,
            approved.revision,
            &run.id,
            "uncertain",
            digest,
            4,
        )
        .expect("write fence installs");
    let failed = storage
        .fail_agent_write_outcome_unknown(
            &run.id,
            "uncertain",
            digest,
            UnknownAgentWrite {
                last_sequence: 5,
                model_rounds: 1,
                tool_calls: 1,
                input_tokens: 1,
                output_tokens: 0,
                total_tokens: 1,
                messages: Vec::new(),
                compaction_count: 0,
                compacted_through_ordinal: None,
            },
        )
        .expect("unknown outcome fails closed");
    assert_eq!(failed.run.status, AgentRunStatus::Failed);
    assert_eq!(
        failed.run.error_code.as_deref(),
        Some("database_outcome_unknown")
    );
    assert_eq!(
        failed.run.write_in_flight_tool_call_id.as_deref(),
        Some("uncertain")
    );
    assert!(
        storage
            .settle_agent_write(&run.id, "uncertain", digest)
            .is_err()
    );
}

#[test]
fn denied_expired_and_cancelled_permissions_never_execute() {
    let (storage, provider_id) = setup();
    let session = storage
        .create_agent_session(session_input(&provider_id))
        .expect("session creates");

    let denied_run = create_running_run(&storage, &session.id);
    let denied = storage
        .create_tool_permission(&denied_run.id, permission_input("denied", [1_u8; 32], 2))
        .expect("permission creates");
    let denied = storage
        .decide_tool_permission(
            &denied.id,
            denied.revision,
            &denied_run.id,
            "denied",
            [1_u8; 32],
            3,
            ToolPermissionDecision::Deny,
        )
        .expect("permission denies");
    assert!(
        storage
            .consume_tool_permission(
                &denied.id,
                denied.revision,
                &denied_run.id,
                "denied",
                [1_u8; 32],
                4,
            )
            .is_err()
    );

    let cancelled_session = storage
        .create_agent_session(session_input(&provider_id))
        .expect("cancelled session creates");
    let cancelled_run = create_running_run(&storage, &cancelled_session.id);
    let approved = storage
        .create_tool_permission(
            &cancelled_run.id,
            permission_input("cancelled", [2_u8; 32], 2),
        )
        .and_then(|permission| {
            storage.decide_tool_permission(
                &permission.id,
                permission.revision,
                &cancelled_run.id,
                "cancelled",
                [2_u8; 32],
                3,
                ToolPermissionDecision::Approve,
            )
        })
        .expect("permission approves");
    storage
        .request_agent_run_cancellation(&cancelled_run.id)
        .expect("run cancellation requests");
    let revoked = storage
        .get_tool_permission(&approved.id)
        .expect("permission reads")
        .expect("permission exists");
    assert_eq!(revoked.status, ToolPermissionStatus::Revoked);
    assert!(
        storage
            .consume_tool_permission(
                &revoked.id,
                revoked.revision,
                &cancelled_run.id,
                "cancelled",
                [2_u8; 32],
                4,
            )
            .is_err()
    );

    let expiry_session = storage
        .create_agent_session(session_input(&provider_id))
        .expect("expiry session creates");
    let expiry_run = create_running_run(&storage, &expiry_session.id);
    let expired = storage
        .create_tool_permission(&expiry_run.id, permission_input("expired", [3_u8; 32], 2))
        .and_then(|permission| {
            storage.decide_tool_permission(
                &permission.id,
                permission.revision,
                &expiry_run.id,
                "expired",
                [3_u8; 32],
                3,
                ToolPermissionDecision::Approve,
            )
        })
        .expect("permission approves");
    for permission in &mut storage.tables.borrow_mut().permissions {
        if permission.id == expired.id {
            permission.expires_at_ms = 20;
        }
    }
    let expiry_error = storage
        .consume_tool_permission_at(
            &expired.id,
            expired.revision,
            &expiry_run.id,
            "expired",
            [3_u8; 32],
            4,
            20,
        )
        .err().expect("expired permission fails");
    assert!(matches!(
        expiry_error,
        StorageError::PermissionNotExecutable { .. }
    ));
    assert_eq!(
        storage
            .get_tool_permission(&expired.id)
            .expect("permission reads")
            .expect("permission exists")
            .status,
        ToolPermissionStatus::Expired
    );
}

#[test]
fn result_handles_enforce_owner_and_expiry_without_copying_results() {
    let (storage, provider_id) = setup();
    let first_session = storage
        .create_agent_session(session_input(&provider_id))
        .expect("first session creates");
    let second_session = storage
        .create_agent_session(session_input(&provider_id))
        .expect("second session creates");
    let first_run = create_running_run(&storage, &first_session.id);
    let second_run = create_running_run(&storage, &second_session.id);
    let result_id = completed_result(&storage);
    let timestamp = storage.tables.borrow().now;
    let handle = storage
        .create_agent_result_handle_at(
            &first_session.id,
            &first_run.id,
            &result_id,
            timestamp,
            timestamp + 10,
        )
        .expect("handle creates");
    assert_eq!(
        storage
            .resolve_agent_result_handle_at(
                &handle.id,
                &first_session.id,
                &first_run.id,
                timestamp,
            )
            .expect("owner resolves")
            .result_id,
        result_id
    );
    assert!(matches!(
        storage.resolve_agent_result_handle_at(
            &handle.id,
            &second_session.id,
            &second_run.id,
            timestamp,
        ),
        Err(StorageError::ResultHandleNotFound(_))
    ));
    assert!(matches!(
        storage.resolve_agent_result_handle_at(
            &handle.id,
            &first_session.id,
            &first_run.id,
            timestamp + 10,
        ),
        Err(StorageError::ResultHandleNotFound(_))
    ));
    assert!(storage.result_is_readable(&result_id));
}

#[test]
fn startup_interrupts_runs_revokes_permissions_and_removes_expired_handles() {
    let (storage, provider_id) = setup();
    let session = storage
        .create_agent_session(session_input(&provider_id))
        .expect("session creates");
    let running = create_running_run(&storage, &session.id);
    let waiting_session = storage
        .create_agent_session(session_input(&provider_id))
        .expect("waiting session creates");
    let waiting = create_running_run(&storage, &waiting_session.id);
    let pending = storage
        .create_tool_permission(&running.id, permission_input("pending", [4_u8; 32], 2))
        .expect("pending permission creates");
    let approved = storage
        .create_tool_permission(&waiting.id, permission_input("approved", [5_u8; 32], 2))
        .and_then(|permission| {
            storage.decide_tool_permission(
                &permission.id,
                permission.revision,
                &waiting.id,
                "approved",
                [5_u8; 32],
                3,
                ToolPermissionDecision::Approve,
            )
        })
        .expect("permission approves");
    let write_session = storage
        .create_agent_session(session_input(&provider_id))
        .expect("write session creates");
    let write_run = create_running_run(&storage, &write_session.id);
    let write_digest = [6_u8; 32];
    let write_permission = storage
        .create_tool_permission(
            &write_run.id,
            permission_input("in-flight", write_digest, 2),
        )
        .and_then(|permission| {
            storage.decide_tool_permission(
                &permission.id,
                permission.revision,
                &write_run.id,
                "in-flight",
                write_digest,
                3,
                ToolPermissionDecision::Approve,
            )
        })
        .and_then(|permission| {
            storage.consume_tool_permission(
                &permission.id,
                permission.revision,
                &write_run.id,
                "in-flight",
                write_digest,
                4,
            )
        })
        .expect("write becomes in flight");
    assert_eq!(write_permission.status, ToolPermissionStatus::Consumed);
    let result_id = completed_result(&storage);
    let handle = storage
        .create_agent_result_handle(
            &session.id,
            &running.id,
            &result_id,
            Duration::from_secs(60),
        )
        .expect("handle creates");
    for row in &mut storage.tables.borrow_mut().handles {
        if row.id == handle.id {
            row.expires_at_ms = 0;
        }
    }
    let report = storage.restart();
    assert_eq!(report.runs_failed, 3);
    assert_eq!(report.write_outcomes_unknown, 1);
    assert_eq!(report.permissions_revoked, 2);
    assert_eq!(report.result_handles_removed, 1);
    assert_eq!(
        storage
            .get_agent_run(&running.id)
            .expect("run reads")
            .expect("run exists")
            .status,
        AgentRunStatus::Failed
    );
    assert_eq!(
        storage
            .get_agent_run(&running.id)
            .expect("run reads")
            .expect("run exists")
            .error_code
            .as_deref(),
        Some("runtime_restarted")
    );
    let recovered_write = storage
        .get_agent_run(&write_run.id)
        .expect("write run reads")
        .expect("write run exists");
    assert_eq!(recovered_write.status, AgentRunStatus::Failed);
    assert_eq!(
        recovered_write.error_code.as_deref(),
        Some("database_outcome_unknown")
    );
    assert_eq!(
        recovered_write.write_in_flight_tool_call_id.as_deref(),
        Some("in-flight")
    );
    for permission_id in [&pending.id, &approved.id] {
        assert_eq!(
            storage
                .get_tool_permission(permission_id)
                .expect("permission reads")
                .expect("permission exists")
                .status,
            ToolPermissionStatus::Revoked
        );
    }
    assert!(matches!(
        storage.resolve_agent_result_handle(&handle.id, &session.id, &running.id),
        Err(StorageError::ResultHandleNotFound(_))
    ));
}
