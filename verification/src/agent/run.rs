use vstd::prelude::*;

use crate::agent::content::{
    message_blocks, normalize_message_json, role_check, text_blocks, text_message_json,
    validate_message_role, ContentView, NormalizedMessage,
};
use crate::agent::message::{
    append_message_in_transaction, append_run_messages, appended, appended_all, batch_drafts,
    drafts_of, hold_all, holds, normalize_agent_run_messages, normalizes_batch, run_batch_blocks,
    MessageDraft, MessageOwner, NormalizedAgentRunMessage, SessionMessages, StoredMessage,
};
use crate::agent::model::{
    AgentCompaction, AgentMessageRecord, AgentRunMessage, AgentRunRecord, AgentRunUpdate,
    CancelAgentRun, CancelledAgentRun, CompactAgentRun, CompactedAgentRun, CompleteAgentRun,
    CompletedAgentRun, FailAgentRun, FailedAgentRun, StartAgentRun, StartedAgentRun,
    ToolPermissionRecord,
};
use crate::agent::permission::{revoke_tool_permissions, revoked_all, stored_permissions};
use crate::agent::progress::{
    advance_check, boundary_check, fail_run_check, progress_check, recorded_progress,
    run_update_check, step_check, validate_cancel_agent_run, validate_complete_agent_run,
    validate_fail_agent_run, validate_run_compaction_boundary, validate_run_progress,
    validate_run_step, validate_run_update, with_progress, InitiatingMessages, RunProgress,
};
use crate::agent::status::{AgentMessageRole, AgentRunStatus, SqlPermissionMode};
use crate::error::StorageError;
use crate::number::{from_sql_optional_u64, next_count, sql_optional_u64, successor};
use crate::storage::Storage;
use crate::text::same_text;

verus! {

/// A run operation together with the permissions that it withdraws.
pub struct RunOutcome<T> {
    /// What the operation returns.
    pub outcome: T,
    /// The permissions of the run as they are after the operation, where it changes them.
    pub revoked: Vec<ToolPermissionRecord>,
}

/// How far the history of a session is compacted.
#[derive(Debug, Clone, Copy, PartialEq, Eq, Structural)]
pub struct SessionCoverage {
    /// Whether the session exists.
    pub session_exists: bool,
    /// The highest ordinal that a compaction of any of its runs covers.
    pub maximum: Option<i64>,
}

/// How far a row of the store, a run or a message, says that the history of its session is
/// compacted.
pub struct CoverageRow {
    /// Session of the row.
    pub session_id: String,
    /// The last message that is compacted, if the row tells of one.
    pub ordinal: Option<i64>,
}

/// Whether a row of the session tells of a compaction through that ordinal.
pub open spec fn tells_of(rows: Seq<CoverageRow>, session_id: String, ordinal: i64) -> bool {
    exists|i: int|
        0 <= i < rows.len() && (#[trigger] rows[i]).session_id@ == session_id@ && rows[i].ordinal
            == Some(ordinal)
}

/// The largest ordinal that the rows of the session tell of, if they tell of any.
pub open spec fn largest_coverage(
    rows: Seq<CoverageRow>,
    session_id: String,
    maximum: Option<i64>,
) -> bool {
    match maximum {
        None => forall|ordinal: i64| !tells_of(rows, session_id, ordinal),
        Some(largest) => tells_of(rows, session_id, largest) && forall|ordinal: i64|
            tells_of(rows, session_id, ordinal) ==> ordinal <= largest,
    }
}

/// The run, or the failure of a run that is not there.
pub open spec fn found(id: String, run: Option<AgentRunRecord>) -> Result<
    AgentRunRecord,
    StorageError,
> {
    match run {
        Some(current) => Ok(current),
        None => Err(StorageError::AgentRunNotFound(id)),
    }
}

/// The failure of a run in another state than its caller expected.
pub open spec fn state_conflict(
    id: String,
    expected: AgentRunStatus,
    actual: AgentRunStatus,
) -> StorageError {
    StorageError::AgentStateConflict { id, expected: expected.name(), actual: actual.name() }
}

/// The run in the state that its caller expected.
pub open spec fn found_in(
    id: String,
    run: Option<AgentRunRecord>,
    expected: AgentRunStatus,
) -> Result<AgentRunRecord, StorageError> {
    match found(id, run) {
        Err(error) => Err(error),
        Ok(current) => if current.status != expected {
            Err(state_conflict(id, expected, current.status))
        } else {
            Ok(current)
        },
    }
}

/// A run whose database write is under way.
pub open spec fn write_in_flight(run: AgentRunRecord) -> bool {
    run.write_in_flight_tool_call_id is Some
}

/// A run as it starts.
pub open spec fn new_run(
    id: String,
    session_id: String,
    mode: SqlPermissionMode,
    timestamp: i64,
) -> AgentRunRecord {
    AgentRunRecord {
        id,
        session_id,
        status: AgentRunStatus::Running,
        sql_permission_mode: mode,
        last_sequence: 1,
        model_rounds: 0,
        tool_calls: 0,
        input_tokens: 0,
        output_tokens: 0,
        total_tokens: 0,
        message_id: None,
        error_code: None,
        error_message: None,
        cancel_requested: false,
        write_in_flight_tool_call_id: None,
        write_in_flight_arguments_sha256: None,
        compaction_count: 0,
        compacted_through_ordinal: None,
        created_at_ms: timestamp,
        updated_at_ms: timestamp,
        started_at_ms: Some(timestamp),
        finished_at_ms: None,
    }
}

/// A run as it ends.
pub open spec fn ended_run(
    run: AgentRunRecord,
    status: AgentRunStatus,
    progress: RunProgress,
    message_id: Option<String>,
    error_code: Option<String>,
    error_message: Option<String>,
    timestamp: i64,
) -> AgentRunRecord {
    AgentRunRecord {
        status,
        message_id,
        error_code,
        error_message,
        finished_at_ms: Some(timestamp),
        ..with_progress(run, progress, timestamp)
    }
}

/// A run of the session starts with the message of its user, unless another one is active.
pub open spec fn started(
    session_id: String,
    input: StartAgentRun,
    session_active: bool,
    totals: SessionMessages,
    run_id: String,
    message_id: String,
    timestamp: i64,
) -> Result<(AgentRunRecord, StoredMessage), StorageError> {
    match text_blocks(input.user_message@) {
        Err(error) => Err(error),
        Ok(blocks) => if !totals.session_exists {
            Err(StorageError::AgentSessionNotFound(session_id))
        } else if session_active {
            Err(StorageError::AgentSessionBusy(session_id))
        } else {
            match appended(
                MessageOwner { session_id, run_id: Some(run_id) },
                SessionMessages { run_owned: true, ..totals },
                MessageDraft {
                    id: message_id,
                    role: AgentMessageRole::User,
                    summary_through_ordinal: None,
                    blocks,
                },
                timestamp,
            ) {
                Err(error) => Err(error),
                Ok(message) => Ok(
                    (new_run(run_id, session_id, input.sql_permission_mode, timestamp), message),
                ),
            }
        },
    }
}

/// A live run reports progress and stays in its state.
pub open spec fn updated(
    id: String,
    expected: AgentRunStatus,
    update: AgentRunUpdate,
    run: Option<AgentRunRecord>,
    initiating: InitiatingMessages,
    timestamp: i64,
) -> Result<AgentRunRecord, StorageError> {
    match run_update_check(update) {
        Err(error) => Err(error),
        Ok(_) => match found_in(id, run, expected) {
            Err(error) => Err(error),
            Ok(current) => if write_in_flight(current) {
                Err(
                    StorageError::InvalidAgent(
                        "agent run progress cannot change while a database write is in flight",
                    ),
                )
            } else if current.status != update.status {
                Err(
                    StorageError::InvalidAgent(
                        "run status transitions require their dedicated atomic API",
                    ),
                )
            } else {
                match step_check(recorded_progress(current), update.reported(), initiating) {
                    Err(error) => Err(error),
                    Ok(_) => if current.cancel_requested {
                        Err(state_conflict(id, expected, current.status))
                    } else {
                        Ok(with_progress(current, update.reported(), timestamp))
                    },
                }
            },
        },
    }
}

/// The coverage that a compaction asks for.
pub open spec fn asked_coverage(compaction: AgentCompaction) -> Option<u64> {
    match compaction {
        AgentCompaction::NoOp => None,
        AgentCompaction::DeterministicTrim { compacted_through_ordinal } => Some(
            compacted_through_ordinal,
        ),
        AgentCompaction::Summary { compacted_through_ordinal, .. } => Some(
            compacted_through_ordinal,
        ),
    }
}

/// The summary that a compaction brings, if it brings one.
pub open spec fn asked_summary(compaction: AgentCompaction, id: String) -> Result<
    Option<MessageDraft>,
    StorageError,
> {
    match compaction {
        AgentCompaction::Summary { compacted_through_ordinal, content_json } => match message_blocks(
            content_json@,
        ) {
            Err(error) => Err(error),
            Ok(blocks) => match role_check(AgentMessageRole::Summary, blocks) {
                Err(error) => Err(error),
                Ok(_) => Ok(
                    Some(
                        MessageDraft {
                            id,
                            role: AgentMessageRole::Summary,
                            summary_through_ordinal: Some(compacted_through_ordinal),
                            blocks,
                        },
                    ),
                ),
            },
        },
        _ => Ok(None),
    }
}

/// One more row raises the largest ordinal, or leaves it.
proof fn lemma_coverage_step(
    rows: Seq<CoverageRow>,
    row: CoverageRow,
    session_id: String,
    before: Option<i64>,
    after: Option<i64>,
)
    requires
        largest_coverage(rows, session_id, before),
        after == (if row.session_id@ == session_id@ && row.ordinal is Some && (before is None
            || row.ordinal->0 > before->0) {
            row.ordinal
        } else {
            before
        }),
    ensures
        largest_coverage(rows.push(row), session_id, after),
{
    let all = rows.push(row);
    assert forall|ordinal: i64| tells_of(all, session_id, ordinal) implies tells_of(
        rows,
        session_id,
        ordinal,
    ) || (row.session_id@ == session_id@ && row.ordinal == Some(ordinal)) by {
        let i = choose|i: int|
            0 <= i < all.len() && (#[trigger] all[i]).session_id@ == session_id@ && all[i].ordinal
                == Some(ordinal);
        if i < rows.len() {
            assert(rows[i] == all[i]);
        }
    }
    assert forall|ordinal: i64| tells_of(rows, session_id, ordinal) implies tells_of(
        all,
        session_id,
        ordinal,
    ) by {
        let i = choose|i: int|
            0 <= i < rows.len() && (#[trigger] rows[i]).session_id@ == session_id@
                && rows[i].ordinal == Some(ordinal);
        assert(all[i] == rows[i]);
    }
    if row.session_id@ == session_id@ && row.ordinal is Some {
        assert(all[rows.len() as int] == row);
        assert(tells_of(all, session_id, row.ordinal->0));
    }
}

/// How far the history of an existing session is compacted.
pub open spec fn session_coverage(session_id: String, coverage: SessionCoverage) -> Result<
    Option<u64>,
    StorageError,
> {
    if !coverage.session_exists {
        Err(StorageError::AgentSessionNotFound(session_id))
    } else {
        sql_optional_u64(coverage.maximum, "compacted message ordinal")
    }
}

/// The compaction state after a compaction: coverage advances the session, and counts.
pub open spec fn next_compaction(
    run: AgentRunRecord,
    asked: Option<u64>,
    coverage: SessionCoverage,
) -> Result<(u64, Option<u64>), StorageError> {
    match asked {
        None => Ok((run.compaction_count, run.compacted_through_ordinal)),
        Some(target) => match session_coverage(run.session_id, coverage) {
            Err(error) => Err(error),
            Ok(covered) => if covered matches Some(ordinal) && target <= ordinal {
                Err(
                    StorageError::InvalidAgent(
                        "agent compaction coverage must advance the session",
                    ),
                )
            } else {
                match successor(run.compaction_count, "agent compaction count") {
                    Err(error) => Err(error),
                    Ok(count) => Ok((count, Some(target))),
                }
            },
        },
    }
}

impl CompactAgentRun {
    /// The progress that the request reports, with a compaction state.
    pub open spec fn reported(self, compaction: (u64, Option<u64>)) -> RunProgress {
        RunProgress {
            last_sequence: self.last_sequence,
            model_rounds: self.model_rounds,
            tool_calls: self.tool_calls,
            input_tokens: self.input_tokens,
            output_tokens: self.output_tokens,
            total_tokens: self.total_tokens,
            compaction_count: compaction.0,
            compacted_through_ordinal: compaction.1,
        }
    }
}

/// A running run that may be compacted now, by the next event.
pub open spec fn compactable(
    id: String,
    expected: AgentRunStatus,
    run: Option<AgentRunRecord>,
    sequence: u64,
) -> Result<AgentRunRecord, StorageError> {
    match found_in(id, run, expected) {
        Err(error) => Err(error),
        Ok(current) => if current.cancel_requested {
            Err(
                StorageError::InvalidAgent(
                    "agent context cannot compact after cancellation is requested",
                ),
            )
        } else if write_in_flight(current) {
            Err(
                StorageError::InvalidAgent(
                    "agent context cannot compact while a database write is in flight",
                ),
            )
        } else if sequence != current.last_sequence + 1 {
            Err(StorageError::InvalidAgent("agent compaction sequence must be the next event"))
        } else {
            Ok(current)
        },
    }
}

/// A compaction advances the run by one event and stores its summary in the same step.
pub open spec fn compacted(
    id: String,
    expected: AgentRunStatus,
    input: CompactAgentRun,
    run: Option<AgentRunRecord>,
    coverage: SessionCoverage,
    initiating: InitiatingMessages,
    totals: SessionMessages,
    summary_id: String,
    timestamp: i64,
) -> Result<(AgentRunRecord, Option<StoredMessage>), StorageError> {
    if expected != AgentRunStatus::Running {
        Err(StorageError::InvalidAgent("agent context compaction requires a running run"))
    } else {
        match asked_summary(input.compaction, summary_id) {
            Err(error) => Err(error),
            Ok(summary) => match compactable(id, expected, run, input.last_sequence) {
                Err(error) => Err(error),
                Ok(current) => match next_compaction(
                    current,
                    asked_coverage(input.compaction),
                    coverage,
                ) {
                    Err(error) => Err(error),
                    Ok(state) => match advance_check(
                        recorded_progress(current),
                        input.reported(state),
                    ) {
                        Err(error) => Err(error),
                        Ok(_) => match boundary_check(
                            initiating,
                            asked_coverage(input.compaction),
                        ) {
                            Err(error) => Err(error),
                            Ok(_) => {
                                let next = with_progress(
                                    current,
                                    input.reported(state),
                                    timestamp,
                                );
                                match summary {
                                    None => Ok((next, None)),
                                    Some(draft) => match appended(
                                        MessageOwner {
                                            session_id: current.session_id,
                                            run_id: Some(id),
                                        },
                                        totals,
                                        draft,
                                        timestamp,
                                    ) {
                                        Err(error) => Err(error),
                                        Ok(message) => Ok((next, Some(message))),
                                    },
                                }
                            },
                        },
                    },
                },
            },
        }
    }
}

/// The messages with which a run ends, stored in its session.
pub open spec fn stored_batch(
    id: String,
    run: AgentRunRecord,
    totals: SessionMessages,
    messages: Seq<AgentRunMessage>,
    ids: Seq<String>,
    blocks: Seq<Seq<ContentView>>,
    timestamp: i64,
) -> Result<Seq<StoredMessage>, StorageError> {
    appended_all(
        MessageOwner { session_id: run.session_id, run_id: Some(id) },
        totals,
        batch_drafts(messages, ids, blocks),
        timestamp,
    )
}

/// A running run completes with a final assistant message.
pub open spec fn completed(
    id: String,
    expected: AgentRunStatus,
    input: CompleteAgentRun,
    run: Option<AgentRunRecord>,
    initiating: InitiatingMessages,
    totals: SessionMessages,
    ids: Seq<String>,
    timestamp: i64,
) -> Result<(AgentRunRecord, Seq<StoredMessage>), StorageError> {
    match progress_check(input.reported()) {
        Err(error) => Err(error),
        Ok(_) => match run_batch_blocks(input.messages@, true) {
            Err(error) => Err(error),
            Ok(blocks) => match found_in(id, run, expected) {
                Err(error) => Err(error),
                Ok(current) => if current.cancel_requested || write_in_flight(current)
                    || !current.status.may_become(AgentRunStatus::Completed) {
                    Err(
                        StorageError::InvalidAgent(
                            "agent run cannot complete from its current state",
                        ),
                    )
                } else {
                    match step_check(recorded_progress(current), input.reported(), initiating) {
                        Err(error) => Err(error),
                        Ok(_) => match stored_batch(
                            id,
                            current,
                            totals,
                            input.messages@,
                            ids,
                            blocks,
                            timestamp,
                        ) {
                            Err(error) => Err(error),
                            Ok(messages) => Ok(
                                (
                                    ended_run(
                                        current,
                                        AgentRunStatus::Completed,
                                        input.reported(),
                                        Some(ids.last()),
                                        None,
                                        None,
                                        timestamp,
                                    ),
                                    messages,
                                ),
                            ),
                        },
                    }
                },
            },
        },
    }
}

/// A live run fails with a safe error description.
pub open spec fn failed(
    id: String,
    expected: AgentRunStatus,
    input: FailAgentRun,
    run: Option<AgentRunRecord>,
    initiating: InitiatingMessages,
    totals: SessionMessages,
    ids: Seq<String>,
    timestamp: i64,
) -> Result<(AgentRunRecord, Seq<StoredMessage>), StorageError> {
    match fail_run_check(input) {
        Err(error) => Err(error),
        Ok(_) => match run_batch_blocks(input.messages@, false) {
            Err(error) => Err(error),
            Ok(blocks) => match found_in(id, run, expected) {
                Err(error) => Err(error),
                Ok(current) => if current.cancel_requested || write_in_flight(current)
                    || !current.status.may_become(AgentRunStatus::Failed) {
                    Err(StorageError::InvalidAgent("agent run cannot fail from its current state"))
                } else {
                    match step_check(recorded_progress(current), input.reported(), initiating) {
                        Err(error) => Err(error),
                        Ok(_) => match stored_batch(
                            id,
                            current,
                            totals,
                            input.messages@,
                            ids,
                            blocks,
                            timestamp,
                        ) {
                            Err(error) => Err(error),
                            Ok(messages) => Ok(
                                (
                                    ended_run(
                                        current,
                                        AgentRunStatus::Failed,
                                        input.reported(),
                                        None,
                                        Some(input.error_code),
                                        input.error_message,
                                        timestamp,
                                    ),
                                    messages,
                                ),
                            ),
                        },
                    }
                },
            },
        },
    }
}

/// A live run whose cancellation was requested ends.
pub open spec fn cancelled(
    id: String,
    expected: AgentRunStatus,
    input: CancelAgentRun,
    run: Option<AgentRunRecord>,
    initiating: InitiatingMessages,
    totals: SessionMessages,
    ids: Seq<String>,
    timestamp: i64,
) -> Result<(AgentRunRecord, Seq<StoredMessage>), StorageError> {
    match progress_check(input.reported()) {
        Err(error) => Err(error),
        Ok(_) => match run_batch_blocks(input.messages@, false) {
            Err(error) => Err(error),
            Ok(blocks) => match found_in(id, run, expected) {
                Err(error) => Err(error),
                Ok(current) => if !current.cancel_requested || write_in_flight(current)
                    || current.status.terminal() {
                    Err(
                        StorageError::InvalidAgent(
                            "agent run cancellation cannot finish from its current state",
                        ),
                    )
                } else {
                    match step_check(recorded_progress(current), input.reported(), initiating) {
                        Err(error) => Err(error),
                        Ok(_) => match stored_batch(
                            id,
                            current,
                            totals,
                            input.messages@,
                            ids,
                            blocks,
                            timestamp,
                        ) {
                            Err(error) => Err(error),
                            Ok(messages) => Ok(
                                (
                                    ended_run(
                                        current,
                                        AgentRunStatus::Cancelled,
                                        input.reported(),
                                        None,
                                        None,
                                        None,
                                        timestamp,
                                    ),
                                    messages,
                                ),
                            ),
                        },
                    }
                },
            },
        },
    }
}

/// A live run remembers that its cancellation was requested; an ended run stays as it is.
pub open spec fn cancel_requested(run: AgentRunRecord, timestamp: i64) -> AgentRunRecord {
    if run.status.terminal() {
        run
    } else {
        AgentRunRecord { cancel_requested: true, updated_at_ms: timestamp, ..run }
    }
}

/// The failure of a run in another state than its caller expected.
fn run_state_conflict(id: &String, expected: AgentRunStatus, actual: AgentRunStatus) -> (result:
    StorageError)
    ensures
        result == state_conflict(*id, expected, actual),
{
    StorageError::AgentStateConflict {
        id: id.clone(),
        expected: expected.as_str(),
        actual: actual.as_str(),
    }
}

/// Takes the run in the state that its caller expected.
pub(crate) fn expect_run(
    id: &String,
    run: Option<AgentRunRecord>,
    expected: AgentRunStatus,
) -> (result: Result<AgentRunRecord, StorageError>)
    ensures
        result == found_in(*id, run, expected),
{
    match run {
        Some(current) => if current.status != expected {
            Err(run_state_conflict(id, expected, current.status))
        } else {
            Ok(current)
        },
        None => Err(StorageError::AgentRunNotFound(id.clone())),
    }
}

/// Replaces the progress of a run.
pub(crate) fn record_progress(run: AgentRunRecord, progress: RunProgress, timestamp: i64) -> (result:
    AgentRunRecord)
    ensures
        result == with_progress(run, progress, timestamp),
{
    AgentRunRecord {
        last_sequence: progress.last_sequence,
        model_rounds: progress.model_rounds,
        tool_calls: progress.tool_calls,
        input_tokens: progress.input_tokens,
        output_tokens: progress.output_tokens,
        total_tokens: progress.total_tokens,
        compaction_count: progress.compaction_count,
        compacted_through_ordinal: progress.compacted_through_ordinal,
        updated_at_ms: timestamp,
        ..run
    }
}

/// Stores the messages with which a run ends.
pub(crate) fn store_batch(
    id: &String,
    run: &AgentRunRecord,
    totals: SessionMessages,
    messages: &Vec<AgentRunMessage>,
    normalized: Vec<NormalizedAgentRunMessage>,
    ids: &Vec<String>,
    blocks: Ghost<Seq<Seq<ContentView>>>,
    timestamp: i64,
) -> (result: Result<Vec<AgentMessageRecord>, StorageError>)
    requires
        ids@.len() == messages@.len(),
        normalizes_batch(normalized@, messages@, blocks@),
    ensures
        match (
            result,
            stored_batch(*id, *run, totals, messages@, ids@, blocks@, timestamp),
        ) {
            (Ok(records), Ok(stored)) => hold_all(records@, stored),
            (Err(error), Err(expected)) => error == expected,
            _ => false,
        },
{
    let owner = MessageOwner { session_id: run.session_id.clone(), run_id: Some(id.clone()) };
    proof {
        assert(drafts_of(normalized@, ids@) =~= batch_drafts(messages@, ids@, blocks@));
    }
    append_run_messages(&owner, totals, normalized, ids, timestamp)
}

impl Storage {
    /// Starts a run of a session with the message of its user.
    pub fn start_agent_run(
        session_id: &String,
        input: StartAgentRun,
        session_active: bool,
        totals: SessionMessages,
        run_id: String,
        message_id: &String,
        timestamp: i64,
    ) -> (result: Result<StartedAgentRun, StorageError>)
        ensures
            match (
                result,
                started(
                    *session_id,
                    input,
                    session_active,
                    totals,
                    run_id,
                    *message_id,
                    timestamp,
                ),
            ) {
                (Ok(opened), Ok((run, message))) => opened.run == run && holds(
                    opened.user_message,
                    message,
                ),
                (Err(error), Err(expected)) => error == expected,
                _ => false,
            },
    {
        let content = text_message_json(input.user_message.as_str())?;
        if !totals.session_exists {
            return Err(StorageError::AgentSessionNotFound(session_id.clone()));
        }
        if session_active {
            return Err(StorageError::AgentSessionBusy(session_id.clone()));
        }
        let owner = MessageOwner { session_id: session_id.clone(), run_id: Some(run_id.clone()) };
        let user_message = append_message_in_transaction(
            &owner,
            SessionMessages { run_owned: true, ..totals },
            NormalizedAgentRunMessage {
                role: AgentMessageRole::User,
                summary_through_ordinal: None,
                content,
            },
            message_id,
            timestamp,
        )?;
        let run = AgentRunRecord {
            id: run_id,
            session_id: session_id.clone(),
            status: AgentRunStatus::Running,
            sql_permission_mode: input.sql_permission_mode,
            last_sequence: 1,
            model_rounds: 0,
            tool_calls: 0,
            input_tokens: 0,
            output_tokens: 0,
            total_tokens: 0,
            message_id: None,
            error_code: None,
            error_message: None,
            cancel_requested: false,
            write_in_flight_tool_call_id: None,
            write_in_flight_arguments_sha256: None,
            compaction_count: 0,
            compacted_through_ordinal: None,
            created_at_ms: timestamp,
            updated_at_ms: timestamp,
            started_at_ms: Some(timestamp),
            finished_at_ms: None,
        };
        Ok(StartedAgentRun { run, user_message })
    }

    /// Records the progress of a live run.
    pub fn update_agent_run(
        id: &String,
        expected_status: AgentRunStatus,
        update: AgentRunUpdate,
        run: Option<AgentRunRecord>,
        initiating: InitiatingMessages,
        timestamp: i64,
    ) -> (result: Result<AgentRunRecord, StorageError>)
        ensures
            result == updated(*id, expected_status, update, run, initiating, timestamp),
    {
        validate_run_update(&update)?;
        let current = expect_run(id, run, expected_status)?;
        if current.write_in_flight_tool_call_id.is_some() {
            return Err(
                StorageError::InvalidAgent(
                    "agent run progress cannot change while a database write is in flight",
                ),
            );
        }
        if current.status != update.status {
            return Err(
                StorageError::InvalidAgent(
                    "run status transitions require their dedicated atomic API",
                ),
            );
        }
        validate_run_step(&current, update.progress(), initiating)?;
        if current.cancel_requested {
            return Err(run_state_conflict(id, expected_status, current.status));
        }
        Ok(record_progress(current, update.progress(), timestamp))
    }

    /// Gathers from the runs and the messages of the store how far the history of a session is
    /// compacted.
    pub fn gather_session_coverage(
        session_id: &String,
        session_exists: bool,
        rows: &Vec<CoverageRow>,
    ) -> (result: SessionCoverage)
        ensures
            result.session_exists == session_exists,
            largest_coverage(rows@, *session_id, result.maximum),
    {
        let mut maximum: Option<i64> = None;
        let mut i: usize = 0;
        assert(rows@.take(0).len() == 0);
        while i < rows.len()
            invariant
                i <= rows.len(),
                largest_coverage(rows@.take(i as int), *session_id, maximum),
            decreases rows.len() - i,
        {
            let ghost before = rows@.take(i as int);
            let ghost after = rows@.take(i as int + 1);
            let ghost earlier = maximum;
            let ghost row = rows@[i as int];
            proof {
                assert(after.drop_last() =~= before);
                assert(after.last() == row);
            }
            if same_text(rows[i].session_id.as_str(), session_id.as_str()) {
                if let Some(ordinal) = rows[i].ordinal {
                    let larger: bool = match maximum {
                        Some(largest) => ordinal > largest,
                        None => true,
                    };
                    if larger {
                        maximum = Some(ordinal);
                    }
                }
            }
            proof {
                lemma_coverage_step(before, row, *session_id, earlier, maximum);
                assert(after =~= before.push(row));
            }
            i = i + 1;
        }
        assert(rows@.take(rows.len() as int) =~= rows@);
        SessionCoverage { session_exists, maximum }
    }

    /// Tells how far the history of a session is compacted.
    pub fn get_agent_session_compaction_coverage(
        session_id: &String,
        coverage: SessionCoverage,
    ) -> (result: Result<Option<u64>, StorageError>)
        ensures
            result == session_coverage(*session_id, coverage),
    {
        if !coverage.session_exists {
            return Err(StorageError::AgentSessionNotFound(session_id.clone()));
        }
        from_sql_optional_u64(coverage.maximum, "compacted message ordinal")
    }

    /// Compacts the history of a running run, by the event that follows its last one.
    ///
    /// A summary is stored in the same step as the coverage that it stands for.
    pub fn compact_agent_run(
        id: &String,
        expected_status: AgentRunStatus,
        input: CompactAgentRun,
        run: Option<AgentRunRecord>,
        coverage: SessionCoverage,
        initiating: InitiatingMessages,
        totals: SessionMessages,
        summary_id: &String,
        timestamp: i64,
    ) -> (result: Result<CompactedAgentRun, StorageError>)
        ensures
            match (
                result,
                compacted(
                    *id,
                    expected_status,
                    input,
                    run,
                    coverage,
                    initiating,
                    totals,
                    *summary_id,
                    timestamp,
                ),
            ) {
                (Ok(done), Ok((next, summary))) => done.run == next && match (
                    done.summary_message,
                    summary,
                ) {
                    (None, None) => true,
                    (Some(record), Some(message)) => holds(record, message),
                    _ => false,
                },
                (Err(error), Err(expected)) => error == expected,
                _ => false,
            },
    {
        if expected_status != AgentRunStatus::Running {
            return Err(
                StorageError::InvalidAgent("agent context compaction requires a running run"),
            );
        }
        let asked: Option<u64> = match &input.compaction {
            AgentCompaction::NoOp => None,
            AgentCompaction::DeterministicTrim { compacted_through_ordinal } => Some(
                *compacted_through_ordinal,
            ),
            AgentCompaction::Summary { compacted_through_ordinal, .. } => Some(
                *compacted_through_ordinal,
            ),
        };
        let summary: Option<NormalizedMessage> = match &input.compaction {
            AgentCompaction::Summary { content_json, .. } => {
                let content = normalize_message_json(content_json.as_str())?;
                validate_message_role(AgentMessageRole::Summary, &content.blocks)?;
                Some(content)
            },
            _ => None,
        };
        let current = expect_run(id, run, expected_status)?;
        if current.cancel_requested {
            return Err(
                StorageError::InvalidAgent(
                    "agent context cannot compact after cancellation is requested",
                ),
            );
        }
        if current.write_in_flight_tool_call_id.is_some() {
            return Err(
                StorageError::InvalidAgent(
                    "agent context cannot compact while a database write is in flight",
                ),
            );
        }
        let next_event: Option<u64> = current.last_sequence.checked_add(1);
        if next_event.is_none() || next_event.unwrap() != input.last_sequence {
            return Err(
                StorageError::InvalidAgent("agent compaction sequence must be the next event"),
            );
        }
        let state: (u64, Option<u64>) = match asked {
            None => (current.compaction_count, current.compacted_through_ordinal),
            Some(target) => {
                let covered: Option<u64> = Storage::get_agent_session_compaction_coverage(
                    &current.session_id,
                    coverage,
                )?;
                if let Some(ordinal) = covered {
                    if target <= ordinal {
                        return Err(
                            StorageError::InvalidAgent(
                                "agent compaction coverage must advance the session",
                            ),
                        );
                    }
                }
                (next_count(current.compaction_count, "agent compaction count")?, Some(target))
            },
        };
        let progress = RunProgress {
            last_sequence: input.last_sequence,
            model_rounds: input.model_rounds,
            tool_calls: input.tool_calls,
            input_tokens: input.input_tokens,
            output_tokens: input.output_tokens,
            total_tokens: input.total_tokens,
            compaction_count: state.0,
            compacted_through_ordinal: state.1,
        };
        validate_run_progress(&current, progress)?;
        validate_run_compaction_boundary(initiating, asked)?;
        let summary_message: Option<AgentMessageRecord> = match summary {
            None => None,
            Some(content) => {
                let owner = MessageOwner {
                    session_id: current.session_id.clone(),
                    run_id: Some(id.clone()),
                };
                Some(
                    append_message_in_transaction(
                        &owner,
                        totals,
                        NormalizedAgentRunMessage {
                            role: AgentMessageRole::Summary,
                            summary_through_ordinal: asked,
                            content,
                        },
                        summary_id,
                        timestamp,
                    )?,
                )
            },
        };
        Ok(
            CompactedAgentRun {
                run: record_progress(current, progress, timestamp),
                summary_message,
            },
        )
    }

    /// Ends a running run with the messages of its last step, the final one the assistant's.
    pub fn complete_agent_run(
        id: &String,
        expected_status: AgentRunStatus,
        input: CompleteAgentRun,
        run: Option<AgentRunRecord>,
        initiating: InitiatingMessages,
        totals: SessionMessages,
        ids: &Vec<String>,
        permissions: Vec<ToolPermissionRecord>,
        timestamp: i64,
    ) -> (result: Result<RunOutcome<CompletedAgentRun>, StorageError>)
        requires
            ids@.len() == input.messages@.len(),
            stored_permissions(permissions@),
        ensures
            match (
                result,
                completed(
                    *id,
                    expected_status,
                    input,
                    run,
                    initiating,
                    totals,
                    ids@,
                    timestamp,
                ),
            ) {
                (Ok(done), Ok((run, messages))) => done.outcome.run == run && hold_all(
                    done.outcome.messages@,
                    messages,
                ) && done.revoked@ == revoked_all(permissions@, timestamp),
                (Err(error), Err(expected)) => error == expected,
                _ => false,
            },
    {
        validate_complete_agent_run(&input)?;
        let normalized = normalize_agent_run_messages(&input.messages, true)?;
        let ghost blocks = run_batch_blocks(input.messages@, true)->Ok_0;
        let current = expect_run(id, run, expected_status)?;
        if current.cancel_requested || current.write_in_flight_tool_call_id.is_some()
            || !current.status.can_transition_to(AgentRunStatus::Completed) {
            return Err(
                StorageError::InvalidAgent("agent run cannot complete from its current state"),
            );
        }
        let progress = input.progress();
        validate_run_step(&current, progress, initiating)?;
        let messages = store_batch(
            id,
            &current,
            totals,
            &input.messages,
            normalized,
            ids,
            Ghost(blocks),
            timestamp,
        )?;
        let final_id = ids[ids.len() - 1].clone();
        let recorded = record_progress(current, progress, timestamp);
        let run = AgentRunRecord {
            status: AgentRunStatus::Completed,
            message_id: Some(final_id),
            error_code: None,
            error_message: None,
            finished_at_ms: Some(timestamp),
            ..recorded
        };
        Ok(
            RunOutcome {
                outcome: CompletedAgentRun { run, messages },
                revoked: revoke_tool_permissions(permissions, timestamp),
            },
        )
    }

    /// Ends a live run with an error.
    pub fn fail_agent_run(
        id: &String,
        expected_status: AgentRunStatus,
        input: FailAgentRun,
        run: Option<AgentRunRecord>,
        initiating: InitiatingMessages,
        totals: SessionMessages,
        ids: &Vec<String>,
        permissions: Vec<ToolPermissionRecord>,
        timestamp: i64,
    ) -> (result: Result<RunOutcome<FailedAgentRun>, StorageError>)
        requires
            ids@.len() == input.messages@.len(),
            stored_permissions(permissions@),
        ensures
            match (
                result,
                failed(
                    *id,
                    expected_status,
                    input,
                    run,
                    initiating,
                    totals,
                    ids@,
                    timestamp,
                ),
            ) {
                (Ok(done), Ok((run, messages))) => done.outcome.run == run && hold_all(
                    done.outcome.messages@,
                    messages,
                ) && done.revoked@ == revoked_all(permissions@, timestamp),
                (Err(error), Err(expected)) => error == expected,
                _ => false,
            },
    {
        validate_fail_agent_run(&input)?;
        let normalized = normalize_agent_run_messages(&input.messages, false)?;
        let ghost blocks = run_batch_blocks(input.messages@, false)->Ok_0;
        let current = expect_run(id, run, expected_status)?;
        if current.cancel_requested || current.write_in_flight_tool_call_id.is_some()
            || !current.status.can_transition_to(AgentRunStatus::Failed) {
            return Err(
                StorageError::InvalidAgent("agent run cannot fail from its current state"),
            );
        }
        let progress = input.progress();
        validate_run_step(&current, progress, initiating)?;
        let messages = store_batch(
            id,
            &current,
            totals,
            &input.messages,
            normalized,
            ids,
            Ghost(blocks),
            timestamp,
        )?;
        let recorded = record_progress(current, progress, timestamp);
        let run = AgentRunRecord {
            status: AgentRunStatus::Failed,
            message_id: None,
            error_code: Some(input.error_code),
            error_message: input.error_message,
            finished_at_ms: Some(timestamp),
            ..recorded
        };
        Ok(
            RunOutcome {
                outcome: FailedAgentRun { run, messages },
                revoked: revoke_tool_permissions(permissions, timestamp),
            },
        )
    }

    /// Remembers that a run has to be cancelled, and withdraws its permissions.
    pub fn request_agent_run_cancellation(
        id: &String,
        run: Option<AgentRunRecord>,
        permissions: Vec<ToolPermissionRecord>,
        timestamp: i64,
    ) -> (result: Result<RunOutcome<AgentRunRecord>, StorageError>)
        requires
            stored_permissions(permissions@),
        ensures
            match (result, found(*id, run)) {
                (Ok(done), Ok(current)) => done.outcome == cancel_requested(current, timestamp)
                    && done.revoked@ == revoked_all(permissions@, timestamp),
                (Err(error), Err(expected)) => error == expected,
                _ => false,
            },
    {
        let current = match run {
            Some(current) => current,
            None => return Err(StorageError::AgentRunNotFound(id.clone())),
        };
        let outcome = if current.status.is_terminal() {
            current
        } else {
            AgentRunRecord { cancel_requested: true, updated_at_ms: timestamp, ..current }
        };
        Ok(RunOutcome { outcome, revoked: revoke_tool_permissions(permissions, timestamp) })
    }

    /// Ends a live run whose cancellation was requested.
    pub fn finish_cancelled_agent_run(
        id: &String,
        expected_status: AgentRunStatus,
        input: CancelAgentRun,
        run: Option<AgentRunRecord>,
        initiating: InitiatingMessages,
        totals: SessionMessages,
        ids: &Vec<String>,
        timestamp: i64,
    ) -> (result: Result<CancelledAgentRun, StorageError>)
        requires
            ids@.len() == input.messages@.len(),
        ensures
            match (
                result,
                cancelled(
                    *id,
                    expected_status,
                    input,
                    run,
                    initiating,
                    totals,
                    ids@,
                    timestamp,
                ),
            ) {
                (Ok(done), Ok((run, messages))) => done.run == run && hold_all(
                    done.messages@,
                    messages,
                ),
                (Err(error), Err(expected)) => error == expected,
                _ => false,
            },
    {
        validate_cancel_agent_run(&input)?;
        let normalized = normalize_agent_run_messages(&input.messages, false)?;
        let ghost blocks = run_batch_blocks(input.messages@, false)->Ok_0;
        let current = expect_run(id, run, expected_status)?;
        if !current.cancel_requested || current.write_in_flight_tool_call_id.is_some()
            || current.status.is_terminal() {
            return Err(
                StorageError::InvalidAgent(
                    "agent run cancellation cannot finish from its current state",
                ),
            );
        }
        let progress = input.progress();
        validate_run_step(&current, progress, initiating)?;
        let messages = store_batch(
            id,
            &current,
            totals,
            &input.messages,
            normalized,
            ids,
            Ghost(blocks),
            timestamp,
        )?;
        let recorded = record_progress(current, progress, timestamp);
        let run = AgentRunRecord {
            status: AgentRunStatus::Cancelled,
            message_id: None,
            error_code: None,
            error_message: None,
            finished_at_ms: Some(timestamp),
            ..recorded
        };
        Ok(CancelledAgentRun { run, messages })
    }
}

} // verus!
