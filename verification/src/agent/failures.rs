//! Which failure an operation on the agent state ends with: that of the first rule that is broken.

use vstd::prelude::*;

use crate::agent::content::{canonical, role_admits};
use crate::agent::handle::{handle_created, handle_resolved, ObservedResult, ResolvedHandle};
use crate::agent::message::{appended, MessageDraft, MessageOwner, SessionMessages, StoredMessage};
use crate::agent::model::{
    AgentResultHandle, AgentRunRecord, AgentSessionRecord, RequestToolPermission,
    ToolPermissionRecord, UpdateAgentSession,
};
use crate::agent::permission::{permission_created, usable_permission, PermissionStep};
use crate::agent::progress::{
    advance_check, boundary_check, progress_check, InitiatingMessages, RunProgress,
};
use crate::agent::run::{compactable, found_in};
use crate::agent::session::{session_deletion, session_updated, SessionReferences};
use crate::agent::status::{AgentRunStatus, ToolPermissionStatus};
use crate::error::StorageError;
use crate::text::{blank, byte_len};

verus! {

/// An update of a session fails by the first of its rules that is broken: with the rule, or with the id
/// and what was found.
pub proof fn law_session_update_fails_by_its_first_broken_rule(
    id: String,
    expected_revision: u64,
    input: UpdateAgentSession,
    session: Option<AgentSessionRecord>,
    session_active: bool,
    references: SessionReferences,
    timestamp: i64,
)
    ensures
        ({
            let outcome = session_updated(id, expected_revision, input, session, session_active,
                references, timestamp);
            let broken_0 = (blank(input.title@) || byte_len(input.title@) > 512);
            let broken_1 = expected_revision == u64::MAX;
            let broken_2 = session is None;
            let broken_3 = session->0.revision != expected_revision;
            let broken_4 = session_active && !(session->0.provider_id@ == input.provider_id@
                && (match (session->0.datasource_id, input.datasource_id) { (None, None) => true,
                    (Some(old), Some(new)) => old@ == new@, _ => false }));
            let broken_5 = !references.provider_exists;
            let broken_6 = (input.datasource_id is Some && !references.datasource_exists);
            let broken_7 = expected_revision >= i64::MAX;
            &&& broken_0 ==> outcome
                == Err::<AgentSessionRecord,
                    StorageError>(StorageError::InvalidAgent(
                    "session title must be non-empty and at most 512 UTF-8 bytes"))
            &&& !broken_0 && broken_1
                ==> outcome == Err::<AgentSessionRecord,
                    StorageError>(StorageError::NumericRange("agent session revision"))
            &&& !broken_0 && !broken_1 && broken_2
                ==> outcome == Err::<AgentSessionRecord,
                    StorageError>(StorageError::AgentSessionNotFound(id))
            &&& !broken_0 && !broken_1 && !broken_2 && broken_3
                ==> outcome == Err::<AgentSessionRecord,
                    StorageError>(StorageError::AgentSessionRevisionConflict { id,
                    expected: expected_revision, actual: Some(session->0.revision) })
            &&& !broken_0 && !broken_1 && !broken_2 && !broken_3 && broken_4
                ==> outcome == Err::<AgentSessionRecord,
                    StorageError>(StorageError::AgentSessionBusy(id))
            &&& !broken_0 && !broken_1 && !broken_2 && !broken_3 && !broken_4 && broken_5
                ==> outcome == Err::<AgentSessionRecord,
                    StorageError>(StorageError::ProviderNotFound(input.provider_id))
            &&& !broken_0 && !broken_1 && !broken_2 && !broken_3 && !broken_4 && !broken_5
                && broken_6 ==> outcome
                    == Err::<AgentSessionRecord,
                    StorageError>(StorageError::DatasourceNotFound(input.datasource_id->0))
            &&& !broken_0 && !broken_1 && !broken_2 && !broken_3 && !broken_4 && !broken_5
                && !broken_6 && broken_7
                    ==> outcome == Err::<AgentSessionRecord,
                    StorageError>(StorageError::NumericRange("agent session revision"))
            &&& !broken_0 && !broken_1 && !broken_2 && !broken_3 && !broken_4 && !broken_5
                && !broken_6 && !broken_7 ==> outcome is Ok
        }),
{
}

/// A deletion of a session fails by the first of its rules that is broken.
pub proof fn law_session_deletion_fails_by_its_first_broken_rule(
    id: String,
    expected_revision: u64,
    session: Option<AgentSessionRecord>,
    session_active: bool,
)
    ensures
        ({
            let outcome = session_deletion(id, expected_revision, session, session_active);
            let broken_0 = expected_revision > i64::MAX;
            let broken_1 = session is None;
            let broken_2 = session->0.revision != expected_revision;
            let broken_3 = session_active;
            &&& broken_0 ==> outcome
                == Err::<(), StorageError>(StorageError::NumericRange("agent session revision"))
            &&& !broken_0 && broken_1
                ==> outcome == Err::<(), StorageError>(StorageError::AgentSessionNotFound(id))
            &&& !broken_0 && !broken_1 && broken_2
                ==> outcome == Err::<(),
                    StorageError>(StorageError::AgentSessionRevisionConflict { id,
                    expected: expected_revision, actual: Some(session->0.revision) })
            &&& !broken_0 && !broken_1 && !broken_2 && broken_3
                ==> outcome == Err::<(), StorageError>(StorageError::AgentSessionBusy(id))
            &&& !broken_0 && !broken_1 && !broken_2 && !broken_3 ==> outcome is Ok
        }),
{
}

/// A message that cannot be stored fails by the first of its rules that is broken.
pub proof fn law_message_fails_by_its_first_broken_rule(
    owner: MessageOwner,
    totals: SessionMessages,
    draft: MessageDraft,
    timestamp: i64,
)
    requires
        byte_len(canonical(draft.blocks)) <= 262_144,
    ensures
        ({
            let outcome = appended(owner, totals, draft, timestamp);
            let broken_0 = !totals.session_exists;
            let broken_1 = (owner.run_id is Some && !totals.run_owned);
            let broken_2 = (draft.role is Summary) != (draft.summary_through_ordinal is Some);
            let broken_3 = !role_admits(draft.role, draft.blocks);
            let broken_4 = totals.count < 0;
            let broken_5 = totals.bytes < 0;
            let broken_6 = totals.count >= 4096;
            let broken_7 = totals.bytes + byte_len(canonical(draft.blocks)) > 33_554_432;
            let broken_8 = (totals.maximum matches Some(last) && last < 0);
            let broken_9 = (draft.summary_through_ordinal matches Some(covered)
                && (totals.maximum matches Some(last) ==> covered > last));
            let broken_10 = totals.maximum == Some(i64::MAX);
            &&& broken_0 ==> outcome
                == Err::<StoredMessage,
                    StorageError>(StorageError::AgentSessionNotFound(owner.session_id))
            &&& !broken_0 && broken_1
                ==> outcome == Err::<StoredMessage,
                    StorageError>(StorageError::AgentRunNotFound(owner.run_id->0))
            &&& !broken_0 && !broken_1 && broken_2
                ==> outcome == Err::<StoredMessage,
                    StorageError>(StorageError::InvalidAgent(
                    "summary coverage is required only for summary messages"))
            &&& !broken_0 && !broken_1 && !broken_2 && broken_3
                ==> outcome == Err::<StoredMessage,
                    StorageError>(StorageError::InvalidAgent(
                    "message content blocks do not match the persisted role"))
            &&& !broken_0 && !broken_1 && !broken_2 && !broken_3 && broken_4
                ==> outcome == Err::<StoredMessage,
                    StorageError>(StorageError::NumericRange("agent message count"))
            &&& !broken_0 && !broken_1 && !broken_2 && !broken_3 && !broken_4 && broken_5
                ==> outcome == Err::<StoredMessage,
                    StorageError>(StorageError::NumericRange("agent message total bytes"))
            &&& !broken_0 && !broken_1 && !broken_2 && !broken_3 && !broken_4 && !broken_5
                && broken_6 ==> outcome
                    == Err::<StoredMessage,
                    StorageError>(StorageError::AgentQuotaExceeded {
                    resource: "session message count", limit: 4096 })
            &&& !broken_0 && !broken_1 && !broken_2 && !broken_3 && !broken_4 && !broken_5
                && !broken_6 && broken_7
                    ==> outcome == Err::<StoredMessage,
                    StorageError>(StorageError::AgentQuotaExceeded {
                    resource: "session message bytes", limit: 33_554_432 })
            &&& !broken_0 && !broken_1 && !broken_2 && !broken_3 && !broken_4 && !broken_5
                && !broken_6 && !broken_7 && broken_8
                    ==> outcome == Err::<StoredMessage,
                    StorageError>(StorageError::NumericRange("agent message ordinal"))
            &&& !broken_0 && !broken_1 && !broken_2 && !broken_3 && !broken_4 && !broken_5
                && !broken_6 && !broken_7 && !broken_8 && broken_9
                    ==> outcome == Err::<StoredMessage,
                    StorageError>(StorageError::InvalidAgent(
                    "summary coverage must precede the summary message"))
            &&& !broken_0 && !broken_1 && !broken_2 && !broken_3 && !broken_4 && !broken_5
                && !broken_6 && !broken_7 && !broken_8 && !broken_9 && broken_10
                    ==> outcome == Err::<StoredMessage,
                    StorageError>(StorageError::NumericRange("agent message ordinal"))
            &&& !broken_0 && !broken_1 && !broken_2 && !broken_3 && !broken_4 && !broken_5
                && !broken_6 && !broken_7 && !broken_8 && !broken_9 && !broken_10 ==> outcome is Ok
        }),
{
}

/// Progress that a run reports fails by the first of its rules that is broken.
pub proof fn law_progress_fails_by_its_first_broken_rule(
    earlier: RunProgress,
    later: RunProgress,
    initiating: InitiatingMessages,
    coverage: Option<u64>,
)
    ensures
        ({
            let outcome = progress_check(later);
            let broken_0 = later.last_sequence > i64::MAX;
            let broken_1 = later.model_rounds > i64::MAX;
            let broken_2 = later.tool_calls > i64::MAX;
            let broken_3 = later.input_tokens > i64::MAX;
            let broken_4 = later.output_tokens > i64::MAX;
            let broken_5 = later.total_tokens > i64::MAX;
            let broken_6 = later.compaction_count > i64::MAX;
            let broken_7 = later.last_sequence == 0;
            let broken_8 = later.total_tokens < later.input_tokens + later.output_tokens;
            let broken_9 = (later.compacted_through_ordinal matches Some(through)
                && through > i64::MAX);
            let broken_10 = (later.compaction_count
                == 0) != (later.compacted_through_ordinal is None);
            &&& broken_0 ==> outcome
                == Err::<(), StorageError>(StorageError::NumericRange("agent event sequence"))
            &&& !broken_0 && broken_1
                ==> outcome == Err::<(),
                    StorageError>(StorageError::NumericRange("agent model rounds"))
            &&& !broken_0 && !broken_1 && broken_2
                ==> outcome == Err::<(),
                    StorageError>(StorageError::NumericRange("agent tool calls"))
            &&& !broken_0 && !broken_1 && !broken_2 && broken_3
                ==> outcome == Err::<(),
                    StorageError>(StorageError::NumericRange("agent input tokens"))
            &&& !broken_0 && !broken_1 && !broken_2 && !broken_3 && broken_4
                ==> outcome == Err::<(),
                    StorageError>(StorageError::NumericRange("agent output tokens"))
            &&& !broken_0 && !broken_1 && !broken_2 && !broken_3 && !broken_4 && broken_5
                ==> outcome == Err::<(),
                    StorageError>(StorageError::NumericRange("agent total tokens"))
            &&& !broken_0 && !broken_1 && !broken_2 && !broken_3 && !broken_4 && !broken_5
                && broken_6 ==> outcome
                    == Err::<(), StorageError>(StorageError::NumericRange("agent compaction count"))
            &&& !broken_0 && !broken_1 && !broken_2 && !broken_3 && !broken_4 && !broken_5
                && !broken_6 && broken_7
                    ==> outcome == Err::<(),
                    StorageError>(StorageError::InvalidAgent(
                    "agent event sequence must be greater than zero"))
            &&& !broken_0 && !broken_1 && !broken_2 && !broken_3 && !broken_4 && !broken_5
                && !broken_6 && !broken_7 && broken_8
                    ==> outcome == Err::<(),
                    StorageError>(StorageError::InvalidAgent(
                    "agent total tokens cannot be less than input plus output tokens"))
            &&& !broken_0 && !broken_1 && !broken_2 && !broken_3 && !broken_4 && !broken_5
                && !broken_6 && !broken_7 && !broken_8 && broken_9
                    ==> outcome == Err::<(),
                    StorageError>(StorageError::NumericRange("compacted message ordinal"))
            &&& !broken_0 && !broken_1 && !broken_2 && !broken_3 && !broken_4 && !broken_5
                && !broken_6 && !broken_7 && !broken_8 && !broken_9 && broken_10
                    ==> outcome == Err::<(),
                    StorageError>(StorageError::InvalidAgent(
                    "agent compaction count and coverage ordinal must be present together"))
            &&& !broken_0 && !broken_1 && !broken_2 && !broken_3 && !broken_4 && !broken_5
                && !broken_6 && !broken_7 && !broken_8 && !broken_9 && !broken_10 ==> outcome is Ok
        }),
        progress_check(later) is Err ==> advance_check(earlier, later) == progress_check(later),
        progress_check(later) is Ok && advance_check(earlier, later) is Err ==> advance_check(
            earlier,
            later,
        ) == Err::<(), StorageError>(
            StorageError::InvalidAgent(
                "agent run sequence, counters, usage, and compaction must be monotonic",
            ),
        ),
        advance_check(earlier, later) is Ok <==> {
            &&& progress_check(later) is Ok
            &&& later.last_sequence > earlier.last_sequence
            &&& later.model_rounds >= earlier.model_rounds
            &&& later.tool_calls >= earlier.tool_calls
            &&& later.input_tokens >= earlier.input_tokens
            &&& later.output_tokens >= earlier.output_tokens
            &&& later.total_tokens >= earlier.total_tokens
            &&& later.compaction_count >= earlier.compaction_count
            &&& earlier.compacted_through_ordinal matches Some(before) ==> (
            later.compacted_through_ordinal matches Some(after) && before <= after)
        },
        boundary_check(initiating, None) is Ok,
        ({
            let outcome = boundary_check(initiating, Some(coverage->0));
            let broken_0 = initiating.count != 1 || initiating.ordinal is None;
            let broken_1 = initiating.ordinal->0 < 0;
            let broken_2 = coverage->0 >= initiating.ordinal->0;
            &&& broken_0 ==> outcome
                == Err::<(), StorageError>(StorageError::InvalidAgent(
                    "persisted agent run initiating message is invalid"))
            &&& !broken_0 && broken_1
                ==> outcome == Err::<(),
                    StorageError>(StorageError::NumericRange("agent message ordinal"))
            &&& !broken_0 && !broken_1 && broken_2
                ==> outcome == Err::<(),
                    StorageError>(StorageError::InvalidAgent(
                    "agent compaction coverage must precede its initiating user message"))
            &&& !broken_0 && !broken_1 && !broken_2 ==> outcome is Ok
        }),
{
}

/// A run is found exactly if it is there in the state that was expected; the failure names both states.
pub proof fn law_run_is_found_in_its_state(
    id: String,
    expected: AgentRunStatus,
    run: Option<AgentRunRecord>,
    sequence: u64,
)
    ensures
        ({
            let outcome = found_in(id, run, expected);
            let broken_0 = run is None;
            let broken_1 = run->0.status != expected;
            &&& broken_0 ==> outcome
                == Err::<AgentRunRecord, StorageError>(StorageError::AgentRunNotFound(id))
            &&& !broken_0 && broken_1
                ==> outcome == Err::<AgentRunRecord,
                    StorageError>(StorageError::AgentStateConflict { id,
                    expected: (match expected { AgentRunStatus::Running => "running",
                    AgentRunStatus::WaitingPermission => "waiting_permission",
                    AgentRunStatus::Completed => "completed", AgentRunStatus::Failed => "failed",
                    AgentRunStatus::Cancelled => "cancelled" }),
                    actual: (match run->0.status { AgentRunStatus::Running => "running",
                    AgentRunStatus::WaitingPermission => "waiting_permission",
                    AgentRunStatus::Completed => "completed", AgentRunStatus::Failed => "failed",
                    AgentRunStatus::Cancelled => "cancelled" }) })
            &&& !broken_0 && !broken_1 ==> outcome is Ok
        }),
        ({
            let outcome = compactable(id, expected, run, sequence);
            let broken_0 = run is None;
            let broken_1 = run->0.status != expected;
            let broken_2 = run->0.cancel_requested;
            let broken_3 = run->0.write_in_flight_tool_call_id is Some;
            let broken_4 = sequence != run->0.last_sequence + 1;
            &&& broken_0 ==> outcome
                == Err::<AgentRunRecord, StorageError>(StorageError::AgentRunNotFound(id))
            &&& !broken_0 && broken_1
                ==> outcome == Err::<AgentRunRecord,
                    StorageError>(StorageError::AgentStateConflict { id,
                    expected: (match expected { AgentRunStatus::Running => "running",
                    AgentRunStatus::WaitingPermission => "waiting_permission",
                    AgentRunStatus::Completed => "completed", AgentRunStatus::Failed => "failed",
                    AgentRunStatus::Cancelled => "cancelled" }),
                    actual: (match run->0.status { AgentRunStatus::Running => "running",
                    AgentRunStatus::WaitingPermission => "waiting_permission",
                    AgentRunStatus::Completed => "completed", AgentRunStatus::Failed => "failed",
                    AgentRunStatus::Cancelled => "cancelled" }) })
            &&& !broken_0 && !broken_1 && broken_2
                ==> outcome == Err::<AgentRunRecord,
                    StorageError>(StorageError::InvalidAgent(
                    "agent context cannot compact after cancellation is requested"))
            &&& !broken_0 && !broken_1 && !broken_2 && broken_3
                ==> outcome == Err::<AgentRunRecord,
                    StorageError>(StorageError::InvalidAgent(
                    "agent context cannot compact while a database write is in flight"))
            &&& !broken_0 && !broken_1 && !broken_2 && !broken_3 && broken_4
                ==> outcome == Err::<AgentRunRecord,
                    StorageError>(StorageError::InvalidAgent(
                    "agent compaction sequence must be the next event"))
            &&& !broken_0 && !broken_1 && !broken_2 && !broken_3 && !broken_4 ==> outcome is Ok
        }),
        found_in(id, run, expected) matches Ok(current) ==> run == Some(current),
        compactable(id, expected, run, sequence) matches Ok(current) ==> run == Some(current),
{
}

/// A permission is used only as it is: the failure is that of the first mismatch.
pub proof fn law_permission_fails_by_its_first_broken_rule(
    id: String,
    expected_revision: u64,
    run_id: String,
    tool_call_id: String,
    arguments_sha256: [u8; 32],
    permission: Option<ToolPermissionRecord>,
    status: ToolPermissionStatus,
    otherwise: &'static str,
)
    ensures
        ({
            let outcome = usable_permission(id, expected_revision, run_id, tool_call_id,
                arguments_sha256, permission, status, otherwise);
            let broken_0 = permission is None;
            let broken_1 = permission->0.revision != expected_revision;
            let broken_2 = permission->0.run_id@ != run_id@
                || permission->0.tool_call_id@ != tool_call_id@
                    || permission->0.arguments_sha256@ != arguments_sha256@;
            let broken_3 = permission->0.status != status;
            &&& broken_0 ==> outcome
                == Err::<ToolPermissionRecord, StorageError>(StorageError::PermissionNotFound(id))
            &&& !broken_0 && broken_1
                ==> outcome == Err::<ToolPermissionRecord,
                    StorageError>(StorageError::PermissionRevisionConflict { id,
                    expected: expected_revision, actual: Some(permission->0.revision) })
            &&& !broken_0 && !broken_1 && broken_2
                ==> outcome == Err::<ToolPermissionRecord,
                    StorageError>(StorageError::PermissionNotExecutable { id,
                    reason: "permission binding does not match" })
            &&& !broken_0 && !broken_1 && !broken_2 && broken_3
                ==> outcome == Err::<ToolPermissionRecord,
                    StorageError>(StorageError::PermissionNotExecutable { id, reason: otherwise })
            &&& !broken_0 && !broken_1 && !broken_2 && !broken_3 ==> outcome is Ok
        }),
{
}

/// A request for a permission fails by the first of its rules that is broken.
pub proof fn law_permission_request_fails_by_its_first_broken_rule(
    run_id: String,
    input: RequestToolPermission,
    run: Option<AgentRunRecord>,
    id: String,
    timestamp: i64,
    expires_at_ms: i64,
)
    ensures
        ({
            let outcome = permission_created(run_id, input, run, id, timestamp, expires_at_ms);
            let broken_0 = (blank(input.tool_call_id@) || byte_len(input.tool_call_id@) > 512);
            let broken_1 = (blank(input.tool_name@) || byte_len(input.tool_name@) > 512);
            let broken_2 = (blank(input.summary@) || byte_len(input.summary@) > 4096);
            let broken_3 = input.last_sequence == 0;
            let broken_4 = expires_at_ms <= timestamp;
            let broken_5 = run is None;
            let broken_6 = run->0.cancel_requested || !(run->0.status is Running)
                || !(run->0.sql_permission_mode is AskBeforeWrite)
                    || run->0.write_in_flight_tool_call_id is Some;
            let broken_7 = input.last_sequence <= run->0.last_sequence;
            let broken_8 = input.last_sequence > i64::MAX;
            &&& broken_0 ==> outcome
                == Err::<PermissionStep,
                    StorageError>(StorageError::InvalidAgent(
                    "tool call id must be non-empty and at most 512 UTF-8 bytes"))
            &&& !broken_0 && broken_1
                ==> outcome == Err::<PermissionStep,
                    StorageError>(StorageError::InvalidAgent(
                    "tool name must be non-empty and at most 512 UTF-8 bytes"))
            &&& !broken_0 && !broken_1 && broken_2
                ==> outcome == Err::<PermissionStep,
                    StorageError>(StorageError::InvalidAgent(
                    "permission summary must be non-empty and at most 4096 UTF-8 bytes"))
            &&& !broken_0 && !broken_1 && !broken_2 && broken_3
                ==> outcome == Err::<PermissionStep,
                    StorageError>(StorageError::InvalidAgent(
                    "permission event sequence must be greater than zero"))
            &&& !broken_0 && !broken_1 && !broken_2 && !broken_3 && broken_4
                ==> outcome == Err::<PermissionStep,
                    StorageError>(StorageError::InvalidAgent(
                    "tool permission expiry must be after creation"))
            &&& !broken_0 && !broken_1 && !broken_2 && !broken_3 && !broken_4 && broken_5
                ==> outcome == Err::<PermissionStep,
                    StorageError>(StorageError::AgentRunNotFound(run_id))
            &&& !broken_0 && !broken_1 && !broken_2 && !broken_3 && !broken_4 && !broken_5
                && broken_6 ==> outcome
                    == Err::<PermissionStep,
                    StorageError>(StorageError::PermissionNotExecutable { id: run_id,
                    reason: "owning run is not executable" })
            &&& !broken_0 && !broken_1 && !broken_2 && !broken_3 && !broken_4 && !broken_5
                && !broken_6 && broken_7
                    ==> outcome == Err::<PermissionStep,
                    StorageError>(StorageError::InvalidAgent(
                    "permission event sequence must advance the run snapshot"))
            &&& !broken_0 && !broken_1 && !broken_2 && !broken_3 && !broken_4 && !broken_5
                && !broken_6 && !broken_7 && broken_8
                    ==> outcome == Err::<PermissionStep,
                    StorageError>(StorageError::NumericRange("agent event sequence"))
            &&& !broken_0 && !broken_1 && !broken_2 && !broken_3 && !broken_4 && !broken_5
                && !broken_6 && !broken_7 && !broken_8 ==> outcome is Ok
        }),
{
}

/// A handle that cannot be created or resolved fails by the first of its rules that is broken; nobody but
/// its owner learns that it exists.
pub proof fn law_handle_fails_by_its_first_broken_rule(
    session_id: String,
    run_id: String,
    result_id: String,
    owner: Option<String>,
    result: Option<ObservedResult>,
    id: String,
    timestamp: i64,
    requested_expiry: i64,
    handle: Option<AgentResultHandle>,
)
    ensures
        ({
            let outcome = handle_created(session_id, run_id, result_id, owner, result, id,
                timestamp, requested_expiry);
            let broken_0 = requested_expiry <= timestamp;
            let broken_1 = owner is None;
            let broken_2 = owner->0@ != session_id@;
            let broken_3 = !(result matches Some(observed) && observed.complete
                && observed.expires_at_ms > timestamp);
            &&& broken_0 ==> outcome
                == Err::<AgentResultHandle,
                    StorageError>(StorageError::InvalidAgent(
                    "result handle expiry must be after creation"))
            &&& !broken_0 && broken_1
                ==> outcome == Err::<AgentResultHandle,
                    StorageError>(StorageError::AgentRunNotFound(run_id))
            &&& !broken_0 && !broken_1 && broken_2
                ==> outcome == Err::<AgentResultHandle,
                    StorageError>(StorageError::ResultHandleNotFound(run_id))
            &&& !broken_0 && !broken_1 && !broken_2 && broken_3
                ==> outcome == Err::<AgentResultHandle,
                    StorageError>(StorageError::ResultNotFound(result_id))
            &&& !broken_0 && !broken_1 && !broken_2 && !broken_3 ==> outcome is Ok
        }),
        ({
            let outcome = handle_resolved(id, session_id@, run_id@, handle, result, timestamp);
            let broken_0 = handle is None;
            let broken_1 = handle->0.session_id@ != session_id@ || handle->0.run_id@ != run_id@;
            &&& broken_0 ==> outcome
                == Err::<ResolvedHandle, StorageError>(StorageError::ResultHandleNotFound(id))
            &&& !broken_0 && broken_1
                ==> outcome == Err::<ResolvedHandle,
                    StorageError>(StorageError::ResultHandleNotFound(id))
            &&& !broken_0 && !broken_1 ==> outcome is Ok
        }),
        handle_resolved(
            id,
            session_id@,
            run_id@,
            handle,
            result,
            timestamp,
        ) matches Ok(ResolvedHandle::Removed(error))
            ==> error == StorageError::ResultHandleNotFound(
            id,
        ),
{
}

} // verus!
