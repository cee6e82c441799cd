//! What an accepted operation on a permission or a write does, field by field.

use vstd::prelude::*;

use crate::agent::effects::{batch_stored, lemma_batch_stored, may_end_with};
use crate::agent::message::{batch_blocks, SessionMessages};
use crate::agent::model::{
    AgentRunRecord, RequestToolPermission, ToolPermissionRecord, UnknownAgentWrite,
};
use crate::agent::permission::{
    permission_consumed, permission_created, permission_decided, revoked_all, PermissionOutcome,
};
use crate::agent::progress::InitiatingMessages;
use crate::agent::run::stored_batch;
use crate::agent::status::{AgentRunStatus, ToolPermissionDecision, ToolPermissionStatus};
use crate::agent::write::{fenced_run, outcome_unknown, settled};
use crate::text::{blank, byte_len};

verus! {

/// The run is another one only in its state, its last event, its fence and its update time.
pub open spec fn stepped(
    next: AgentRunRecord,
    run: AgentRunRecord,
    status: AgentRunStatus,
    last_sequence: u64,
    timestamp: i64,
) -> bool {
    &&& next.status == status
    &&& next.last_sequence == last_sequence
    &&& next.updated_at_ms == timestamp
    &&& next.id == run.id
    &&& next.session_id == run.session_id
    &&& next.sql_permission_mode == run.sql_permission_mode
    &&& next.model_rounds == run.model_rounds
    &&& next.tool_calls == run.tool_calls
    &&& next.input_tokens == run.input_tokens
    &&& next.output_tokens == run.output_tokens
    &&& next.total_tokens == run.total_tokens
    &&& next.message_id == run.message_id
    &&& next.error_code == run.error_code
    &&& next.error_message == run.error_message
    &&& next.cancel_requested == run.cancel_requested
    &&& next.compaction_count == run.compaction_count
    &&& next.compacted_through_ordinal == run.compacted_through_ordinal
    &&& next.created_at_ms == run.created_at_ms
    &&& next.started_at_ms == run.started_at_ms
    &&& next.finished_at_ms == run.finished_at_ms
}

/// The permission is another one only in its state, its revision, its update time and its use.
pub open spec fn advanced_to(
    next: ToolPermissionRecord,
    permission: ToolPermissionRecord,
    status: ToolPermissionStatus,
    timestamp: i64,
) -> bool {
    &&& next.status == status
    &&& next.revision == permission.revision + 1
    &&& next.updated_at_ms == timestamp
    &&& next.id == permission.id
    &&& next.run_id == permission.run_id
    &&& next.tool_call_id == permission.tool_call_id
    &&& next.tool_name == permission.tool_name
    &&& next.arguments_sha256 == permission.arguments_sha256
    &&& next.summary == permission.summary
    &&& next.expires_at_ms == permission.expires_at_ms
    &&& next.created_at_ms == permission.created_at_ms
}

/// A permission is created as it was asked for: pending, at revision one, bound to the call and its
/// arguments. Its run waits from the event of the request on.
pub proof fn law_permission_is_created_as_asked(
    run_id: String,
    input: RequestToolPermission,
    run: AgentRunRecord,
    id: String,
    timestamp: i64,
    expires_at_ms: i64,
)
    ensures
        permission_created(
            run_id,
            input,
            Some(run),
            id,
            timestamp,
            expires_at_ms,
        ) matches Ok(step) ==> {
            &&& step.permission.id == id
            &&& step.permission.run_id == run_id
            &&& step.permission.tool_call_id == input.tool_call_id
            &&& step.permission.tool_name == input.tool_name
            &&& step.permission.arguments_sha256 == input.arguments_sha256
            &&& step.permission.summary == input.summary
            &&& step.permission.status is Pending
            &&& step.permission.revision == 1
            &&& step.permission.expires_at_ms == expires_at_ms
            &&& step.permission.created_at_ms == timestamp
            &&& step.permission.updated_at_ms == timestamp
            &&& step.permission.consumed_at_ms is None
            &&& step.run matches Some(next) && stepped(
                next,
                run,
                AgentRunStatus::WaitingPermission,
                input.last_sequence,
                timestamp,
            ) && next.write_in_flight_tool_call_id is None
                && next.write_in_flight_arguments_sha256 == run.write_in_flight_arguments_sha256
        },
{
}

/// A permission is created exactly if its texts are present and bounded, it ends after it begins,
/// and its run is running, asks before writes, is not to be cancelled, has no write under way and
/// has not yet seen the event.
pub proof fn law_permission_request_is_accepted(
    run_id: String,
    input: RequestToolPermission,
    run: AgentRunRecord,
    id: String,
    timestamp: i64,
    expires_at_ms: i64,
)
    ensures
        permission_created(run_id, input, Some(run), id, timestamp, expires_at_ms) is Ok <==> {
            &&& !blank(input.tool_call_id@) && byte_len(input.tool_call_id@) <= 512
            &&& !blank(input.tool_name@) && byte_len(input.tool_name@) <= 512
            &&& !blank(input.summary@) && byte_len(input.summary@) <= 4096
            &&& timestamp < expires_at_ms
            &&& run.status is Running
            &&& run.sql_permission_mode is AskBeforeWrite
            &&& !run.cancel_requested
            &&& run.write_in_flight_tool_call_id is None
            &&& run.last_sequence < input.last_sequence <= i64::MAX
        },
        permission_created(run_id, input, None, id, timestamp, expires_at_ms) is Err,
{
}

/// The caller names the permission as it is: its revision, its run, its call and its arguments.
pub open spec fn names_permission(
    permission: ToolPermissionRecord,
    expected_revision: u64,
    run_id: String,
    tool_call_id: String,
    arguments_sha256: [u8; 32],
) -> bool {
    &&& permission.revision == expected_revision
    &&& permission.run_id@ == run_id@
    &&& permission.tool_call_id@ == tool_call_id@
    &&& permission.arguments_sha256@ == arguments_sha256@
}

/// A decision is carried out exactly if it names a pending permission that has not expired, and its
/// run waits, is not to be cancelled and has not yet seen the event. Approval approves the
/// permission and leaves the run waiting; denial denies it and lets the run go on.
pub proof fn law_decision_is_carried_out(
    id: String,
    expected_revision: u64,
    run_id: String,
    tool_call_id: String,
    arguments_sha256: [u8; 32],
    last_sequence: u64,
    decision: ToolPermissionDecision,
    permission: ToolPermissionRecord,
    run: AgentRunRecord,
    timestamp: i64,
)
    ensures
        ({
            let outcome = permission_decided(
                id,
                expected_revision,
                run_id,
                tool_call_id,
                arguments_sha256,
                last_sequence,
                decision,
                Some(permission),
                Some(run),
                timestamp,
            );
            let named = names_permission(
                permission,
                expected_revision,
                run_id,
                tool_call_id,
                arguments_sha256,
            ) && permission.status is Pending && run.status is WaitingPermission
                && !run.cancel_requested && run.write_in_flight_tool_call_id is None
                && run.last_sequence < last_sequence;
            &&& (outcome matches Ok(PermissionOutcome::Done(_))) <==> (named && timestamp
                < permission.expires_at_ms && permission.revision < i64::MAX && last_sequence
                <= i64::MAX)
            &&& (outcome matches Ok(PermissionOutcome::Lapsed(_, _))) <==> (named
                && permission.expires_at_ms <= timestamp)
            &&& outcome matches Ok(PermissionOutcome::Done(step)) ==> {
                &&& advanced_to(
                    step.permission,
                    permission,
                    match decision {
                        ToolPermissionDecision::Approve => ToolPermissionStatus::Approved,
                        ToolPermissionDecision::Deny => ToolPermissionStatus::Denied,
                    },
                    timestamp,
                )
                &&& step.permission.consumed_at_ms == permission.consumed_at_ms
                &&& step.run matches Some(next) && stepped(
                    next,
                    run,
                    match decision {
                        ToolPermissionDecision::Approve => AgentRunStatus::WaitingPermission,
                        ToolPermissionDecision::Deny => AgentRunStatus::Running,
                    },
                    last_sequence,
                    timestamp,
                ) && next.write_in_flight_tool_call_id is None
            }
            &&& outcome matches Ok(PermissionOutcome::Lapsed(step, _)) ==> {
                &&& permission.revision < u64::MAX ==> advanced_to(
                    step.permission,
                    permission,
                    ToolPermissionStatus::Expired,
                    timestamp,
                )
                &&& step.permission.consumed_at_ms == permission.consumed_at_ms
                &&& step.run matches Some(next) && stepped(
                    next,
                    run,
                    AgentRunStatus::Running,
                    run.last_sequence,
                    timestamp,
                )
            }
        }),
{
}

/// A permission is used exactly if it is named as it is, is approved and has not expired, and its
/// run waits for it. It is then consumed, and the run goes on behind the fence of that one call.
pub proof fn law_permission_is_used_for_its_call(
    id: String,
    expected_revision: u64,
    run_id: String,
    tool_call_id: String,
    arguments_sha256: [u8; 32],
    last_sequence: u64,
    permission: ToolPermissionRecord,
    run: AgentRunRecord,
    timestamp: i64,
)
    ensures
        ({
            let outcome = permission_consumed(
                id,
                expected_revision,
                run_id,
                tool_call_id,
                arguments_sha256,
                last_sequence,
                Some(permission),
                Some(run),
                timestamp,
            );
            let named = names_permission(
                permission,
                expected_revision,
                run_id,
                tool_call_id,
                arguments_sha256,
            ) && permission.status is Approved;
            &&& (outcome matches Ok(PermissionOutcome::Done(_))) <==> (named && timestamp
                < permission.expires_at_ms && run.status is WaitingPermission
                && run.sql_permission_mode is AskBeforeWrite && !run.cancel_requested
                && run.write_in_flight_tool_call_id is None && run.last_sequence < last_sequence
                <= i64::MAX && permission.revision < i64::MAX)
            &&& (outcome matches Ok(PermissionOutcome::Lapsed(_, _))) <==> (named
                && permission.expires_at_ms <= timestamp)
            &&& outcome matches Ok(PermissionOutcome::Done(step)) ==> {
                &&& advanced_to(
                    step.permission,
                    permission,
                    ToolPermissionStatus::Consumed,
                    timestamp,
                )
                &&& step.permission.consumed_at_ms == Some(timestamp)
                &&& step.run matches Some(next) && stepped(
                    next,
                    run,
                    AgentRunStatus::Running,
                    last_sequence,
                    timestamp,
                ) && next.write_in_flight_tool_call_id == Some(tool_call_id)
                    && next.write_in_flight_arguments_sha256 == Some(arguments_sha256)
            }
            &&& outcome matches Ok(PermissionOutcome::Lapsed(step, _)) ==> {
                &&& permission.revision < u64::MAX ==> advanced_to(
                    step.permission,
                    permission,
                    ToolPermissionStatus::Expired,
                    timestamp,
                )
                &&& step.permission.consumed_at_ms == permission.consumed_at_ms
                &&& match step.run {
                    Some(next) => run.status is WaitingPermission && stepped(
                        next,
                        run,
                        AgentRunStatus::Running,
                        run.last_sequence,
                        timestamp,
                    ),
                    None => !(run.status is WaitingPermission),
                }
            }
        }),
{
}

/// Withdrawing the permissions of a run withdraws each one that is pending or approved, in order,
/// and no other.
pub proof fn law_revocation_withdraws_active_permissions(
    permissions: Seq<ToolPermissionRecord>,
    timestamp: i64,
)
    requires
        forall|i: int| 0 <= i < permissions.len() ==> (#[trigger] permissions[i]).revision
            <= i64::MAX,
    ensures
        permissions.len() == 0 ==> revoked_all(permissions, timestamp).len() == 0,
        permissions.len() > 0 ==> {
            let earlier = revoked_all(permissions.drop_last(), timestamp);
            let changed = revoked_all(permissions, timestamp);
            let last = permissions.last();
            if last.status is Pending || last.status is Approved {
                &&& changed.len() == earlier.len() + 1
                &&& changed.take(earlier.len() as int) == earlier
                &&& advanced_to(
                    changed.last(),
                    last,
                    ToolPermissionStatus::Revoked,
                    timestamp,
                )
                &&& changed.last().consumed_at_ms == last.consumed_at_ms
            } else {
                changed == earlier
            }
        },
{
    if permissions.len() > 0 {
        let earlier = revoked_all(permissions.drop_last(), timestamp);
        let changed = revoked_all(permissions, timestamp);
        assert(permissions.last().revision <= i64::MAX) by {
            assert(permissions[permissions.len() - 1].revision <= i64::MAX);
        }
        if permissions.last().status.active() {
            assert(changed.take(earlier.len() as int) =~= earlier);
        }
    }
}

/// A write is settled exactly if its caller names the call and the arguments of the fence of a
/// running run; that lowers the fence and changes nothing else.
pub proof fn law_settling_lowers_the_named_fence(
    run_id: String,
    tool_call_id: String,
    arguments_sha256: [u8; 32],
    run: AgentRunRecord,
    timestamp: i64,
)
    ensures
        fenced_run(run_id, tool_call_id, arguments_sha256, Some(run)) is Ok <==> {
            &&& run.status is Running
            &&& run.write_in_flight_tool_call_id matches Some(call) && call@ == tool_call_id@
            &&& run.write_in_flight_arguments_sha256 matches Some(digest) && digest@
                == arguments_sha256@
        },
        fenced_run(run_id, tool_call_id, arguments_sha256, Some(run)) matches Ok(found) ==> found
            == run,
        ({
            let next = settled(run, timestamp);
            &&& stepped(next, run, run.status, run.last_sequence, timestamp)
            &&& next.write_in_flight_tool_call_id is None
            &&& next.write_in_flight_arguments_sha256 is None
        }),
{
}

/// A run whose write has an unknown outcome fails with the counters that were reported and keeps its
/// fence; the messages are stored behind those of the session. That is accepted exactly if the
/// caller names the fence, the progress is valid and the messages can be stored.
pub proof fn law_unknown_outcome_records_what_is_reported(
    run_id: String,
    tool_call_id: String,
    arguments_sha256: [u8; 32],
    input: UnknownAgentWrite,
    run: AgentRunRecord,
    initiating: InitiatingMessages,
    totals: SessionMessages,
    ids: Seq<String>,
    timestamp: i64,
)
    requires
        ids.len() == input.messages@.len(),
    ensures
        ({
            let outcome = outcome_unknown(
                run_id,
                tool_call_id,
                arguments_sha256,
                input,
                Some(run),
                initiating,
                totals,
                ids,
                timestamp,
            );
            &&& outcome is Ok <==> {
                &&& run.status is Running
                &&& run.write_in_flight_tool_call_id matches Some(call) && call@ == tool_call_id@
                &&& run.write_in_flight_arguments_sha256 matches Some(digest) && digest@
                    == arguments_sha256@
                &&& may_end_with(
                    run,
                    input.last_sequence,
                    input.model_rounds,
                    input.tool_calls,
                    input.input_tokens,
                    input.output_tokens,
                    input.total_tokens,
                    input.compaction_count,
                    input.compacted_through_ordinal,
                    initiating,
                )
                &&& batch_blocks(input.messages@) is Ok
                &&& stored_batch(
                    run_id,
                    run,
                    totals,
                    input.messages@,
                    ids,
                    batch_blocks(input.messages@)->Ok_0,
                    timestamp,
                ) is Ok
            }
            &&& outcome matches Ok((next, stored)) ==> {
                &&& next.last_sequence == input.last_sequence
                &&& next.model_rounds == input.model_rounds
                &&& next.tool_calls == input.tool_calls
                &&& next.input_tokens == input.input_tokens
                &&& next.output_tokens == input.output_tokens
                &&& next.total_tokens == input.total_tokens
                &&& next.compaction_count == run.compaction_count
                &&& next.compacted_through_ordinal == run.compacted_through_ordinal
                &&& next.status is Failed
                &&& next.message_id is None
                &&& next.updated_at_ms == timestamp
                &&& next.finished_at_ms == Some(timestamp)
                &&& next.id == run.id
                &&& next.session_id == run.session_id
                &&& next.sql_permission_mode == run.sql_permission_mode
                &&& next.cancel_requested == run.cancel_requested
                &&& next.write_in_flight_tool_call_id == run.write_in_flight_tool_call_id
                &&& next.write_in_flight_arguments_sha256 == run.write_in_flight_arguments_sha256
                &&& next.created_at_ms == run.created_at_ms
                &&& next.started_at_ms == run.started_at_ms
                &&& batch_stored(
                    stored,
                    input.messages@,
                    ids,
                    run.session_id,
                    run_id,
                    totals,
                    timestamp,
                )
            }
        }),
{
    if outcome_unknown(
        run_id,
        tool_call_id,
        arguments_sha256,
        input,
        Some(run),
        initiating,
        totals,
        ids,
        timestamp,
    ) is Ok {
        lemma_batch_stored(run_id, run, totals, input.messages@, ids, false, timestamp);
    }
}

} // verus!
