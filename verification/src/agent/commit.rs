use vstd::prelude::*;

use crate::agent::model::{AgentMessageRecord, AgentRunRecord, CompactedAgentRun};
use crate::commit::CommitOutcome;
use crate::digest::same_digest;
use crate::error::StorageError;
use crate::storage::Storage;
use crate::text::{same_optional, same_optional_text, same_text};

verus! {

/// What the store shows of a compaction after a commit that reported a failure.
pub struct CompactionReadback {
    /// The run.
    pub run: Option<AgentRunRecord>,
    /// The summary, looked up by the id that the compaction gave it.
    pub summary: Option<AgentMessageRecord>,
}

/// Both absent, or both present with the same bytes.
pub open spec fn same_optional_digest(left: Option<[u8; 32]>, right: Option<[u8; 32]>) -> bool {
    match (left, right) {
        (None, None) => true,
        (Some(a), Some(b)) => a@ == b@,
        _ => false,
    }
}

/// Two records hold the same run.
pub open spec fn same_run(left: AgentRunRecord, right: AgentRunRecord) -> bool {
    &&& left.id@ == right.id@
    &&& left.session_id@ == right.session_id@
    &&& left.status == right.status
    &&& left.sql_permission_mode == right.sql_permission_mode
    &&& left.last_sequence == right.last_sequence
    &&& left.model_rounds == right.model_rounds
    &&& left.tool_calls == right.tool_calls
    &&& left.input_tokens == right.input_tokens
    &&& left.output_tokens == right.output_tokens
    &&& left.total_tokens == right.total_tokens
    &&& same_optional(left.message_id, right.message_id)
    &&& same_optional(left.error_code, right.error_code)
    &&& same_optional(left.error_message, right.error_message)
    &&& left.cancel_requested == right.cancel_requested
    &&& same_optional(left.write_in_flight_tool_call_id, right.write_in_flight_tool_call_id)
    &&& same_optional_digest(
        left.write_in_flight_arguments_sha256,
        right.write_in_flight_arguments_sha256,
    )
    &&& left.compaction_count == right.compaction_count
    &&& left.compacted_through_ordinal == right.compacted_through_ordinal
    &&& left.created_at_ms == right.created_at_ms
    &&& left.updated_at_ms == right.updated_at_ms
    &&& left.started_at_ms == right.started_at_ms
    &&& left.finished_at_ms == right.finished_at_ms
}

/// Two records hold the same message.
pub open spec fn same_message(left: AgentMessageRecord, right: AgentMessageRecord) -> bool {
    &&& left.id@ == right.id@
    &&& left.session_id@ == right.session_id@
    &&& same_optional(left.run_id, right.run_id)
    &&& left.ordinal == right.ordinal
    &&& left.role == right.role
    &&& left.summary_through_ordinal == right.summary_through_ordinal
    &&& left.content_json@ == right.content_json@
    &&& left.content_bytes == right.content_bytes
    &&& left.created_at_ms == right.created_at_ms
}

/// The summary that a compaction brought is there, or it brought none.
pub open spec fn summary_applied(
    expected: Option<AgentMessageRecord>,
    actual: Option<AgentMessageRecord>,
) -> bool {
    match (expected, actual) {
        (None, _) => true,
        (Some(wanted), Some(found)) => same_message(wanted, found),
        (Some(_), None) => false,
    }
}

/// The failure of a compaction that may or may not have been stored.
pub open spec fn compaction_unknown(id: String) -> StorageError {
    StorageError::OutcomeUnknown { operation: "compact agent run", id }
}

/// A compaction took effect if both of its records did, had no effect if neither did, and is
/// unknown otherwise.
pub open spec fn compaction_settled(
    id: String,
    prior: AgentRunRecord,
    expected: AgentRunRecord,
    expected_summary: Option<AgentMessageRecord>,
    readback: Option<CompactionReadback>,
) -> CommitOutcome<CompactedAgentRun> {
    match readback {
        None => CommitOutcome::Unknown(compaction_unknown(id)),
        Some(actual) => {
            let summary = if expected_summary is Some {
                actual.summary
            } else {
                None
            };
            if (actual.run matches Some(run) && same_run(run, expected)) && summary_applied(
                expected_summary,
                summary,
            ) {
                CommitOutcome::Applied(
                    CompactedAgentRun { run: expected, summary_message: summary },
                )
            } else if (actual.run matches Some(run) && same_run(run, prior)) && summary is None {
                CommitOutcome::NotApplied
            } else {
                CommitOutcome::Unknown(compaction_unknown(id))
            }
        },
    }
}

fn is_same_optional_digest(left: &Option<[u8; 32]>, right: &Option<[u8; 32]>) -> (result: bool)
    ensures
        result == same_optional_digest(*left, *right),
{
    match (left, right) {
        (None, None) => true,
        (Some(a), Some(b)) => same_digest(a, b),
        _ => false,
    }
}

fn is_same_count(left: Option<u64>, right: Option<u64>) -> (result: bool)
    ensures
        result == (left == right),
{
    match (left, right) {
        (None, None) => true,
        (Some(a), Some(b)) => a == b,
        _ => false,
    }
}

fn is_same_time(left: Option<i64>, right: Option<i64>) -> (result: bool)
    ensures
        result == (left == right),
{
    match (left, right) {
        (None, None) => true,
        (Some(a), Some(b)) => a == b,
        _ => false,
    }
}

/// Tests whether two records hold the same run.
pub fn is_same_run(left: &AgentRunRecord, right: &AgentRunRecord) -> (result: bool)
    ensures
        result == same_run(*left, *right),
{
    same_text(left.id.as_str(), right.id.as_str()) && same_text(
        left.session_id.as_str(),
        right.session_id.as_str(),
    ) && left.status == right.status && left.sql_permission_mode == right.sql_permission_mode
        && left.last_sequence == right.last_sequence && left.model_rounds == right.model_rounds
        && left.tool_calls == right.tool_calls && left.input_tokens == right.input_tokens
        && left.output_tokens == right.output_tokens && left.total_tokens == right.total_tokens
        && same_optional_text(&left.message_id, &right.message_id) && same_optional_text(
        &left.error_code,
        &right.error_code,
    ) && same_optional_text(&left.error_message, &right.error_message) && left.cancel_requested
        == right.cancel_requested && same_optional_text(
        &left.write_in_flight_tool_call_id,
        &right.write_in_flight_tool_call_id,
    ) && is_same_optional_digest(
        &left.write_in_flight_arguments_sha256,
        &right.write_in_flight_arguments_sha256,
    ) && left.compaction_count == right.compaction_count && is_same_count(
        left.compacted_through_ordinal,
        right.compacted_through_ordinal,
    ) && left.created_at_ms == right.created_at_ms && left.updated_at_ms == right.updated_at_ms
        && is_same_time(left.started_at_ms, right.started_at_ms) && is_same_time(
        left.finished_at_ms,
        right.finished_at_ms,
    )
}

/// Tests whether two records hold the same message.
pub fn is_same_message(left: &AgentMessageRecord, right: &AgentMessageRecord) -> (result: bool)
    ensures
        result == same_message(*left, *right),
{
    same_text(left.id.as_str(), right.id.as_str()) && same_text(
        left.session_id.as_str(),
        right.session_id.as_str(),
    ) && same_optional_text(&left.run_id, &right.run_id) && left.ordinal == right.ordinal
        && left.role == right.role && is_same_count(
        left.summary_through_ordinal,
        right.summary_through_ordinal,
    ) && same_text(left.content_json.as_str(), right.content_json.as_str()) && left.content_bytes
        == right.content_bytes && left.created_at_ms == right.created_at_ms
}

impl Storage {
    /// Settles a compaction whose commit reported a failure, by what the store shows afterwards.
    pub fn reconcile_agent_compaction_commit(
        id: &String,
        prior_run: &AgentRunRecord,
        expected_run: AgentRunRecord,
        expected_summary: &Option<AgentMessageRecord>,
        readback: Option<CompactionReadback>,
    ) -> (result: CommitOutcome<CompactedAgentRun>)
        ensures
            result == compaction_settled(
                *id,
                *prior_run,
                expected_run,
                *expected_summary,
                readback,
            ),
    {
        let unknown = StorageError::OutcomeUnknown {
            operation: "compact agent run",
            id: id.clone(),
        };
        let actual = match readback {
            Some(actual) => actual,
            None => return CommitOutcome::Unknown(unknown),
        };
        let summary: Option<AgentMessageRecord> = match expected_summary {
            Some(_) => actual.summary,
            None => None,
        };
        let applied: bool = match (expected_summary, &summary) {
            (None, _) => true,
            (Some(wanted), Some(found)) => is_same_message(wanted, found),
            (Some(_), None) => false,
        };
        let run = match &actual.run {
            Some(run) => run,
            None => return CommitOutcome::Unknown(unknown),
        };
        if is_same_run(run, &expected_run) && applied {
            return CommitOutcome::Applied(
                CompactedAgentRun { run: expected_run, summary_message: summary },
            );
        }
        if is_same_run(run, prior_run) && summary.is_none() {
            return CommitOutcome::NotApplied;
        }
        CommitOutcome::Unknown(unknown)
    }
}

/// Two records are the same run exactly if all of their fields are the same.
pub proof fn law_same_run_has_the_same_fields(left: AgentRunRecord, right: AgentRunRecord)
    ensures
        same_run(left, right) ==> {
            &&& left.id@ == right.id@
            &&& left.session_id@ == right.session_id@
            &&& left.status == right.status
            &&& left.sql_permission_mode == right.sql_permission_mode
            &&& left.last_sequence == right.last_sequence
            &&& left.model_rounds == right.model_rounds
            &&& left.tool_calls == right.tool_calls
            &&& left.input_tokens == right.input_tokens
            &&& left.output_tokens == right.output_tokens
            &&& left.total_tokens == right.total_tokens
            &&& left.message_id is Some <==> right.message_id is Some
            &&& left.message_id matches Some(a) ==> (right.message_id matches Some(b) ==> a@ == b@)
            &&& left.error_code is Some <==> right.error_code is Some
            &&& left.error_code matches Some(a) ==> (right.error_code matches Some(b) ==> a@ == b@)
            &&& left.error_message is Some <==> right.error_message is Some
            &&& left.error_message matches Some(a) ==> (right.error_message matches Some(b) ==> a@
                == b@)
            &&& left.cancel_requested == right.cancel_requested
            &&& left.write_in_flight_tool_call_id is Some
                <==> right.write_in_flight_tool_call_id is Some
            &&& left.write_in_flight_tool_call_id matches Some(a) ==> (
            right.write_in_flight_tool_call_id matches Some(b) ==> a@ == b@)
            &&& left.write_in_flight_arguments_sha256 is Some
                <==> right.write_in_flight_arguments_sha256 is Some
            &&& left.write_in_flight_arguments_sha256 matches Some(a) ==> (
            right.write_in_flight_arguments_sha256 matches Some(b) ==> a@ == b@)
            &&& left.compaction_count == right.compaction_count
            &&& left.compacted_through_ordinal == right.compacted_through_ordinal
            &&& left.created_at_ms == right.created_at_ms
            &&& left.updated_at_ms == right.updated_at_ms
            &&& left.started_at_ms == right.started_at_ms
            &&& left.finished_at_ms == right.finished_at_ms
        },
        left == right ==> same_run(left, right),
{
}

/// Two records are the same message exactly if all of their fields are the same.
pub proof fn law_same_message_has_the_same_fields(
    left: AgentMessageRecord,
    right: AgentMessageRecord,
)
    ensures
        same_message(left, right) <==> {
            &&& left.id@ == right.id@
            &&& left.session_id@ == right.session_id@
            &&& left.run_id is Some <==> right.run_id is Some
            &&& left.run_id matches Some(a) ==> (right.run_id matches Some(b) ==> a@ == b@)
            &&& left.ordinal == right.ordinal
            &&& left.role == right.role
            &&& left.summary_through_ordinal == right.summary_through_ordinal
            &&& left.content_json@ == right.content_json@
            &&& left.content_bytes == right.content_bytes
            &&& left.created_at_ms == right.created_at_ms
        },
{
}

/// A compaction whose commit reported a failure has taken effect exactly if the store shows the
/// compacted run and, where there is one, the summary; it has had none exactly if the store shows
/// the earlier run and no summary; otherwise, and where the store cannot be read, nothing is known.
pub proof fn law_compaction_is_settled_by_what_is_stored(
    id: String,
    prior: AgentRunRecord,
    expected: AgentRunRecord,
    summary: Option<AgentMessageRecord>,
    readback: Option<CompactionReadback>,
)
    ensures
        ({
            let settled = compaction_settled(id, prior, expected, summary, readback);
            let applied = readback matches Some(actual) && (actual.run matches Some(run)
                && same_run(run, expected)) && (summary matches Some(wanted) ==> (
            actual.summary matches Some(found) && same_message(wanted, found)));
            let untouched = readback matches Some(actual) && (actual.run matches Some(run)
                && same_run(run, prior)) && (summary is Some ==> actual.summary is None);
            &&& settled is Applied <==> applied
            &&& settled is NotApplied <==> !applied && untouched
            &&& settled matches CommitOutcome::Applied(done) ==> {
                &&& done.run == expected
                &&& summary is None ==> done.summary_message is None
                &&& summary is Some ==> done.summary_message == readback->0.summary
            }
            &&& settled matches CommitOutcome::Unknown(error) ==> error
                == (StorageError::OutcomeUnknown { operation: "compact agent run", id })
        }),
{
}

} // verus!
