//! What an accepted operation does to a run, field by field.

use vstd::prelude::*;

use crate::agent::content::{canonical, message_blocks, role_admits, ContentView};
use crate::agent::message::{
    appended, appended_all, batch_blocks, grown_by, run_batch_blocks, MessageDraft,
    MessageOwner, SessionMessages, StoredMessage,
};
use crate::agent::model::{
    AgentCompaction, AgentRunMessage, AgentRunRecord, AgentRunUpdate, CancelAgentRun,
    CompactAgentRun, CompleteAgentRun, FailAgentRun, StartAgentRun,
};
use crate::agent::progress::InitiatingMessages;
use crate::agent::run::{
    cancel_requested, cancelled, compacted, completed, failed, largest_coverage, started,
    stored_batch, tells_of, updated, CoverageRow, SessionCoverage,
};
use crate::agent::status::{AgentMessageRole, AgentRunStatus};
use crate::error::StorageError;
use crate::text::{blank, byte_len};

verus! {

/// A progress update records each counter that it reports, and changes nothing else of the run.
pub proof fn law_update_records_what_is_reported(
    id: String,
    expected: AgentRunStatus,
    update: AgentRunUpdate,
    run: AgentRunRecord,
    initiating: InitiatingMessages,
    timestamp: i64,
)
    ensures
        updated(id, expected, update, Some(run), initiating, timestamp) matches Ok(next) ==> {
            &&& next.last_sequence == update.last_sequence
            &&& next.model_rounds == update.model_rounds
            &&& next.tool_calls == update.tool_calls
            &&& next.input_tokens == update.input_tokens
            &&& next.output_tokens == update.output_tokens
            &&& next.total_tokens == update.total_tokens
            &&& next.compaction_count == update.compaction_count
            &&& next.compacted_through_ordinal == update.compacted_through_ordinal
            &&& next.compaction_count == run.compaction_count
            &&& next.compacted_through_ordinal == run.compacted_through_ordinal
            &&& next.updated_at_ms == timestamp
            &&& next.id == run.id
            &&& next.session_id == run.session_id
            &&& next.status == run.status
            &&& next.sql_permission_mode == run.sql_permission_mode
            &&& next.message_id == run.message_id
            &&& next.error_code == run.error_code
            &&& next.error_message == run.error_message
            &&& next.cancel_requested == run.cancel_requested
            &&& next.write_in_flight_tool_call_id == run.write_in_flight_tool_call_id
            &&& next.write_in_flight_arguments_sha256 == run.write_in_flight_arguments_sha256
            &&& next.created_at_ms == run.created_at_ms
            &&& next.started_at_ms == run.started_at_ms
            &&& next.finished_at_ms == run.finished_at_ms
        },
{
}

/// A progress update is accepted exactly if the run is live and in the state that both the caller
/// and the update name, no write is under way and no cancellation is requested, every value fits the
/// database, nothing falls behind, the tokens add up, and the compaction state is the recorded one.
pub proof fn law_update_is_accepted_when_it_advances(
    id: String,
    expected: AgentRunStatus,
    update: AgentRunUpdate,
    run: AgentRunRecord,
    initiating: InitiatingMessages,
    timestamp: i64,
)
    ensures
        updated(id, expected, update, Some(run), initiating, timestamp) is Ok <==> {
            &&& expected == run.status
            &&& update.status == run.status
            &&& run.status is Running || run.status is WaitingPermission
            &&& run.write_in_flight_tool_call_id is None
            &&& !run.cancel_requested
            &&& run.last_sequence < update.last_sequence <= i64::MAX
            &&& run.model_rounds <= update.model_rounds <= i64::MAX
            &&& run.tool_calls <= update.tool_calls <= i64::MAX
            &&& run.input_tokens <= update.input_tokens <= i64::MAX
            &&& run.output_tokens <= update.output_tokens <= i64::MAX
            &&& run.total_tokens <= update.total_tokens <= i64::MAX
            &&& update.input_tokens + update.output_tokens <= update.total_tokens
            &&& update.compaction_count == run.compaction_count <= i64::MAX
            &&& update.compacted_through_ordinal == run.compacted_through_ordinal
            &&& (run.compaction_count == 0) == (run.compacted_through_ordinal is None)
            &&& run.compacted_through_ordinal matches Some(covered) ==> {
                &&& covered <= i64::MAX
                &&& initiating.count == 1
                &&& initiating.ordinal matches Some(start) && covered < start
            }
        },
        updated(id, expected, update, None, initiating, timestamp) is Err,
{
}

/// A compaction records each counter that it reports. With coverage it records that coverage and
/// counts one more compaction; without, the compaction state stays.
pub proof fn law_compaction_records_what_is_reported(
    id: String,
    expected: AgentRunStatus,
    input: CompactAgentRun,
    run: AgentRunRecord,
    coverage: SessionCoverage,
    initiating: InitiatingMessages,
    totals: SessionMessages,
    summary_id: String,
    timestamp: i64,
)
    ensures
        compacted(
            id,
            expected,
            input,
            Some(run),
            coverage,
            initiating,
            totals,
            summary_id,
            timestamp,
        ) matches Ok((next, summary)) ==> {
            &&& next.last_sequence == input.last_sequence == run.last_sequence + 1
            &&& next.model_rounds == input.model_rounds
            &&& next.tool_calls == input.tool_calls
            &&& next.input_tokens == input.input_tokens
            &&& next.output_tokens == input.output_tokens
            &&& next.total_tokens == input.total_tokens
            &&& match input.compaction {
                AgentCompaction::NoOp => {
                    &&& next.compaction_count == run.compaction_count
                    &&& next.compacted_through_ordinal == run.compacted_through_ordinal
                    &&& summary is None
                },
                AgentCompaction::DeterministicTrim { compacted_through_ordinal } => {
                    &&& next.compaction_count == run.compaction_count + 1
                    &&& next.compacted_through_ordinal == Some(compacted_through_ordinal)
                    &&& summary is None
                },
                AgentCompaction::Summary { compacted_through_ordinal, content_json } => {
                    &&& next.compaction_count == run.compaction_count + 1
                    &&& next.compacted_through_ordinal == Some(compacted_through_ordinal)
                    &&& summary matches Some(message) && {
                        &&& message.owner.session_id == run.session_id
                        &&& message.owner.run_id == Some(id)
                        &&& message.created_at_ms == timestamp
                        &&& message.draft.id == summary_id
                        &&& message.draft.role == AgentMessageRole::Summary
                        &&& message.draft.summary_through_ordinal == Some(compacted_through_ordinal)
                        &&& message_blocks(content_json@) == Ok::<Seq<ContentView>, StorageError>(
                            message.draft.blocks,
                        )
                        &&& message.ordinal == (match totals.maximum {
                            None => 0,
                            Some(last) => last + 1,
                        })
                        &&& compacted_through_ordinal < message.ordinal
                    }
                },
            }
            &&& next.updated_at_ms == timestamp
            &&& next.id == run.id
            &&& next.session_id == run.session_id
            &&& run.status is Running
            &&& next.status is Running
            &&& next.sql_permission_mode == run.sql_permission_mode
            &&& next.message_id == run.message_id
            &&& next.error_code == run.error_code
            &&& next.error_message == run.error_message
            &&& next.cancel_requested == run.cancel_requested
            &&& next.write_in_flight_tool_call_id == run.write_in_flight_tool_call_id
            &&& next.write_in_flight_arguments_sha256 == run.write_in_flight_arguments_sha256
            &&& next.created_at_ms == run.created_at_ms
            &&& next.started_at_ms == run.started_at_ms
            &&& next.finished_at_ms == run.finished_at_ms
        },
{
}

/// What ending a run leaves of it.
pub open spec fn same_run_ended(
    next: AgentRunRecord,
    run: AgentRunRecord,
    timestamp: i64,
) -> bool {
    &&& next.updated_at_ms == timestamp
    &&& next.finished_at_ms == Some(timestamp)
    &&& next.id == run.id
    &&& next.session_id == run.session_id
    &&& next.sql_permission_mode == run.sql_permission_mode
    &&& next.cancel_requested == run.cancel_requested
    &&& next.write_in_flight_tool_call_id is None
    &&& next.write_in_flight_arguments_sha256 == run.write_in_flight_arguments_sha256
    &&& next.compaction_count == run.compaction_count
    &&& next.compacted_through_ordinal == run.compacted_through_ordinal
    &&& next.created_at_ms == run.created_at_ms
    &&& next.started_at_ms == run.started_at_ms
}

/// The messages of a request are stored one behind the other at the end of the session, each under
/// its id, with its role and the blocks of its text.
pub open spec fn batch_stored(
    stored: Seq<StoredMessage>,
    messages: Seq<AgentRunMessage>,
    ids: Seq<String>,
    session_id: String,
    run_id: String,
    totals: SessionMessages,
    timestamp: i64,
) -> bool {
    &&& stored.len() == messages.len()
    &&& forall|i: int|
        0 <= i < messages.len() ==> {
            let message = #[trigger] stored[i];
            &&& message.owner.session_id == session_id
            &&& message.owner.run_id == Some(run_id)
            &&& message.created_at_ms == timestamp
            &&& message.ordinal == i + (match totals.maximum {
                None => 0,
                Some(last) => last + 1,
            })
            &&& message.draft.id == ids[i]
            &&& message.draft.role == messages[i].role
            &&& message.draft.role is Assistant || message.draft.role is Tool
            &&& message.draft.summary_through_ordinal is None
            &&& message_blocks(messages[i].content_json@) == Ok::<Seq<ContentView>, StorageError>(
                message.draft.blocks,
            )
            &&& role_admits(message.draft.role, message.draft.blocks)
        }
}

/// The blocks of a batch are those of its messages.
proof fn lemma_batch_blocks(messages: Seq<AgentRunMessage>)
    requires
        batch_blocks(messages) is Ok,
    ensures
        batch_blocks(messages)->Ok_0.len() == messages.len(),
        forall|i: int|
            0 <= i < messages.len() ==> message_blocks((#[trigger] messages[i]).content_json@) == Ok::<
                Seq<ContentView>,
                StorageError,
            >(batch_blocks(messages)->Ok_0[i]) && (messages[i].role is Assistant
                || messages[i].role is Tool),
    decreases messages.len(),
{
    if messages.len() > 0 {
        let earlier = messages.drop_last();
        lemma_batch_blocks(earlier);
        let blocks = batch_blocks(messages)->Ok_0;
        assert forall|i: int| 0 <= i < messages.len() implies message_blocks(
            (#[trigger] messages[i]).content_json@,
        ) == Ok::<Seq<ContentView>, StorageError>(blocks[i]) && (messages[i].role is Assistant
            || messages[i].role is Tool) by {
            if i < earlier.len() {
                assert(earlier[i] == messages[i]);
                assert(blocks[i] == batch_blocks(earlier)->Ok_0[i]);
            }
        }
    }
}

/// Drafts that are appended in a row follow each other.
proof fn lemma_appended_in_a_row(
    owner: MessageOwner,
    totals: SessionMessages,
    drafts: Seq<MessageDraft>,
    timestamp: i64,
)
    requires
        appended_all(owner, totals, drafts, timestamp) is Ok,
    ensures
        ({
            let stored = appended_all(owner, totals, drafts, timestamp)->Ok_0;
            &&& stored.len() == drafts.len()
            &&& grown_by(totals, stored).maximum == (if drafts.len() == 0 {
                totals.maximum
            } else {
                Some(stored.last().ordinal as i64)
            })
            &&& drafts.len() > 0 ==> stored.last().ordinal <= i64::MAX
            &&& forall|i: int|
                0 <= i < drafts.len() ==> {
                    let message = #[trigger] stored[i];
                    &&& message.owner == owner
                    &&& message.draft == drafts[i]
                    &&& message.created_at_ms == timestamp
                    &&& message.ordinal == i + (match totals.maximum {
                        None => 0,
                        Some(last) => last + 1,
                    })
                    &&& role_admits(message.draft.role, message.draft.blocks)
                    &&& message.draft.summary_through_ordinal is Some
                        == message.draft.role is Summary
                }
        }),
    decreases drafts.len(),
{
    if drafts.len() > 0 {
        let before = drafts.drop_last();
        lemma_appended_in_a_row(owner, totals, before, timestamp);
        let earlier = appended_all(owner, totals, before, timestamp)->Ok_0;
        let stored = appended_all(owner, totals, drafts, timestamp)->Ok_0;
        assert(stored.drop_last() =~= earlier);
        assert(stored =~= earlier.push(stored.last()));
        assert forall|i: int| 0 <= i < drafts.len() implies {
            let message = #[trigger] stored[i];
            &&& message.owner == owner
            &&& message.draft == drafts[i]
            &&& message.created_at_ms == timestamp
            &&& message.ordinal == i + (match totals.maximum {
                None => 0,
                Some(last) => last + 1,
            })
            &&& role_admits(message.draft.role, message.draft.blocks)
            &&& message.draft.summary_through_ordinal is Some == message.draft.role is Summary
        } by {
            if i < before.len() {
                assert(stored[i] == earlier[i]);
                assert(before[i] == drafts[i]);
            } else if before.len() > 0 {
                assert(earlier.last() == earlier[before.len() - 1]);
            }
        }
    }
}

/// The messages with which a run ends are stored as they were reported.
pub proof fn lemma_batch_stored(
    id: String,
    run: AgentRunRecord,
    totals: SessionMessages,
    messages: Seq<AgentRunMessage>,
    ids: Seq<String>,
    require_final_assistant: bool,
    timestamp: i64,
)
    requires
        run_batch_blocks(messages, require_final_assistant) is Ok,
        stored_batch(
            id,
            run,
            totals,
            messages,
            ids,
            run_batch_blocks(messages, require_final_assistant)->Ok_0,
            timestamp,
        ) is Ok,
    ensures
        batch_stored(
            stored_batch(
                id,
                run,
                totals,
                messages,
                ids,
                run_batch_blocks(messages, require_final_assistant)->Ok_0,
                timestamp,
            )->Ok_0,
            messages,
            ids,
            run.session_id,
            id,
            totals,
            timestamp,
        ),
{
    let blocks = run_batch_blocks(messages, require_final_assistant)->Ok_0;
    lemma_batch_blocks(messages);
    lemma_appended_in_a_row(
        MessageOwner { session_id: run.session_id, run_id: Some(id) },
        totals,
        crate::agent::message::batch_drafts(messages, ids, blocks),
        timestamp,
    );
    assert forall|i: int| 0 <= i < messages.len() implies message_blocks(
        (#[trigger] messages[i]).content_json@,
    ) == Ok::<Seq<ContentView>, StorageError>(blocks[i]) by {}
}

/// A completion records each counter that it reports, names its last message as the answer of the
/// run, carries no error, and stores the messages behind those of the session.
pub proof fn law_completion_records_what_is_reported(
    id: String,
    expected: AgentRunStatus,
    input: CompleteAgentRun,
    run: AgentRunRecord,
    initiating: InitiatingMessages,
    totals: SessionMessages,
    ids: Seq<String>,
    timestamp: i64,
)
    requires
        ids.len() == input.messages@.len(),
    ensures
        completed(
            id,
            expected,
            input,
            Some(run),
            initiating,
            totals,
            ids,
            timestamp,
        ) matches Ok((next, stored)) ==> {
            &&& next.last_sequence == input.last_sequence
            &&& next.model_rounds == input.model_rounds
            &&& next.tool_calls == input.tool_calls
            &&& next.input_tokens == input.input_tokens
            &&& next.output_tokens == input.output_tokens
            &&& next.total_tokens == input.total_tokens
            &&& next.compaction_count == input.compaction_count
            &&& next.compacted_through_ordinal == input.compacted_through_ordinal
            &&& next.status == AgentRunStatus::Completed
            &&& next.error_code is None
            &&& next.error_message is None
            &&& same_run_ended(next, run, timestamp)
            &&& input.messages@.len() > 0
            &&& next.message_id == Some(ids[ids.len() - 1])
            &&& stored.last().draft.role is Assistant
            &&& batch_stored(
                stored,
                input.messages@,
                ids,
                run.session_id,
                id,
                totals,
                timestamp,
            )
        },
{
    if completed(id, expected, input, Some(run), initiating, totals, ids, timestamp) is Ok {
        lemma_batch_stored(id, run, totals, input.messages@, ids, true, timestamp);
        let stored = completed(
            id,
            expected,
            input,
            Some(run),
            initiating,
            totals,
            ids,
            timestamp,
        )->Ok_0.1;
        assert(stored.last() == stored[input.messages@.len() - 1]);
    }
}

/// A failure records each counter and the error that it reports, names no answer, and stores the
/// messages behind those of the session.
pub proof fn law_failure_records_what_is_reported(
    id: String,
    expected: AgentRunStatus,
    input: FailAgentRun,
    run: AgentRunRecord,
    initiating: InitiatingMessages,
    totals: SessionMessages,
    ids: Seq<String>,
    timestamp: i64,
)
    requires
        ids.len() == input.messages@.len(),
    ensures
        failed(
            id,
            expected,
            input,
            Some(run),
            initiating,
            totals,
            ids,
            timestamp,
        ) matches Ok((next, stored)) ==> {
            &&& next.last_sequence == input.last_sequence
            &&& next.model_rounds == input.model_rounds
            &&& next.tool_calls == input.tool_calls
            &&& next.input_tokens == input.input_tokens
            &&& next.output_tokens == input.output_tokens
            &&& next.total_tokens == input.total_tokens
            &&& next.compaction_count == input.compaction_count
            &&& next.compacted_through_ordinal == input.compacted_through_ordinal
            &&& next.status == AgentRunStatus::Failed
            &&& next.error_code == Some(input.error_code)
            &&& next.error_message == input.error_message
            &&& next.message_id is None
            &&& same_run_ended(next, run, timestamp)
            &&& batch_stored(
                stored,
                input.messages@,
                ids,
                run.session_id,
                id,
                totals,
                timestamp,
            )
            &&& !blank(input.error_code@)
            &&& byte_len(input.error_code@) <= 128
            &&& input.error_message matches Some(text) ==> byte_len(text@) <= 4096
        },
{
    if failed(id, expected, input, Some(run), initiating, totals, ids, timestamp) is Ok {
        lemma_batch_stored(id, run, totals, input.messages@, ids, false, timestamp);
    }
}

/// A finished cancellation records each counter that it reports, carries no answer and no error,
/// and stores the messages behind those of the session.
pub proof fn law_cancellation_records_what_is_reported(
    id: String,
    expected: AgentRunStatus,
    input: CancelAgentRun,
    run: AgentRunRecord,
    initiating: InitiatingMessages,
    totals: SessionMessages,
    ids: Seq<String>,
    timestamp: i64,
)
    requires
        ids.len() == input.messages@.len(),
    ensures
        cancelled(
            id,
            expected,
            input,
            Some(run),
            initiating,
            totals,
            ids,
            timestamp,
        ) matches Ok((next, stored)) ==> {
            &&& run.cancel_requested
            &&& next.last_sequence == input.last_sequence
            &&& next.model_rounds == input.model_rounds
            &&& next.tool_calls == input.tool_calls
            &&& next.input_tokens == input.input_tokens
            &&& next.output_tokens == input.output_tokens
            &&& next.total_tokens == input.total_tokens
            &&& next.compaction_count == input.compaction_count
            &&& next.compacted_through_ordinal == input.compacted_through_ordinal
            &&& next.status == AgentRunStatus::Cancelled
            &&& next.error_code is None
            &&& next.error_message is None
            &&& next.message_id is None
            &&& same_run_ended(next, run, timestamp)
            &&& batch_stored(
                stored,
                input.messages@,
                ids,
                run.session_id,
                id,
                totals,
                timestamp,
            )
        },
{
    if cancelled(id, expected, input, Some(run), initiating, totals, ids, timestamp) is Ok {
        lemma_batch_stored(id, run, totals, input.messages@, ids, false, timestamp);
    }
}

/// The progress that ends a run is accepted exactly if every value fits the database, nothing falls
/// behind, the tokens add up and the compaction state is the recorded one.
pub open spec fn may_end_with(
    run: AgentRunRecord,
    last_sequence: u64,
    model_rounds: u64,
    tool_calls: u64,
    input_tokens: u64,
    output_tokens: u64,
    total_tokens: u64,
    compaction_count: u64,
    compacted_through_ordinal: Option<u64>,
    initiating: InitiatingMessages,
) -> bool {
    &&& run.last_sequence < last_sequence <= i64::MAX
    &&& run.model_rounds <= model_rounds <= i64::MAX
    &&& run.tool_calls <= tool_calls <= i64::MAX
    &&& run.input_tokens <= input_tokens <= i64::MAX
    &&& run.output_tokens <= output_tokens <= i64::MAX
    &&& run.total_tokens <= total_tokens <= i64::MAX
    &&& input_tokens + output_tokens <= total_tokens
    &&& compaction_count == run.compaction_count <= i64::MAX
    &&& compacted_through_ordinal == run.compacted_through_ordinal
    &&& (run.compaction_count == 0) == (run.compacted_through_ordinal is None)
    &&& run.compacted_through_ordinal matches Some(covered) ==> {
        &&& covered <= i64::MAX
        &&& initiating.count == 1
        &&& initiating.ordinal matches Some(start) && covered < start
    }
}

/// A run completes exactly if it is running, is not to be cancelled and has no write under way, its
/// progress is valid, the last message is the assistant's and all messages can be stored.
pub proof fn law_completion_is_accepted(
    id: String,
    expected: AgentRunStatus,
    input: CompleteAgentRun,
    run: AgentRunRecord,
    initiating: InitiatingMessages,
    totals: SessionMessages,
    ids: Seq<String>,
    timestamp: i64,
)
    ensures
        completed(
            id,
            expected,
            input,
            Some(run),
            initiating,
            totals,
            ids,
            timestamp,
        ) is Ok <==> {
            &&& expected == run.status
            &&& run.status is Running
            &&& !run.cancel_requested
            &&& run.write_in_flight_tool_call_id is None
            &&& may_end_with(
                run,
                input.last_sequence,
                input.model_rounds,
                input.tool_calls,
                input.input_tokens,
                input.output_tokens,
                input.total_tokens,
                input.compaction_count,
                input.compacted_through_ordinal,
                initiating,
            )
            &&& input.messages@.len() > 0
            &&& input.messages@.last().role is Assistant
            &&& batch_blocks(input.messages@) is Ok
            &&& stored_batch(
                id,
                run,
                totals,
                input.messages@,
                ids,
                batch_blocks(input.messages@)->Ok_0,
                timestamp,
            ) is Ok
        },
        completed(id, expected, input, None, initiating, totals, ids, timestamp) is Err,
{
}

/// A run fails exactly if it is live, is not to be cancelled and has no write under way, its
/// progress is valid, the error is safe to show and all messages can be stored.
pub proof fn law_failure_is_accepted(
    id: String,
    expected: AgentRunStatus,
    input: FailAgentRun,
    run: AgentRunRecord,
    initiating: InitiatingMessages,
    totals: SessionMessages,
    ids: Seq<String>,
    timestamp: i64,
)
    ensures
        failed(
            id,
            expected,
            input,
            Some(run),
            initiating,
            totals,
            ids,
            timestamp,
        ) is Ok <==> {
            &&& expected == run.status
            &&& run.status is Running || run.status is WaitingPermission
            &&& !run.cancel_requested
            &&& run.write_in_flight_tool_call_id is None
            &&& may_end_with(
                run,
                input.last_sequence,
                input.model_rounds,
                input.tool_calls,
                input.input_tokens,
                input.output_tokens,
                input.total_tokens,
                input.compaction_count,
                input.compacted_through_ordinal,
                initiating,
            )
            &&& !blank(input.error_code@)
            &&& byte_len(input.error_code@) <= 128
            &&& input.error_message matches Some(text) ==> byte_len(text@) <= 4096
            &&& batch_blocks(input.messages@) is Ok
            &&& stored_batch(
                id,
                run,
                totals,
                input.messages@,
                ids,
                batch_blocks(input.messages@)->Ok_0,
                timestamp,
            ) is Ok
        },
        failed(id, expected, input, None, initiating, totals, ids, timestamp) is Err,
{
}

/// A cancellation finishes exactly if it was requested of a live run without a write under way, its
/// progress is valid and all messages can be stored.
pub proof fn law_cancellation_is_accepted(
    id: String,
    expected: AgentRunStatus,
    input: CancelAgentRun,
    run: AgentRunRecord,
    initiating: InitiatingMessages,
    totals: SessionMessages,
    ids: Seq<String>,
    timestamp: i64,
)
    ensures
        cancelled(
            id,
            expected,
            input,
            Some(run),
            initiating,
            totals,
            ids,
            timestamp,
        ) is Ok <==> {
            &&& expected == run.status
            &&& run.status is Running || run.status is WaitingPermission
            &&& run.cancel_requested
            &&& run.write_in_flight_tool_call_id is None
            &&& may_end_with(
                run,
                input.last_sequence,
                input.model_rounds,
                input.tool_calls,
                input.input_tokens,
                input.output_tokens,
                input.total_tokens,
                input.compaction_count,
                input.compacted_through_ordinal,
                initiating,
            )
            &&& batch_blocks(input.messages@) is Ok
            &&& stored_batch(
                id,
                run,
                totals,
                input.messages@,
                ids,
                batch_blocks(input.messages@)->Ok_0,
                timestamp,
            ) is Ok
        },
        cancelled(id, expected, input, None, initiating, totals, ids, timestamp) is Err,
{
}

/// A compaction without a summary is accepted exactly if the run is running, is not to be cancelled
/// and has no write under way, it is the next event, its progress is valid, and what it covers lies
/// beyond the coverage of the session and before the message that started the run.
pub proof fn law_compaction_is_accepted(
    id: String,
    expected: AgentRunStatus,
    input: CompactAgentRun,
    run: AgentRunRecord,
    coverage: SessionCoverage,
    initiating: InitiatingMessages,
    totals: SessionMessages,
    summary_id: String,
    timestamp: i64,
)
    requires
        !(input.compaction is Summary),
    ensures
        compacted(
            id,
            expected,
            input,
            Some(run),
            coverage,
            initiating,
            totals,
            summary_id,
            timestamp,
        ) is Ok <==> {
            &&& expected is Running
            &&& run.status is Running
            &&& !run.cancel_requested
            &&& run.write_in_flight_tool_call_id is None
            &&& input.last_sequence == run.last_sequence + 1
            &&& input.last_sequence <= i64::MAX
            &&& run.model_rounds <= input.model_rounds <= i64::MAX
            &&& run.tool_calls <= input.tool_calls <= i64::MAX
            &&& run.input_tokens <= input.input_tokens <= i64::MAX
            &&& run.output_tokens <= input.output_tokens <= i64::MAX
            &&& run.total_tokens <= input.total_tokens <= i64::MAX
            &&& input.input_tokens + input.output_tokens <= input.total_tokens
            &&& match input.compaction {
                AgentCompaction::DeterministicTrim { compacted_through_ordinal } => {
                    &&& run.compaction_count < i64::MAX
                    &&& compacted_through_ordinal <= i64::MAX
                    &&& coverage.session_exists
                    &&& coverage.maximum matches Some(covered) ==> 0 <= covered
                        < compacted_through_ordinal
                    &&& run.compacted_through_ordinal matches Some(covered) ==> covered
                        <= compacted_through_ordinal
                    &&& initiating.count == 1
                    &&& initiating.ordinal matches Some(start) && compacted_through_ordinal < start
                },
                _ => {
                    &&& run.compaction_count <= i64::MAX
                    &&& run.compacted_through_ordinal matches Some(covered) ==> covered <= i64::MAX
                    &&& (run.compaction_count == 0) == (run.compacted_through_ordinal is None)
                },
            }
        },
{
}

/// A run starts in its session with nothing done yet, in the permission mode that was asked for,
/// with the text of its user as the next message.
pub proof fn law_started_run_is_fresh(
    session_id: String,
    input: StartAgentRun,
    session_active: bool,
    totals: SessionMessages,
    run_id: String,
    message_id: String,
    timestamp: i64,
)
    ensures
        started(
            session_id,
            input,
            session_active,
            totals,
            run_id,
            message_id,
            timestamp,
        ) matches Ok((run, message)) ==> {
            &&& totals.session_exists && !session_active
            &&& !blank(input.user_message@)
            &&& run.id == run_id
            &&& run.session_id == session_id
            &&& run.status is Running
            &&& run.sql_permission_mode == input.sql_permission_mode
            &&& run.last_sequence == 1
            &&& run.model_rounds == 0
            &&& run.tool_calls == 0
            &&& run.input_tokens == 0
            &&& run.output_tokens == 0
            &&& run.total_tokens == 0
            &&& run.message_id is None
            &&& run.error_code is None
            &&& run.error_message is None
            &&& !run.cancel_requested
            &&& run.write_in_flight_tool_call_id is None
            &&& run.write_in_flight_arguments_sha256 is None
            &&& run.compaction_count == 0
            &&& run.compacted_through_ordinal is None
            &&& run.created_at_ms == timestamp
            &&& run.updated_at_ms == timestamp
            &&& run.started_at_ms == Some(timestamp)
            &&& run.finished_at_ms is None
            &&& message.owner.session_id == session_id
            &&& message.owner.run_id == Some(run_id)
            &&& message.created_at_ms == timestamp
            &&& message.draft.id == message_id
            &&& message.draft.role is User
            &&& message.draft.summary_through_ordinal is None
            &&& message.draft.blocks == seq![ContentView::Text(input.user_message@)]
            &&& message.ordinal == (match totals.maximum {
                None => 0,
                Some(last) => last + 1,
            })
        },
        session_active ==> started(
            session_id,
            input,
            session_active,
            totals,
            run_id,
            message_id,
            timestamp,
        ) is Err,
{
}

/// A run starts exactly if its session exists and has no active run, its user says something, and
/// the message fits the session.
pub proof fn law_start_is_accepted(
    session_id: String,
    input: StartAgentRun,
    session_active: bool,
    totals: SessionMessages,
    run_id: String,
    message_id: String,
    timestamp: i64,
)
    ensures
        ({
            let bytes = byte_len(canonical(seq![ContentView::Text(input.user_message@)]));
            started(
                session_id,
                input,
                session_active,
                totals,
                run_id,
                message_id,
                timestamp,
            ) is Ok <==> {
                &&& totals.session_exists
                &&& !session_active
                &&& !blank(input.user_message@)
                &&& 0 < bytes <= 262_144
                &&& 0 <= totals.count < 4096
                &&& 0 <= totals.bytes
                &&& totals.bytes + bytes <= 33_554_432
                &&& totals.maximum matches Some(last) ==> 0 <= last < i64::MAX
            }
        }),
{
    let text = input.user_message@;
    let blocks = seq![ContentView::Text(text)];
    assert(blocks[0] == ContentView::Text(text));
    if text.len() == 0 {
        assert(blank(text));
    }
}

/// A message is appended exactly if its session exists and owns its run, coverage comes with a
/// summary and lies before it, the role admits the blocks, and the session has room: fewer than 4096
/// messages, and no more than 32 MiB with this one.
pub proof fn law_message_is_accepted(
    owner: MessageOwner,
    totals: SessionMessages,
    draft: MessageDraft,
    timestamp: i64,
)
    requires
        byte_len(canonical(draft.blocks)) <= 262_144,
    ensures
        appended(owner, totals, draft, timestamp) is Ok <==> {
            &&& totals.session_exists
            &&& owner.run_id is None || totals.run_owned
            &&& (draft.role is Summary) == (draft.summary_through_ordinal is Some)
            &&& role_admits(draft.role, draft.blocks)
            &&& 0 <= totals.count < 4096
            &&& 0 <= totals.bytes
            &&& totals.bytes + byte_len(canonical(draft.blocks)) <= 33_554_432
            &&& totals.maximum matches Some(last) ==> 0 <= last < i64::MAX
            &&& draft.summary_through_ordinal matches Some(covered) ==> (
            totals.maximum matches Some(last) && covered <= last)
        },
        appended(owner, totals, draft, timestamp) matches Ok(message) ==> {
            &&& message.owner == owner
            &&& message.draft == draft
            &&& message.created_at_ms == timestamp
            &&& message.ordinal == (match totals.maximum {
                None => 0,
                Some(last) => last + 1,
            })
        },
{
}

/// A request to cancel marks a live run and changes nothing else of it; an ended run stays as it is.
pub proof fn law_cancel_request_marks_live_runs(run: AgentRunRecord, timestamp: i64)
    ensures
        ({
            let next = cancel_requested(run, timestamp);
            let live = run.status is Running || run.status is WaitingPermission;
            &&& !live ==> next == run
            &&& live ==> next.cancel_requested && next.updated_at_ms == timestamp
            &&& AgentRunRecord {
                cancel_requested: run.cancel_requested,
                updated_at_ms: run.updated_at_ms,
                ..next
            } == run
        }),
{
}

/// A compaction with a summary is accepted exactly if one without, and of the same coverage, would
/// be, the summary is a message that a summary may be, and that message can be stored.
pub proof fn law_summary_is_accepted(
    id: String,
    expected: AgentRunStatus,
    input: CompactAgentRun,
    through: u64,
    content_json: String,
    run: AgentRunRecord,
    coverage: SessionCoverage,
    initiating: InitiatingMessages,
    totals: SessionMessages,
    summary_id: String,
    timestamp: i64,
)
    requires
        input.compaction == (AgentCompaction::Summary {
            compacted_through_ordinal: through,
            content_json,
        }),
    ensures
        compacted(
            id,
            expected,
            input,
            Some(run),
            coverage,
            initiating,
            totals,
            summary_id,
            timestamp,
        ) is Ok <==> {
            &&& compacted(
                id,
                expected,
                CompactAgentRun {
                    compaction: AgentCompaction::DeterministicTrim {
                        compacted_through_ordinal: through,
                    },
                    ..input
                },
                Some(run),
                coverage,
                initiating,
                totals,
                summary_id,
                timestamp,
            ) is Ok
            &&& message_blocks(content_json@) matches Ok(blocks) && appended(
                MessageOwner { session_id: run.session_id, run_id: Some(id) },
                totals,
                MessageDraft {
                    id: summary_id,
                    role: AgentMessageRole::Summary,
                    summary_through_ordinal: Some(through),
                    blocks,
                },
                timestamp,
            ) is Ok
        },
{
}

/// How far a session is compacted is the largest ordinal that a run or a message of that session
/// tells of.
pub proof fn law_coverage_is_the_largest_of_the_session(
    rows: Seq<CoverageRow>,
    session_id: String,
    maximum: Option<i64>,
)
    requires
        largest_coverage(rows, session_id, maximum),
    ensures
        forall|i: int|
            0 <= i < rows.len() && (#[trigger] rows[i]).session_id@ == session_id@ ==> (
            rows[i].ordinal matches Some(ordinal) ==> (maximum matches Some(largest) && ordinal
                <= largest)),
        maximum matches Some(largest) ==> exists|i: int|
            0 <= i < rows.len() && (#[trigger] rows[i]).session_id@ == session_id@
                && rows[i].ordinal == Some(largest),
{
    assert forall|i: int|
        0 <= i < rows.len() && (#[trigger] rows[i]).session_id@ == session_id@ implies (
    rows[i].ordinal matches Some(ordinal) ==> (maximum matches Some(largest) && ordinal
        <= largest)) by {
        if let Some(ordinal) = rows[i].ordinal {
            assert(tells_of(rows, session_id, ordinal));
        }
    }
    if let Some(largest) = maximum {
        assert(tells_of(rows, session_id, largest));
    }
}

} // verus!
