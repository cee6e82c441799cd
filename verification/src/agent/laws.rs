use vstd::prelude::*;

use crate::agent::commit::{compaction_settled, same_run, CompactionReadback};
use crate::agent::content::role_admits;
use crate::agent::message::{
    appended, appended_all, coverage_belongs, draft_bytes, grown, grown_by, MessageDraft,
    MessageOwner, SessionMessages, StoredMessage, MAX_AGENT_MESSAGES_PER_SESSION,
    MAX_AGENT_MESSAGE_BYTES_PER_SESSION,
};
use crate::agent::model::{
    AgentCompaction, AgentMessageRecord, AgentRunRecord, AgentRunUpdate, CancelAgentRun,
    CompactAgentRun, CompleteAgentRun, FailAgentRun, RequestToolPermission, ToolPermissionRecord,
    UnknownAgentWrite,
};
use crate::agent::permission::{
    permission_consumed, permission_created, permission_decided, revoked_all, PermissionOutcome,
};
use crate::agent::progress::{
    advance_check, advances, boundary_check, covers, progress_check, recorded_progress,
    InitiatingMessages,
};
use crate::agent::recovery::{interrupted_as, live_runs};
use crate::agent::run::{
    asked_coverage, cancel_requested, cancelled, compacted, completed, failed, largest_coverage,
    session_coverage, tells_of, updated, write_in_flight, CoverageRow, SessionCoverage,
};
use crate::agent::status::{AgentRunStatus, ToolPermissionDecision};
use crate::agent::write::{fenced_by, fenced_run, outcome_unknown, settled};
use crate::error::StorageError;

verus! {

/// Bytes that messages take together.
pub open spec fn total_bytes(messages: Seq<StoredMessage>) -> int
    decreases messages.len(),
{
    if messages.len() == 0 {
        0
    } else {
        total_bytes(messages.drop_last()) + draft_bytes(messages.last().draft)
    }
}

/// What the store answers about a session that holds these messages.
pub open spec fn totals_of(messages: Seq<StoredMessage>, run_owned: bool) -> SessionMessages {
    SessionMessages {
        session_exists: true,
        run_owned,
        count: messages.len() as i64,
        bytes: total_bytes(messages) as i64,
        maximum: if messages.len() == 0 {
            None
        } else {
            Some(messages.last().ordinal as i64)
        },
    }
}

/// The history of a session: ordinals count up from zero, both quotas hold, each message has the
/// blocks that its role admits, and each summary covers only what precedes it.
pub open spec fn is_history(messages: Seq<StoredMessage>) -> bool {
    &&& messages.len() <= MAX_AGENT_MESSAGES_PER_SESSION
    &&& total_bytes(messages) <= MAX_AGENT_MESSAGE_BYTES_PER_SESSION
    &&& forall|i: int|
        0 <= i < messages.len() ==> {
            let message = #[trigger] messages[i];
            &&& message.ordinal == i
            &&& role_admits(message.draft.role, message.draft.blocks)
            &&& coverage_belongs(message.draft.role, message.draft.summary_through_ordinal)
            &&& message.draft.summary_through_ordinal matches Some(coverage) ==> coverage < i
        }
}

/// Messages never take a negative number of bytes.
proof fn lemma_total_bytes(messages: Seq<StoredMessage>)
    ensures
        total_bytes(messages) >= 0,
    decreases messages.len(),
{
    if messages.len() > 0 {
        lemma_total_bytes(messages.drop_last());
    }
}

/// Appending keeps a history a history, puts the message at its end, and leaves the store with
/// exactly the totals that the next append is decided by.
pub proof fn law_append_keeps_history(
    messages: Seq<StoredMessage>,
    owner: MessageOwner,
    run_owned: bool,
    draft: MessageDraft,
    timestamp: i64,
)
    requires
        is_history(messages),
        appended(owner, totals_of(messages, run_owned), draft, timestamp) is Ok,
    ensures
        ({
            let message = appended(owner, totals_of(messages, run_owned), draft, timestamp)->Ok_0;
            &&& message.ordinal == messages.len()
            &&& is_history(messages.push(message))
            &&& totals_of(messages.push(message), run_owned) == grown(
                totals_of(messages, run_owned),
                message,
            )
        }),
{
    let message = appended(owner, totals_of(messages, run_owned), draft, timestamp)->Ok_0;
    lemma_total_bytes(messages);
    assert(messages.push(message).drop_last() =~= messages);
    if messages.len() > 0 {
        assert(messages.last().ordinal == messages.len() - 1);
    }
}

/// The messages of a run are stored together, in order, at the end of a history that stays one.
pub proof fn law_batch_keeps_history(
    messages: Seq<StoredMessage>,
    owner: MessageOwner,
    run_owned: bool,
    drafts: Seq<MessageDraft>,
    timestamp: i64,
)
    requires
        is_history(messages),
        appended_all(owner, totals_of(messages, run_owned), drafts, timestamp) is Ok,
    ensures
        ({
            let stored = appended_all(
                owner,
                totals_of(messages, run_owned),
                drafts,
                timestamp,
            )->Ok_0;
            &&& stored.len() == drafts.len()
            &&& is_history(messages + stored)
            &&& totals_of(messages + stored, run_owned) == grown_by(
                totals_of(messages, run_owned),
                stored,
            )
        }),
    decreases drafts.len(),
{
    let stored = appended_all(owner, totals_of(messages, run_owned), drafts, timestamp)->Ok_0;
    if drafts.len() == 0 {
        assert(messages + stored =~= messages);
    } else {
        law_batch_keeps_history(messages, owner, run_owned, drafts.drop_last(), timestamp);
        let earlier = appended_all(
            owner,
            totals_of(messages, run_owned),
            drafts.drop_last(),
            timestamp,
        )->Ok_0;
        law_append_keeps_history(messages + earlier, owner, run_owned, drafts.last(), timestamp);
        assert(messages + stored =~= (messages + earlier).push(stored.last()));
        assert(stored.drop_last() =~= earlier);
    }
}

/// A full session refuses every further message.
pub proof fn law_full_session_refuses(
    messages: Seq<StoredMessage>,
    owner: MessageOwner,
    run_owned: bool,
    draft: MessageDraft,
    timestamp: i64,
)
    requires
        is_history(messages),
        messages.len() == MAX_AGENT_MESSAGES_PER_SESSION || total_bytes(messages) + draft_bytes(
            draft,
        ) > MAX_AGENT_MESSAGE_BYTES_PER_SESSION,
    ensures
        appended(owner, totals_of(messages, run_owned), draft, timestamp) is Err,
{
    lemma_total_bytes(messages);
}

/// A compaction is the next event of its run. It leaves the state, the fence and the cancellation
/// of the run alone; effective coverage advances the whole session, is counted once, and comes
/// with a summary exactly if one was brought, which is then stored behind what it covers.
pub proof fn law_compaction_advances(
    id: String,
    expected: AgentRunStatus,
    input: CompactAgentRun,
    run: AgentRunRecord,
    coverage: SessionCoverage,
    initiating: InitiatingMessages,
    totals: SessionMessages,
    summary_id: String,
    timestamp: i64,
)
    requires
        compacted(
            id,
            expected,
            input,
            Some(run),
            coverage,
            initiating,
            totals,
            summary_id,
            timestamp,
        ) is Ok,
    ensures
        ({
            let (next, summary) = compacted(
                id,
                expected,
                input,
                Some(run),
                coverage,
                initiating,
                totals,
                summary_id,
                timestamp,
            )->Ok_0;
            &&& run.status is Running && next.status is Running
            &&& !next.cancel_requested && !write_in_flight(next)
            &&& next.last_sequence == run.last_sequence + 1
            &&& advances(recorded_progress(run), recorded_progress(next))
            &&& match asked_coverage(input.compaction) {
                None => next.compaction_count == run.compaction_count
                    && next.compacted_through_ordinal == run.compacted_through_ordinal
                    && summary is None,
                Some(target) => {
                    &&& next.compaction_count == run.compaction_count + 1
                    &&& next.compacted_through_ordinal == Some(target)
                    &&& session_coverage(run.session_id, coverage) matches Ok(covered) && (
                    covered matches Some(ordinal) ==> target > ordinal)
                    &&& initiating.ordinal matches Some(start) && target < start
                    &&& (summary is Some) == (input.compaction is Summary)
                    &&& summary matches Some(message) ==> target < message.ordinal
                },
            }
        }),
{
}

/// The coverage of a session is the largest one that its runs and messages tell of, nothing if they
/// tell of none, and a failure if there is no such session.
pub proof fn law_session_coverage_is_the_largest(
    session_id: String,
    rows: Seq<CoverageRow>,
    coverage: SessionCoverage,
)
    requires
        largest_coverage(rows, session_id, coverage.maximum),
        forall|ordinal: i64| tells_of(rows, session_id, ordinal) ==> ordinal >= 0,
    ensures
        match session_coverage(session_id, coverage) {
            Err(error) => !coverage.session_exists && error == StorageError::AgentSessionNotFound(
                session_id,
            ),
            Ok(None) => coverage.session_exists && forall|ordinal: i64|
                !tells_of(rows, session_id, ordinal),
            Ok(Some(covered)) => coverage.session_exists && covered <= i64::MAX && tells_of(
                rows,
                session_id,
                covered as i64,
            ) && forall|ordinal: i64| tells_of(rows, session_id, ordinal) ==> ordinal <= covered,
        },
{
}

/// What the store holds of a run and of the messages of its session after a compaction: both
/// records of one that succeeds, and what it held before of one that is refused.
pub open spec fn after_compaction(
    run: AgentRunRecord,
    messages: Seq<StoredMessage>,
    outcome: Result<(AgentRunRecord, Option<StoredMessage>), StorageError>,
) -> (AgentRunRecord, Seq<StoredMessage>) {
    match outcome {
        Err(_) => (run, messages),
        Ok((next, None)) => (next, messages),
        Ok((next, Some(summary))) => (next, messages.push(summary)),
    }
}

/// A compaction without a summary that is the next event of a running run: it reports valid
/// progress, and what it covers lies beyond the coverage of the session and before the message that
/// started the run.
pub open spec fn next_trim(
    run: AgentRunRecord,
    input: CompactAgentRun,
    coverage: SessionCoverage,
    initiating: InitiatingMessages,
) -> bool {
    let recorded = recorded_progress(run);
    &&& run.status is Running
    &&& !run.cancel_requested
    &&& !write_in_flight(run)
    &&& progress_check(recorded) is Ok
    &&& input.last_sequence == run.last_sequence + 1
    &&& match input.compaction {
        AgentCompaction::NoOp => advance_check(
            recorded,
            input.reported((run.compaction_count, run.compacted_through_ordinal)),
        ) is Ok,
        AgentCompaction::DeterministicTrim { compacted_through_ordinal } => {
            &&& run.compaction_count < i64::MAX
            &&& progress_check(
                input.reported(((run.compaction_count + 1) as u64, Some(compacted_through_ordinal))),
            ) is Ok
            &&& advances(
                recorded,
                input.reported((run.compaction_count, run.compacted_through_ordinal)),
            )
            &&& session_coverage(run.session_id, coverage) matches Ok(covered) && covers(
                run.compacted_through_ordinal,
                covered,
            ) && (covered matches Some(ordinal) ==> ordinal < compacted_through_ordinal)
            &&& boundary_check(initiating, Some(compacted_through_ordinal)) is Ok
        },
        AgentCompaction::Summary { .. } => false,
    }
}

/// A refused compaction leaves the run and its messages as they were, so that its sequence can be
/// used again: a valid compaction without a summary that takes the same place then succeeds.
pub proof fn law_refused_compaction_can_be_retried(
    id: String,
    expected: AgentRunStatus,
    refused: CompactAgentRun,
    retry: CompactAgentRun,
    run: AgentRunRecord,
    messages: Seq<StoredMessage>,
    coverage: SessionCoverage,
    initiating: InitiatingMessages,
    summary_id: String,
    timestamp: i64,
    retry_id: String,
    later: i64,
)
    requires
        compacted(
            id,
            expected,
            refused,
            Some(run),
            coverage,
            initiating,
            totals_of(messages, true),
            summary_id,
            timestamp,
        ) is Err,
        next_trim(run, retry, coverage, initiating),
    ensures
        ({
            let outcome = compacted(
                id,
                expected,
                refused,
                Some(run),
                coverage,
                initiating,
                totals_of(messages, true),
                summary_id,
                timestamp,
            );
            let (kept, history) = after_compaction(run, messages, outcome);
            &&& kept == run
            &&& history == messages
            &&& compacted(
                id,
                AgentRunStatus::Running,
                retry,
                Some(kept),
                coverage,
                initiating,
                totals_of(history, true),
                retry_id,
                later,
            ) is Ok
        }),
{
}

/// A compaction whose commit failed without effect has left the run as it was and stored no summary,
/// so that its sequence can be used again.
pub proof fn law_failed_compaction_commit_can_be_retried(
    id: String,
    prior: AgentRunRecord,
    expected: AgentRunRecord,
    expected_summary: Option<AgentMessageRecord>,
    readback: CompactionReadback,
    retry: CompactAgentRun,
    coverage: SessionCoverage,
    initiating: InitiatingMessages,
    totals: SessionMessages,
    retry_id: String,
    later: i64,
)
    requires
        compaction_settled(
            id,
            prior,
            expected,
            expected_summary,
            Some(readback),
        ) is NotApplied,
        next_trim(prior, retry, coverage, initiating),
    ensures
        readback.run matches Some(stored) && same_run(stored, prior),
        expected_summary is Some ==> readback.summary is None,
        compacted(
            id,
            AgentRunStatus::Running,
            retry,
            readback.run,
            coverage,
            initiating,
            totals,
            retry_id,
            later,
        ) is Ok,
{
}

/// An ended run is final: no operation progresses it, compacts it, ends it again, asks for or
/// uses a permission for it, or touches a fence it still carries; a request to cancel it changes
/// nothing.
pub proof fn law_ended_run_is_final(
    id: String,
    run: AgentRunRecord,
    expected: AgentRunStatus,
    update: AgentRunUpdate,
    compaction: CompactAgentRun,
    completion: CompleteAgentRun,
    failure: FailAgentRun,
    cancellation: CancelAgentRun,
    write: UnknownAgentWrite,
    tool_call_id: String,
    arguments_sha256: [u8; 32],
    coverage: SessionCoverage,
    initiating: InitiatingMessages,
    totals: SessionMessages,
    ids: Seq<String>,
    fresh_id: String,
    timestamp: i64,
)
    requires
        run.status.terminal(),
    ensures
        updated(id, expected, update, Some(run), initiating, timestamp) is Err,
        compacted(
            id,
            expected,
            compaction,
            Some(run),
            coverage,
            initiating,
            totals,
            fresh_id,
            timestamp,
        ) is Err,
        completed(id, expected, completion, Some(run), initiating, totals, ids, timestamp) is Err,
        failed(id, expected, failure, Some(run), initiating, totals, ids, timestamp) is Err,
        cancelled(id, expected, cancellation, Some(run), initiating, totals, ids, timestamp) is Err,
        outcome_unknown(
            id,
            tool_call_id,
            arguments_sha256,
            write,
            Some(run),
            initiating,
            totals,
            ids,
            timestamp,
        ) is Err,
        fenced_run(id, tool_call_id, arguments_sha256, Some(run)) is Err,
        cancel_requested(run, timestamp) == run,
{
}

/// An ended run neither asks for a permission nor decides or uses one.
pub proof fn law_ended_run_gets_no_permission(
    run_id: String,
    run: AgentRunRecord,
    request: RequestToolPermission,
    permission_id: String,
    expected_revision: u64,
    tool_call_id: String,
    arguments_sha256: [u8; 32],
    last_sequence: u64,
    decision: ToolPermissionDecision,
    permission: Option<ToolPermissionRecord>,
    timestamp: i64,
    expires_at_ms: i64,
)
    requires
        run.status.terminal(),
    ensures
        permission_created(run_id, request, Some(run), permission_id, timestamp, expires_at_ms)
            is Err,
        permission_decided(
            permission_id,
            expected_revision,
            run_id,
            tool_call_id,
            arguments_sha256,
            last_sequence,
            decision,
            permission,
            Some(run),
            timestamp,
        ) is Err,
        !(permission_consumed(
            permission_id,
            expected_revision,
            run_id,
            tool_call_id,
            arguments_sha256,
            last_sequence,
            permission,
            Some(run),
            timestamp,
        ) matches Ok(PermissionOutcome::Done(_))),
{
}

/// A permission is used only if it is approved, not expired, bound to exactly that call of that
/// run with exactly those arguments, and its run waits for it and may write. Its use raises the
/// fence of that one write, consumes the permission and advances both records.
pub proof fn law_permission_use(
    id: String,
    expected_revision: u64,
    run_id: String,
    tool_call_id: String,
    arguments_sha256: [u8; 32],
    last_sequence: u64,
    permission: ToolPermissionRecord,
    run: AgentRunRecord,
    timestamp: i64,
)
    requires
        permission_consumed(
            id,
            expected_revision,
            run_id,
            tool_call_id,
            arguments_sha256,
            last_sequence,
            Some(permission),
            Some(run),
            timestamp,
        ) matches Ok(PermissionOutcome::Done(_)),
    ensures
        permission.status is Approved,
        permission.expires_at_ms > timestamp,
        permission.run_id@ == run_id@,
        permission.tool_call_id@ == tool_call_id@,
        permission.arguments_sha256@ == arguments_sha256@,
        run.status is WaitingPermission,
        run.sql_permission_mode is AskBeforeWrite,
        !run.cancel_requested,
        ({
            let step = permission_consumed(
                id,
                expected_revision,
                run_id,
                tool_call_id,
                arguments_sha256,
                last_sequence,
                Some(permission),
                Some(run),
                timestamp,
            )->Ok_0->Done_0;
            &&& step.permission.status is Consumed
            &&& step.permission.revision == permission.revision + 1
            &&& step.permission.consumed_at_ms == Some(timestamp)
            &&& step.run matches Some(next) && fenced_by(next, tool_call_id@, arguments_sha256@)
                && next.last_sequence > run.last_sequence
        }),
{
}

/// A permission that was consumed, denied, revoked or has expired can never be used, decided or
/// withdrawn again, whatever is asked of it.
pub proof fn law_spent_permission_stays_spent(
    id: String,
    expected_revision: u64,
    run_id: String,
    tool_call_id: String,
    arguments_sha256: [u8; 32],
    last_sequence: u64,
    decision: ToolPermissionDecision,
    permission: ToolPermissionRecord,
    run: Option<AgentRunRecord>,
    timestamp: i64,
)
    requires
        !permission.status.active(),
    ensures
        permission_consumed(
            id,
            expected_revision,
            run_id,
            tool_call_id,
            arguments_sha256,
            last_sequence,
            Some(permission),
            run,
            timestamp,
        ) is Err,
        permission_decided(
            id,
            expected_revision,
            run_id,
            tool_call_id,
            arguments_sha256,
            last_sequence,
            decision,
            Some(permission),
            run,
            timestamp,
        ) is Err,
        revoked_all(seq![permission], timestamp) == Seq::<ToolPermissionRecord>::empty(),
{
    reveal_with_fuel(revoked_all, 2);
    assert(seq![permission].drop_last() =~= Seq::empty());
    assert(seq![permission].last() == permission);
}

/// A permission can be decided once: after a decision the revision its caller saw is stale, and
/// at the new revision it is no longer pending.
pub proof fn law_permission_is_decided_once(
    id: String,
    expected_revision: u64,
    run_id: String,
    tool_call_id: String,
    arguments_sha256: [u8; 32],
    last_sequence: u64,
    decision: ToolPermissionDecision,
    permission: Option<ToolPermissionRecord>,
    run: Option<AgentRunRecord>,
    timestamp: i64,
    other_revision: u64,
    other_sequence: u64,
    other_decision: ToolPermissionDecision,
    other_run: Option<AgentRunRecord>,
    other_timestamp: i64,
)
    requires
        permission_decided(
            id,
            expected_revision,
            run_id,
            tool_call_id,
            arguments_sha256,
            last_sequence,
            decision,
            permission,
            run,
            timestamp,
        ) matches Ok(PermissionOutcome::Done(_)),
    ensures
        ({
            let step = permission_decided(
                id,
                expected_revision,
                run_id,
                tool_call_id,
                arguments_sha256,
                last_sequence,
                decision,
                permission,
                run,
                timestamp,
            )->Ok_0->Done_0;
            &&& step.permission.revision == expected_revision + 1
            &&& permission_decided(
                id,
                other_revision,
                run_id,
                tool_call_id,
                arguments_sha256,
                other_sequence,
                other_decision,
                Some(step.permission),
                other_run,
                other_timestamp,
            ) is Err
        }),
{
}

/// While the fence of a write is up, the run reports no progress, compacts nothing, asks for no
/// permission and ends in no other way than by the outcome of that write.
pub proof fn law_fence_blocks_everything_else(
    id: String,
    run: AgentRunRecord,
    expected: AgentRunStatus,
    update: AgentRunUpdate,
    compaction: CompactAgentRun,
    completion: CompleteAgentRun,
    failure: FailAgentRun,
    cancellation: CancelAgentRun,
    request: RequestToolPermission,
    coverage: SessionCoverage,
    initiating: InitiatingMessages,
    totals: SessionMessages,
    ids: Seq<String>,
    fresh_id: String,
    timestamp: i64,
    expires_at_ms: i64,
)
    requires
        write_in_flight(run),
    ensures
        updated(id, expected, update, Some(run), initiating, timestamp) is Err,
        compacted(
            id,
            expected,
            compaction,
            Some(run),
            coverage,
            initiating,
            totals,
            fresh_id,
            timestamp,
        ) is Err,
        completed(id, expected, completion, Some(run), initiating, totals, ids, timestamp) is Err,
        failed(id, expected, failure, Some(run), initiating, totals, ids, timestamp) is Err,
        cancelled(id, expected, cancellation, Some(run), initiating, totals, ids, timestamp) is Err,
        permission_created(id, request, Some(run), fresh_id, timestamp, expires_at_ms) is Err,
        write_in_flight(cancel_requested(run, timestamp)),
{
}

/// Only the call that raised a fence lowers it, and it lowers it for good.
pub proof fn law_fence_is_settled_by_its_call(
    run_id: String,
    run: AgentRunRecord,
    tool_call_id: String,
    arguments_sha256: [u8; 32],
    timestamp: i64,
    other_call: String,
    other_arguments: [u8; 32],
)
    requires
        fenced_by(run, tool_call_id@, arguments_sha256@),
    ensures
        fenced_run(run_id, tool_call_id, arguments_sha256, Some(run)) == Ok::<
            AgentRunRecord,
            StorageError,
        >(run),
        (other_call@ != tool_call_id@ || other_arguments@ != arguments_sha256@) ==> fenced_run(
            run_id,
            other_call,
            other_arguments,
            Some(run),
        ) is Err,
        !write_in_flight(settled(run, timestamp)),
        fenced_run(run_id, tool_call_id, arguments_sha256, Some(settled(run, timestamp))) is Err,
{
}

/// A write whose outcome is unknown ends its run and leaves the fence up.
pub proof fn law_unknown_write_keeps_its_fence(
    run_id: String,
    tool_call_id: String,
    arguments_sha256: [u8; 32],
    input: UnknownAgentWrite,
    run: AgentRunRecord,
    initiating: InitiatingMessages,
    totals: SessionMessages,
    ids: Seq<String>,
    timestamp: i64,
)
    requires
        outcome_unknown(
            run_id,
            tool_call_id,
            arguments_sha256,
            input,
            Some(run),
            initiating,
            totals,
            ids,
            timestamp,
        ) is Ok,
    ensures
        ({
            let ended = outcome_unknown(
                run_id,
                tool_call_id,
                arguments_sha256,
                input,
                Some(run),
                initiating,
                totals,
                ids,
                timestamp,
            )->Ok_0.0;
            &&& ended.status is Failed
            &&& ended.write_in_flight_tool_call_id == run.write_in_flight_tool_call_id
            &&& ended.write_in_flight_arguments_sha256 == run.write_in_flight_arguments_sha256
            &&& write_in_flight(ended)
        }),
{
}

/// A run that waits for a permission asks for no second one.
pub proof fn law_one_permission_at_a_time(
    run_id: String,
    request: RequestToolPermission,
    run: Option<AgentRunRecord>,
    id: String,
    timestamp: i64,
    expires_at_ms: i64,
    second: RequestToolPermission,
    second_id: String,
    second_timestamp: i64,
    second_expiry: i64,
)
    requires
        permission_created(run_id, request, run, id, timestamp, expires_at_ms) is Ok,
    ensures
        ({
            let step = permission_created(
                run_id,
                request,
                run,
                id,
                timestamp,
                expires_at_ms,
            )->Ok_0;
            &&& step.permission.status is Pending
            &&& step.permission.revision == 1
            &&& step.run matches Some(next) && next.status is WaitingPermission
            &&& permission_created(
                run_id,
                second,
                step.run,
                second_id,
                second_timestamp,
                second_expiry,
            ) is Err
        }),
{
}

/// Once cancellation is requested the run makes no progress, gets and uses no permission and can
/// only finish as cancelled.
pub proof fn law_cancellation_stops_the_run(
    id: String,
    run: AgentRunRecord,
    requested_at: i64,
    expected: AgentRunStatus,
    update: AgentRunUpdate,
    compaction: CompactAgentRun,
    completion: CompleteAgentRun,
    failure: FailAgentRun,
    request: RequestToolPermission,
    coverage: SessionCoverage,
    initiating: InitiatingMessages,
    totals: SessionMessages,
    ids: Seq<String>,
    fresh_id: String,
    timestamp: i64,
    expires_at_ms: i64,
)
    requires
        !run.status.terminal(),
    ensures
        ({
            let stopped = cancel_requested(run, requested_at);
            &&& stopped.cancel_requested && stopped.status == run.status
            &&& updated(id, expected, update, Some(stopped), initiating, timestamp) is Err
            &&& compacted(
                id,
                expected,
                compaction,
                Some(stopped),
                coverage,
                initiating,
                totals,
                fresh_id,
                timestamp,
            ) is Err
            &&& completed(
                id,
                expected,
                completion,
                Some(stopped),
                initiating,
                totals,
                ids,
                timestamp,
            ) is Err
            &&& failed(
                id,
                expected,
                failure,
                Some(stopped),
                initiating,
                totals,
                ids,
                timestamp,
            ) is Err
            &&& permission_created(
                id,
                request,
                Some(stopped),
                fresh_id,
                timestamp,
                expires_at_ms,
            ) is Err
        }),
{
}

/// Withdrawing the permissions of a run leaves none of them active.
pub proof fn law_revocation_is_complete(
    permissions: Seq<ToolPermissionRecord>,
    timestamp: i64,
    later: i64,
)
    ensures
        forall|i: int|
            0 <= i < revoked_all(permissions, timestamp).len() ==> (#[trigger] revoked_all(
                permissions,
                timestamp,
            )[i]).status is Revoked,
        revoked_all(revoked_all(permissions, timestamp), later) == Seq::<
            ToolPermissionRecord,
        >::empty(),
    decreases permissions.len(),
{
    let changed = revoked_all(permissions, timestamp);
    if permissions.len() > 0 {
        law_revocation_is_complete(permissions.drop_last(), timestamp, later);
        let earlier = revoked_all(permissions.drop_last(), timestamp);
        if permissions.last().status.active() {
            assert(changed.drop_last() =~= earlier);
        }
    }
}

/// After a restart no run is live any more, so a second restart finds nothing to end.
pub proof fn law_recovery_is_idempotent(
    runs: Seq<AgentRunRecord>,
    ended: Seq<AgentRunRecord>,
    timestamp: i64,
)
    requires
        ended.len() == live_runs(runs).len(),
        forall|i: int|
            0 <= i < ended.len() ==> interrupted_as(
                #[trigger] ended[i],
                live_runs(runs)[i],
                timestamp,
            ),
    ensures
        live_runs(ended) == Seq::<AgentRunRecord>::empty(),
        forall|i: int|
            0 <= i < ended.len() ==> (#[trigger] ended[i]).status is Failed
                && ended[i].write_in_flight_tool_call_id == live_runs(
                runs,
            )[i].write_in_flight_tool_call_id,
{
    lemma_ended_runs_are_not_live(ended);
}

proof fn lemma_ended_runs_are_not_live(runs: Seq<AgentRunRecord>)
    requires
        forall|i: int| 0 <= i < runs.len() ==> (#[trigger] runs[i]).status.terminal(),
    ensures
        live_runs(runs) == Seq::<AgentRunRecord>::empty(),
    decreases runs.len(),
{
    if runs.len() > 0 {
        assert forall|i: int| 0 <= i < runs.drop_last().len() implies (
        #[trigger] runs.drop_last()[i]).status.terminal() by {
            assert(runs.drop_last()[i] == runs[i]);
        }
        lemma_ended_runs_are_not_live(runs.drop_last());
    }
}

} // verus!
