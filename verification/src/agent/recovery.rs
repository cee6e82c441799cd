use vstd::prelude::*;

use crate::agent::handle::{is_live_result, live_result, ObservedResult};
use crate::agent::model::{
    AgentRecoveryReport, AgentResultHandle, AgentRunRecord, ToolPermissionRecord,
};
use crate::agent::permission::{revoke_tool_permissions, revoked_all, stored_permissions};
use crate::agent::run::write_in_flight;
use crate::agent::status::AgentRunStatus;
use crate::agent::write::with_error;
use crate::storage::Storage;

verus! {

/// A result handle and what the index holds of its result.
pub struct ObservedHandle {
    /// The handle.
    pub handle: AgentResultHandle,
    /// Its result, if the index still has it.
    pub result: Option<ObservedResult>,
}

/// What a restart changes of the durable agent state.
pub struct AgentRecovery {
    /// The runs that it ends.
    pub runs: Vec<AgentRunRecord>,
    /// The permissions that it withdraws.
    pub permissions: Vec<ToolPermissionRecord>,
    /// The handles that it removes.
    pub handles: Vec<AgentResultHandle>,
    /// How many of each.
    pub report: AgentRecoveryReport,
}

/// The last event of a run after the one that records its failure.
pub open spec fn failure_sequence(sequence: u64) -> u64 {
    if sequence < i64::MAX {
        (sequence + 1) as u64
    } else {
        sequence
    }
}

/// A run that a restart ends; its fence, if it has one, stays.
pub open spec fn interrupted(run: AgentRunRecord, timestamp: i64) -> AgentRunRecord {
    AgentRunRecord {
        status: AgentRunStatus::Failed,
        last_sequence: failure_sequence(run.last_sequence),
        updated_at_ms: timestamp,
        finished_at_ms: Some(timestamp),
        ..run
    }
}

/// The record of a run that a restart ended: a write under way has an unknown outcome.
pub open spec fn interrupted_as(
    record: AgentRunRecord,
    run: AgentRunRecord,
    timestamp: i64,
) -> bool {
    if write_in_flight(run) {
        with_error(
            record,
            interrupted(run, timestamp),
            "database_outcome_unknown"@,
            "Database write outcome is unknown after runtime restart"@,
        )
    } else {
        with_error(
            record,
            interrupted(run, timestamp),
            "runtime_restarted"@,
            "Agent run interrupted by runtime restart"@,
        )
    }
}

/// The runs that have not ended.
pub open spec fn live_runs(runs: Seq<AgentRunRecord>) -> Seq<AgentRunRecord>
    decreases runs.len(),
{
    if runs.len() == 0 {
        Seq::empty()
    } else if runs.last().status.terminal() {
        live_runs(runs.drop_last())
    } else {
        live_runs(runs.drop_last()).push(runs.last())
    }
}

/// How many runs have a write under way.
pub open spec fn fenced_count(runs: Seq<AgentRunRecord>) -> nat
    decreases runs.len(),
{
    if runs.len() == 0 {
        0
    } else {
        fenced_count(runs.drop_last()) + if write_in_flight(runs.last()) {
            1nat
        } else {
            0nat
        }
    }
}

/// A handle ends with its own time, or once its result is not complete, has expired or is gone.
pub open spec fn handle_ended(observed: ObservedHandle, timestamp: i64) -> bool {
    observed.handle.expires_at_ms <= timestamp || !live_result(observed.result, timestamp)
}

/// The handles that have ended.
pub open spec fn ended_handles(handles: Seq<ObservedHandle>, timestamp: i64) -> Seq<
    AgentResultHandle,
>
    decreases handles.len(),
{
    if handles.len() == 0 {
        Seq::empty()
    } else {
        let earlier = ended_handles(handles.drop_last(), timestamp);
        if handle_ended(handles.last(), timestamp) {
            earlier.push(handles.last().handle)
        } else {
            earlier
        }
    }
}

/// Ends a run that a restart interrupted.
fn interrupt_run(run: AgentRunRecord, timestamp: i64) -> (result: AgentRunRecord)
    ensures
        interrupted_as(result, run, timestamp),
{
    let last_sequence: u64 = if run.last_sequence < i64::MAX as u64 {
        run.last_sequence + 1
    } else {
        run.last_sequence
    };
    let fenced: bool = run.write_in_flight_tool_call_id.is_some();
    let error_code = if fenced {
        "database_outcome_unknown".to_owned()
    } else {
        "runtime_restarted".to_owned()
    };
    let error_message = if fenced {
        "Database write outcome is unknown after runtime restart".to_owned()
    } else {
        "Agent run interrupted by runtime restart".to_owned()
    };
    AgentRunRecord {
        status: AgentRunStatus::Failed,
        error_code: Some(error_code),
        error_message: Some(error_message),
        last_sequence,
        updated_at_ms: timestamp,
        finished_at_ms: Some(timestamp),
        ..run
    }
}

impl Storage {
    /// Ends what a restart interrupted: live runs fail, active permissions are withdrawn and
    /// ended handles are removed.
    pub fn recover_agents_at(
        runs: Vec<AgentRunRecord>,
        permissions: Vec<ToolPermissionRecord>,
        handles: Vec<ObservedHandle>,
        timestamp: i64,
    ) -> (result: AgentRecovery)
        requires
            stored_permissions(permissions@),
        ensures
            ({
                let live = live_runs(runs@);
                &&& result.runs@.len() == live.len()
                &&& forall|i: int|
                    0 <= i < live.len() ==> interrupted_as(
                        #[trigger] result.runs@[i],
                        live[i],
                        timestamp,
                    )
                &&& result.permissions@ == revoked_all(permissions@, timestamp)
                &&& result.handles@ == ended_handles(handles@, timestamp)
                &&& result.report.runs_failed == live.len()
                &&& result.report.write_outcomes_unknown == fenced_count(live)
                &&& result.report.permissions_revoked == result.permissions@.len()
                &&& result.report.result_handles_removed == result.handles@.len()
            }),
    {
        let ghost all_runs = runs@;
        let ghost all_handles = handles@;
        let mut ended: Vec<AgentRunRecord> = Vec::new();
        let mut unknown: usize = 0;
        for run in it: runs
            invariant
                it.seq() == all_runs,
                ended@.len() == live_runs(all_runs.take(it.index() as int)).len(),
                unknown == fenced_count(live_runs(all_runs.take(it.index() as int))),
                unknown <= ended@.len(),
                forall|i: int|
                    0 <= i < ended@.len() ==> interrupted_as(
                        #[trigger] ended@[i],
                        live_runs(all_runs.take(it.index() as int))[i],
                        timestamp,
                    ),
        {
            let ghost before = live_runs(all_runs.take(it.index() as int));
            proof {
                let index = it.index() as int;
                assert(all_runs.take(index + 1).drop_last() =~= all_runs.take(index));
                assert(all_runs.take(index + 1).last() == all_runs[index]);
                assert(before.push(run).drop_last() =~= before);
            }
            if !run.status.is_terminal() {
                let fenced: bool = run.write_in_flight_tool_call_id.is_some();
                ended.push(interrupt_run(run, timestamp));
                if fenced && unknown < ended.len() {
                    unknown = unknown + 1;
                }
            }
        }
        assert(all_runs.take(all_runs.len() as int) =~= all_runs);
        let withdrawn = revoke_tool_permissions(permissions, timestamp);
        let mut removed: Vec<AgentResultHandle> = Vec::new();
        for observed in it: handles
            invariant
                it.seq() == all_handles,
                removed@ == ended_handles(all_handles.take(it.index() as int), timestamp),
        {
            proof {
                let index = it.index() as int;
                assert(all_handles.take(index + 1).drop_last() =~= all_handles.take(index));
                assert(all_handles.take(index + 1).last() == all_handles[index]);
            }
            if observed.handle.expires_at_ms <= timestamp || !is_live_result(
                observed.result,
                timestamp,
            ) {
                removed.push(observed.handle);
            }
        }
        assert(all_handles.take(all_handles.len() as int) =~= all_handles);
        let report = AgentRecoveryReport {
            runs_failed: ended.len(),
            write_outcomes_unknown: unknown,
            permissions_revoked: withdrawn.len(),
            result_handles_removed: removed.len(),
        };
        AgentRecovery { runs: ended, permissions: withdrawn, handles: removed, report }
    }
}

/// A run that a restart interrupted has failed: one event later, unless no later one can be stored,
/// and at the time of the restart, with the reason of the restart, or, where a write was under way,
/// of its unknown outcome. Its fence and everything else stay.
pub proof fn law_interrupted_run_has_failed(
    record: AgentRunRecord,
    run: AgentRunRecord,
    timestamp: i64,
)
    requires
        interrupted_as(record, run, timestamp),
    ensures
        record.status is Failed,
        run.last_sequence < i64::MAX ==> record.last_sequence == run.last_sequence + 1,
        run.last_sequence >= i64::MAX ==> record.last_sequence == run.last_sequence,
        record.updated_at_ms == timestamp,
        record.finished_at_ms == Some(timestamp),
        record.error_code matches Some(code) && code@ == (
        if run.write_in_flight_tool_call_id is Some {
            "database_outcome_unknown"@
        } else {
            "runtime_restarted"@
        }),
        record.error_message matches Some(message) && message@ == (
        if run.write_in_flight_tool_call_id is Some {
            "Database write outcome is unknown after runtime restart"@
        } else {
            "Agent run interrupted by runtime restart"@
        }),
        record.id == run.id,
        record.session_id == run.session_id,
        record.sql_permission_mode == run.sql_permission_mode,
        record.model_rounds == run.model_rounds,
        record.tool_calls == run.tool_calls,
        record.input_tokens == run.input_tokens,
        record.output_tokens == run.output_tokens,
        record.total_tokens == run.total_tokens,
        record.message_id == run.message_id,
        record.cancel_requested == run.cancel_requested,
        record.write_in_flight_tool_call_id == run.write_in_flight_tool_call_id,
        record.write_in_flight_arguments_sha256 == run.write_in_flight_arguments_sha256,
        record.compaction_count == run.compaction_count,
        record.compacted_through_ordinal == run.compacted_through_ordinal,
        record.created_at_ms == run.created_at_ms,
        record.started_at_ms == run.started_at_ms,
{
}

/// A restart ends each run that is running or waits, in order, and no other, and counts those of
/// them that have a write under way.
pub proof fn law_restart_ends_live_runs(runs: Seq<AgentRunRecord>, run: AgentRunRecord)
    ensures
        live_runs(Seq::empty()).len() == 0,
        run.status is Running || run.status is WaitingPermission ==> live_runs(runs.push(run))
            == live_runs(runs).push(run),
        !(run.status is Running || run.status is WaitingPermission) ==> live_runs(runs.push(run))
            == live_runs(runs),
        fenced_count(Seq::empty()) == 0,
        run.write_in_flight_tool_call_id is Some ==> fenced_count(runs.push(run)) == fenced_count(
            runs,
        ) + 1,
        run.write_in_flight_tool_call_id is None ==> fenced_count(runs.push(run)) == fenced_count(
            runs,
        ),
{
    assert(runs.push(run).drop_last() =~= runs);
}

/// A restart removes each handle whose time has come or whose result is gone, not complete or
/// expired, in order, and no other.
pub proof fn law_restart_removes_ended_handles(
    handles: Seq<ObservedHandle>,
    observed: ObservedHandle,
    timestamp: i64,
)
    ensures
        ended_handles(Seq::empty(), timestamp).len() == 0,
        ended_handles(handles.push(observed), timestamp) == (if observed.handle.expires_at_ms
            > timestamp && (observed.result matches Some(result) && result.complete
            && result.expires_at_ms > timestamp) {
            ended_handles(handles, timestamp)
        } else {
            ended_handles(handles, timestamp).push(observed.handle)
        }),
{
    assert(handles.push(observed).drop_last() =~= handles);
}

} // verus!
