use vstd::prelude::*;

use crate::agent::message::{
    hold_all, normalize_agent_run_messages, run_batch_blocks, SessionMessages, StoredMessage,
};
use crate::agent::model::{AgentRunRecord, FailedAgentRun, UnknownAgentWrite};
use crate::agent::permission::not_executable;
use crate::agent::progress::{
    progress_check, recorded_progress, step_check, validate_run_step, validate_unknown_agent_write,
    InitiatingMessages,
};
use crate::agent::run::{ended_run, found, record_progress, store_batch, stored_batch};
use crate::agent::status::AgentRunStatus;
use crate::digest::same_digest;
use crate::error::StorageError;
use crate::storage::Storage;
use crate::text::same_text;

verus! {

/// A running run behind the fence of the write that its caller names.
pub open spec fn fenced_by(
    run: AgentRunRecord,
    tool_call_id: Seq<char>,
    arguments_sha256: Seq<u8>,
) -> bool {
    &&& run.status is Running
    &&& run.write_in_flight_tool_call_id matches Some(call) && call@ == tool_call_id
    &&& run.write_in_flight_arguments_sha256 matches Some(digest) && digest@ == arguments_sha256
}

/// The run behind the fence of the write that its caller names.
pub open spec fn fenced_run(
    run_id: String,
    tool_call_id: String,
    arguments_sha256: [u8; 32],
    run: Option<AgentRunRecord>,
) -> Result<AgentRunRecord, StorageError> {
    match found(run_id, run) {
        Err(error) => Err(error),
        Ok(current) => if fenced_by(current, tool_call_id@, arguments_sha256@) {
            Ok(current)
        } else {
            Err(not_executable(run_id, "database write dispatch fence does not match"))
        },
    }
}

/// The run without its fence.
pub open spec fn settled(run: AgentRunRecord, timestamp: i64) -> AgentRunRecord {
    AgentRunRecord {
        write_in_flight_tool_call_id: None,
        write_in_flight_arguments_sha256: None,
        updated_at_ms: timestamp,
        ..run
    }
}

/// The same run, with an error whose code and message are given as texts.
pub open spec fn with_error(
    run: AgentRunRecord,
    expected: AgentRunRecord,
    code: Seq<char>,
    message: Seq<char>,
) -> bool {
    &&& run.error_code matches Some(text) && text@ == code
    &&& run.error_message matches Some(text) && text@ == message
    &&& run == (AgentRunRecord {
        error_code: run.error_code,
        error_message: run.error_message,
        ..expected
    })
}

/// A run whose write has an unknown outcome fails behind its fence, which stays.
pub open spec fn outcome_unknown(
    run_id: String,
    tool_call_id: String,
    arguments_sha256: [u8; 32],
    input: UnknownAgentWrite,
    run: Option<AgentRunRecord>,
    initiating: InitiatingMessages,
    totals: SessionMessages,
    ids: Seq<String>,
    timestamp: i64,
) -> Result<(AgentRunRecord, Seq<StoredMessage>), StorageError> {
    match progress_check(input.reported()) {
        Err(error) => Err(error),
        Ok(_) => match run_batch_blocks(input.messages@, false) {
            Err(error) => Err(error),
            Ok(blocks) => match fenced_run(run_id, tool_call_id, arguments_sha256, run) {
                Err(error) => Err(error),
                Ok(current) => match step_check(
                    recorded_progress(current),
                    input.reported(),
                    initiating,
                ) {
                    Err(error) => Err(error),
                    Ok(_) => match stored_batch(
                        run_id,
                        current,
                        totals,
                        input.messages@,
                        ids,
                        blocks,
                        timestamp,
                    ) {
                        Err(error) => Err(error),
                        Ok(messages) => Ok(
                            (
                                ended_run(
                                    current,
                                    AgentRunStatus::Failed,
                                    input.reported(),
                                    None,
                                    None,
                                    None,
                                    timestamp,
                                ),
                                messages,
                            ),
                        ),
                    },
                },
            },
        },
    }
}

/// Takes the run behind the fence of the write that its caller names.
fn take_fenced_run(
    run_id: &String,
    tool_call_id: &String,
    arguments_sha256: &[u8; 32],
    run: Option<AgentRunRecord>,
) -> (result: Result<AgentRunRecord, StorageError>)
    ensures
        result == fenced_run(*run_id, *tool_call_id, *arguments_sha256, run),
{
    let current = match run {
        Some(current) => current,
        None => return Err(StorageError::AgentRunNotFound(run_id.clone())),
    };
    let same_call: bool = match &current.write_in_flight_tool_call_id {
        Some(call) => same_text(call.as_str(), tool_call_id.as_str()),
        None => false,
    };
    let same_arguments: bool = match &current.write_in_flight_arguments_sha256 {
        Some(digest) => same_digest(digest, arguments_sha256),
        None => false,
    };
    if current.status != AgentRunStatus::Running || !same_call || !same_arguments {
        return Err(
            StorageError::PermissionNotExecutable {
                id: run_id.clone(),
                reason: "database write dispatch fence does not match",
            },
        );
    }
    Ok(current)
}

impl Storage {
    /// Lowers the fence of a write whose outcome is known.
    pub fn settle_agent_write(
        run_id: &String,
        tool_call_id: &String,
        arguments_sha256: [u8; 32],
        run: Option<AgentRunRecord>,
        timestamp: i64,
    ) -> (result: Result<AgentRunRecord, StorageError>)
        ensures
            result == (match fenced_run(*run_id, *tool_call_id, arguments_sha256, run) {
                Err(error) => Err(error),
                Ok(current) => Ok(settled(current, timestamp)),
            }),
    {
        let current = take_fenced_run(run_id, tool_call_id, &arguments_sha256, run)?;
        Ok(
            AgentRunRecord {
                write_in_flight_tool_call_id: None,
                write_in_flight_arguments_sha256: None,
                updated_at_ms: timestamp,
                ..current
            },
        )
    }

    /// Ends a run whose write has an unknown outcome; the fence stays, so that nothing retries it.
    pub fn fail_agent_write_outcome_unknown(
        run_id: &String,
        tool_call_id: &String,
        arguments_sha256: [u8; 32],
        input: UnknownAgentWrite,
        run: Option<AgentRunRecord>,
        initiating: InitiatingMessages,
        totals: SessionMessages,
        ids: &Vec<String>,
        timestamp: i64,
    ) -> (result: Result<FailedAgentRun, StorageError>)
        requires
            ids@.len() == input.messages@.len(),
        ensures
            match (
                result,
                outcome_unknown(
                    *run_id,
                    *tool_call_id,
                    arguments_sha256,
                    input,
                    run,
                    initiating,
                    totals,
                    ids@,
                    timestamp,
                ),
            ) {
                (Ok(done), Ok((ended, messages))) => with_error(
                    done.run,
                    ended,
                    "database_outcome_unknown"@,
                    "Database write outcome is unknown and must not be retried"@,
                ) && hold_all(done.messages@, messages),
                (Err(error), Err(expected)) => error == expected,
                _ => false,
            },
    {
        validate_unknown_agent_write(&input)?;
        let normalized = normalize_agent_run_messages(&input.messages, false)?;
        let ghost blocks = run_batch_blocks(input.messages@, false)->Ok_0;
        let current = take_fenced_run(run_id, tool_call_id, &arguments_sha256, run)?;
        let progress = input.progress();
        validate_run_step(&current, progress, initiating)?;
        let messages = store_batch(
            run_id,
            &current,
            totals,
            &input.messages,
            normalized,
            ids,
            Ghost(blocks),
            timestamp,
        )?;
        let recorded = record_progress(current, progress, timestamp);
        let run = AgentRunRecord {
            status: AgentRunStatus::Failed,
            message_id: None,
            error_code: Some("database_outcome_unknown".to_owned()),
            error_message: Some(
                "Database write outcome is unknown and must not be retried".to_owned(),
            ),
            finished_at_ms: Some(timestamp),
            ..recorded
        };
        Ok(FailedAgentRun { run, messages })
    }
}

} // verus!
