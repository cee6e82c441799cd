use vstd::prelude::*;

use crate::agent::model::{
    AgentRunRecord, AgentRunUpdate, CancelAgentRun, CompleteAgentRun, FailAgentRun,
    UnknownAgentWrite,
};
use crate::error::StorageError;
use crate::number::{fits_sql, from_sql_u64, sql_u64, to_sql_i64};
use crate::text::{blank, byte_len, is_blank, text_len};

verus! {

/// Maximum UTF-8 bytes of a persisted run error code.
pub const MAX_RUN_ERROR_CODE_BYTES: usize = 128;

/// Maximum UTF-8 bytes of a persisted run error message.
pub const MAX_RUN_ERROR_MESSAGE_BYTES: usize = 4096;

/// The monotonic part of a run: its event sequence, counters, usage and compaction state.
#[derive(Debug, Clone, Copy, PartialEq, Eq, Structural)]
pub struct RunProgress {
    /// Last event sequence included in the snapshot.
    pub last_sequence: u64,
    /// Model rounds executed so far.
    pub model_rounds: u64,
    /// Tool calls executed so far.
    pub tool_calls: u64,
    /// Input tokens used so far.
    pub input_tokens: u64,
    /// Output tokens used so far.
    pub output_tokens: u64,
    /// Total tokens used so far.
    pub total_tokens: u64,
    /// Number of effective compactions.
    pub compaction_count: u64,
    /// Last message ordinal covered by a compaction.
    pub compacted_through_ordinal: Option<u64>,
}

/// The user messages that a run recorded when it started.
#[derive(Debug, Clone, Copy, PartialEq, Eq, Structural)]
pub struct InitiatingMessages {
    /// How many user messages belong to the run.
    pub count: i64,
    /// The lowest ordinal among them.
    pub ordinal: Option<i64>,
}

/// The progress that a run has recorded.
pub open spec fn recorded_progress(run: AgentRunRecord) -> RunProgress {
    RunProgress {
        last_sequence: run.last_sequence,
        model_rounds: run.model_rounds,
        tool_calls: run.tool_calls,
        input_tokens: run.input_tokens,
        output_tokens: run.output_tokens,
        total_tokens: run.total_tokens,
        compaction_count: run.compaction_count,
        compacted_through_ordinal: run.compacted_through_ordinal,
    }
}

/// The run with its progress replaced and its update time moved.
pub open spec fn with_progress(
    run: AgentRunRecord,
    progress: RunProgress,
    timestamp: i64,
) -> AgentRunRecord {
    AgentRunRecord {
        last_sequence: progress.last_sequence,
        model_rounds: progress.model_rounds,
        tool_calls: progress.tool_calls,
        input_tokens: progress.input_tokens,
        output_tokens: progress.output_tokens,
        total_tokens: progress.total_tokens,
        compaction_count: progress.compaction_count,
        compacted_through_ordinal: progress.compacted_through_ordinal,
        updated_at_ms: timestamp,
        ..run
    }
}

/// The rules that a snapshot meets on its own; the first one broken decides the failure.
pub open spec fn progress_check(progress: RunProgress) -> Result<(), StorageError> {
    if !fits_sql(progress.last_sequence) {
        Err(StorageError::NumericRange("agent event sequence"))
    } else if !fits_sql(progress.model_rounds) {
        Err(StorageError::NumericRange("agent model rounds"))
    } else if !fits_sql(progress.tool_calls) {
        Err(StorageError::NumericRange("agent tool calls"))
    } else if !fits_sql(progress.input_tokens) {
        Err(StorageError::NumericRange("agent input tokens"))
    } else if !fits_sql(progress.output_tokens) {
        Err(StorageError::NumericRange("agent output tokens"))
    } else if !fits_sql(progress.total_tokens) {
        Err(StorageError::NumericRange("agent total tokens"))
    } else if !fits_sql(progress.compaction_count) {
        Err(StorageError::NumericRange("agent compaction count"))
    } else if progress.last_sequence == 0 {
        Err(StorageError::InvalidAgent("agent event sequence must be greater than zero"))
    } else if progress.total_tokens < progress.input_tokens + progress.output_tokens {
        Err(
            StorageError::InvalidAgent(
                "agent total tokens cannot be less than input plus output tokens",
            ),
        )
    } else if progress.compacted_through_ordinal matches Some(ordinal) && !fits_sql(ordinal) {
        Err(StorageError::NumericRange("compacted message ordinal"))
    } else if (progress.compaction_count == 0) != (progress.compacted_through_ordinal is None) {
        Err(
            StorageError::InvalidAgent(
                "agent compaction count and coverage ordinal must be present together",
            ),
        )
    } else {
        Ok(())
    }
}

/// The sequence advances and nothing else of the progress falls behind.
pub open spec fn advances(earlier: RunProgress, later: RunProgress) -> bool {
    &&& later.last_sequence > earlier.last_sequence
    &&& later.model_rounds >= earlier.model_rounds
    &&& later.tool_calls >= earlier.tool_calls
    &&& later.input_tokens >= earlier.input_tokens
    &&& later.output_tokens >= earlier.output_tokens
    &&& later.total_tokens >= earlier.total_tokens
    &&& later.compaction_count >= earlier.compaction_count
    &&& covers(earlier.compacted_through_ordinal, later.compacted_through_ordinal)
}

/// Coverage never shrinks and is never lost.
pub open spec fn covers(earlier: Option<u64>, later: Option<u64>) -> bool {
    match (earlier, later) {
        (None, _) => true,
        (Some(_), None) => false,
        (Some(before), Some(after)) => before <= after,
    }
}

/// A snapshot is valid and advances the recorded one.
pub open spec fn advance_check(earlier: RunProgress, later: RunProgress) -> Result<
    (),
    StorageError,
> {
    match progress_check(later) {
        Err(error) => Err(error),
        Ok(_) => if advances(earlier, later) {
            Ok(())
        } else {
            Err(
                StorageError::InvalidAgent(
                    "agent run sequence, counters, usage, and compaction must be monotonic",
                ),
            )
        },
    }
}

/// The compaction state is the recorded one.
pub open spec fn same_compaction(earlier: RunProgress, later: RunProgress) -> bool {
    &&& later.compaction_count == earlier.compaction_count
    &&& later.compacted_through_ordinal == earlier.compacted_through_ordinal
}

/// Outside the compaction operation the compaction state stays as it is.
pub open spec fn compaction_unchanged_check(earlier: RunProgress, later: RunProgress) -> Result<
    (),
    StorageError,
> {
    if same_compaction(earlier, later) {
        Ok(())
    } else {
        Err(
            StorageError::InvalidAgent(
                "agent compaction state requires the dedicated atomic API",
            ),
        )
    }
}

/// Coverage ends before the one user message that started the run.
pub open spec fn boundary_check(initiating: InitiatingMessages, coverage: Option<u64>) -> Result<
    (),
    StorageError,
> {
    match coverage {
        None => Ok(()),
        Some(covered) => if initiating.count != 1 || initiating.ordinal is None {
            Err(StorageError::InvalidAgent("persisted agent run initiating message is invalid"))
        } else {
            match sql_u64(initiating.ordinal->0, "agent message ordinal") {
                Err(error) => Err(error),
                Ok(start) => if covered < start {
                    Ok(())
                } else {
                    Err(
                        StorageError::InvalidAgent(
                            "agent compaction coverage must precede its initiating user message",
                        ),
                    )
                },
            }
        },
    }
}

/// What a step of a live run has to meet: compaction untouched, progress made, boundary kept.
pub open spec fn step_check(
    earlier: RunProgress,
    later: RunProgress,
    initiating: InitiatingMessages,
) -> Result<(), StorageError> {
    match compaction_unchanged_check(earlier, later) {
        Err(error) => Err(error),
        Ok(_) => match advance_check(earlier, later) {
            Err(error) => Err(error),
            Ok(_) => boundary_check(initiating, later.compacted_through_ordinal),
        },
    }
}

/// An error code is present and both error fields are bounded.
pub open spec fn safe_error(code: Seq<char>, message: Option<String>) -> bool {
    &&& !blank(code)
    &&& byte_len(code) <= MAX_RUN_ERROR_CODE_BYTES
    &&& message matches Some(text) ==> byte_len(text@) <= MAX_RUN_ERROR_MESSAGE_BYTES
}

/// The failure of an unsafe error description.
pub open spec fn safe_error_check(code: Seq<char>, message: Option<String>) -> Result<
    (),
    StorageError,
> {
    if safe_error(code, message) {
        Ok(())
    } else {
        Err(
            StorageError::InvalidAgent(
                "agent run error code must be non-empty and error fields must be bounded",
            ),
        )
    }
}

/// Checks the rules that a snapshot meets on its own.
pub fn validate_progress_values(progress: RunProgress) -> (result: Result<(), StorageError>)
    ensures
        result == progress_check(progress),
{
    to_sql_i64(progress.last_sequence, "agent event sequence")?;
    to_sql_i64(progress.model_rounds, "agent model rounds")?;
    to_sql_i64(progress.tool_calls, "agent tool calls")?;
    to_sql_i64(progress.input_tokens, "agent input tokens")?;
    to_sql_i64(progress.output_tokens, "agent output tokens")?;
    to_sql_i64(progress.total_tokens, "agent total tokens")?;
    to_sql_i64(progress.compaction_count, "agent compaction count")?;
    if progress.last_sequence == 0 {
        return Err(StorageError::InvalidAgent("agent event sequence must be greater than zero"));
    }
    if progress.total_tokens < progress.input_tokens + progress.output_tokens {
        return Err(
            StorageError::InvalidAgent(
                "agent total tokens cannot be less than input plus output tokens",
            ),
        );
    }
    if let Some(ordinal) = progress.compacted_through_ordinal {
        to_sql_i64(ordinal, "compacted message ordinal")?;
    }
    if (progress.compaction_count == 0) != progress.compacted_through_ordinal.is_none() {
        return Err(
            StorageError::InvalidAgent(
                "agent compaction count and coverage ordinal must be present together",
            ),
        );
    }
    Ok(())
}

/// Checks that a snapshot is valid and advances the recorded one.
pub fn validate_run_progress(current: &AgentRunRecord, progress: RunProgress) -> (result: Result<
    (),
    StorageError,
>)
    ensures
        result == advance_check(recorded_progress(*current), progress),
{
    validate_progress_values(progress)?;
    let covered: bool = match (
        current.compacted_through_ordinal,
        progress.compacted_through_ordinal,
    ) {
        (None, _) => true,
        (Some(_), None) => false,
        (Some(before), Some(after)) => before <= after,
    };
    if progress.last_sequence <= current.last_sequence || progress.model_rounds
        < current.model_rounds || progress.tool_calls < current.tool_calls || progress.input_tokens
        < current.input_tokens || progress.output_tokens < current.output_tokens
        || progress.total_tokens < current.total_tokens || progress.compaction_count
        < current.compaction_count || !covered {
        return Err(
            StorageError::InvalidAgent(
                "agent run sequence, counters, usage, and compaction must be monotonic",
            ),
        );
    }
    Ok(())
}

/// Checks that a snapshot leaves the compaction state as it is recorded.
pub fn validate_compaction_unchanged(current: &AgentRunRecord, progress: RunProgress) -> (result:
    Result<(), StorageError>)
    ensures
        result == compaction_unchanged_check(recorded_progress(*current), progress),
{
    let same_coverage: bool = match (
        progress.compacted_through_ordinal,
        current.compacted_through_ordinal,
    ) {
        (None, None) => true,
        (Some(after), Some(before)) => after == before,
        _ => false,
    };
    if progress.compaction_count != current.compaction_count || !same_coverage {
        return Err(
            StorageError::InvalidAgent(
                "agent compaction state requires the dedicated atomic API",
            ),
        );
    }
    Ok(())
}

/// Checks that coverage ends before the user message that started the run.
pub fn validate_run_compaction_boundary(
    initiating: InitiatingMessages,
    coverage: Option<u64>,
) -> (result: Result<(), StorageError>)
    ensures
        result == boundary_check(initiating, coverage),
{
    let covered: u64 = match coverage {
        Some(ordinal) => ordinal,
        None => return Ok(()),
    };
    if initiating.count != 1 {
        return Err(
            StorageError::InvalidAgent("persisted agent run initiating message is invalid"),
        );
    }
    let stored: i64 = match initiating.ordinal {
        Some(ordinal) => ordinal,
        None => return Err(
            StorageError::InvalidAgent("persisted agent run initiating message is invalid"),
        ),
    };
    let start: u64 = from_sql_u64(stored, "agent message ordinal")?;
    if covered >= start {
        return Err(
            StorageError::InvalidAgent(
                "agent compaction coverage must precede its initiating user message",
            ),
        );
    }
    Ok(())
}

/// Checks a step of a live run that leaves the compaction state alone.
pub fn validate_run_step(
    current: &AgentRunRecord,
    progress: RunProgress,
    initiating: InitiatingMessages,
) -> (result: Result<(), StorageError>)
    ensures
        result == step_check(recorded_progress(*current), progress, initiating),
{
    validate_compaction_unchanged(current, progress)?;
    validate_run_progress(current, progress)?;
    validate_run_compaction_boundary(initiating, progress.compacted_through_ordinal)
}

/// Checks an error description that will be shown to the user.
pub fn validate_safe_error(code: &str, message: &Option<String>) -> (result: Result<
    (),
    StorageError,
>)
    ensures
        result == safe_error_check(code@, *message),
{
    let bounded: bool = match message {
        Some(text) => text_len(text.as_str()) <= MAX_RUN_ERROR_MESSAGE_BYTES,
        None => true,
    };
    if is_blank(code) || text_len(code) > MAX_RUN_ERROR_CODE_BYTES || !bounded {
        return Err(
            StorageError::InvalidAgent(
                "agent run error code must be non-empty and error fields must be bounded",
            ),
        );
    }
    Ok(())
}

impl AgentRunUpdate {
    /// The progress that the request reports.
    pub open spec fn reported(self) -> RunProgress {
        RunProgress {
            last_sequence: self.last_sequence,
            model_rounds: self.model_rounds,
            tool_calls: self.tool_calls,
            input_tokens: self.input_tokens,
            output_tokens: self.output_tokens,
            total_tokens: self.total_tokens,
            compaction_count: self.compaction_count,
            compacted_through_ordinal: self.compacted_through_ordinal,
        }
    }

    /// Reads the progress that the request reports.
    pub fn progress(&self) -> (result: RunProgress)
        ensures
            result == self.reported(),
    {
        RunProgress {
            last_sequence: self.last_sequence,
            model_rounds: self.model_rounds,
            tool_calls: self.tool_calls,
            input_tokens: self.input_tokens,
            output_tokens: self.output_tokens,
            total_tokens: self.total_tokens,
            compaction_count: self.compaction_count,
            compacted_through_ordinal: self.compacted_through_ordinal,
        }
    }
}

impl CompleteAgentRun {
    /// The progress that the request reports.
    pub open spec fn reported(self) -> RunProgress {
        RunProgress {
            last_sequence: self.last_sequence,
            model_rounds: self.model_rounds,
            tool_calls: self.tool_calls,
            input_tokens: self.input_tokens,
            output_tokens: self.output_tokens,
            total_tokens: self.total_tokens,
            compaction_count: self.compaction_count,
            compacted_through_ordinal: self.compacted_through_ordinal,
        }
    }

    /// Reads the progress that the request reports.
    pub fn progress(&self) -> (result: RunProgress)
        ensures
            result == self.reported(),
    {
        RunProgress {
            last_sequence: self.last_sequence,
            model_rounds: self.model_rounds,
            tool_calls: self.tool_calls,
            input_tokens: self.input_tokens,
            output_tokens: self.output_tokens,
            total_tokens: self.total_tokens,
            compaction_count: self.compaction_count,
            compacted_through_ordinal: self.compacted_through_ordinal,
        }
    }
}

impl FailAgentRun {
    /// The progress that the request reports.
    pub open spec fn reported(self) -> RunProgress {
        RunProgress {
            last_sequence: self.last_sequence,
            model_rounds: self.model_rounds,
            tool_calls: self.tool_calls,
            input_tokens: self.input_tokens,
            output_tokens: self.output_tokens,
            total_tokens: self.total_tokens,
            compaction_count: self.compaction_count,
            compacted_through_ordinal: self.compacted_through_ordinal,
        }
    }

    /// Reads the progress that the request reports.
    pub fn progress(&self) -> (result: RunProgress)
        ensures
            result == self.reported(),
    {
        RunProgress {
            last_sequence: self.last_sequence,
            model_rounds: self.model_rounds,
            tool_calls: self.tool_calls,
            input_tokens: self.input_tokens,
            output_tokens: self.output_tokens,
            total_tokens: self.total_tokens,
            compaction_count: self.compaction_count,
            compacted_through_ordinal: self.compacted_through_ordinal,
        }
    }
}

impl CancelAgentRun {
    /// The progress that the request reports.
    pub open spec fn reported(self) -> RunProgress {
        RunProgress {
            last_sequence: self.last_sequence,
            model_rounds: self.model_rounds,
            tool_calls: self.tool_calls,
            input_tokens: self.input_tokens,
            output_tokens: self.output_tokens,
            total_tokens: self.total_tokens,
            compaction_count: self.compaction_count,
            compacted_through_ordinal: self.compacted_through_ordinal,
        }
    }

    /// Reads the progress that the request reports.
    pub fn progress(&self) -> (result: RunProgress)
        ensures
            result == self.reported(),
    {
        RunProgress {
            last_sequence: self.last_sequence,
            model_rounds: self.model_rounds,
            tool_calls: self.tool_calls,
            input_tokens: self.input_tokens,
            output_tokens: self.output_tokens,
            total_tokens: self.total_tokens,
            compaction_count: self.compaction_count,
            compacted_through_ordinal: self.compacted_through_ordinal,
        }
    }
}

impl UnknownAgentWrite {
    /// The progress that the request reports.
    pub open spec fn reported(self) -> RunProgress {
        RunProgress {
            last_sequence: self.last_sequence,
            model_rounds: self.model_rounds,
            tool_calls: self.tool_calls,
            input_tokens: self.input_tokens,
            output_tokens: self.output_tokens,
            total_tokens: self.total_tokens,
            compaction_count: self.compaction_count,
            compacted_through_ordinal: self.compacted_through_ordinal,
        }
    }

    /// Reads the progress that the request reports.
    pub fn progress(&self) -> (result: RunProgress)
        ensures
            result == self.reported(),
    {
        RunProgress {
            last_sequence: self.last_sequence,
            model_rounds: self.model_rounds,
            tool_calls: self.tool_calls,
            input_tokens: self.input_tokens,
            output_tokens: self.output_tokens,
            total_tokens: self.total_tokens,
            compaction_count: self.compaction_count,
            compacted_through_ordinal: self.compacted_through_ordinal,
        }
    }
}

/// A live run reports valid progress; ended runs have operations of their own.
pub open spec fn run_update_check(update: AgentRunUpdate) -> Result<(), StorageError> {
    if update.status.terminal() {
        Err(
            StorageError::InvalidAgent(
                "terminal agent runs require an atomic terminal-message API",
            ),
        )
    } else {
        progress_check(update.reported())
    }
}

/// A failure carries a safe error description and valid progress.
pub open spec fn fail_run_check(input: FailAgentRun) -> Result<(), StorageError> {
    match safe_error_check(input.error_code@, input.error_message) {
        Err(error) => Err(error),
        Ok(_) => progress_check(input.reported()),
    }
}

/// Checks a progress update before the run is loaded.
pub fn validate_run_update(update: &AgentRunUpdate) -> (result: Result<(), StorageError>)
    ensures
        result == run_update_check(*update),
{
    if update.status.is_terminal() {
        return Err(
            StorageError::InvalidAgent(
                "terminal agent runs require an atomic terminal-message API",
            ),
        );
    }
    validate_progress_values(update.progress())
}

/// Checks a completion before the run is loaded.
pub fn validate_complete_agent_run(input: &CompleteAgentRun) -> (result: Result<(), StorageError>)
    ensures
        result == progress_check(input.reported()),
{
    validate_progress_values(input.progress())
}

/// Checks a failure before the run is loaded.
pub fn validate_fail_agent_run(input: &FailAgentRun) -> (result: Result<(), StorageError>)
    ensures
        result == fail_run_check(*input),
{
    validate_safe_error(input.error_code.as_str(), &input.error_message)?;
    validate_progress_values(input.progress())
}

/// Checks a cancellation before the run is loaded.
pub fn validate_cancel_agent_run(input: &CancelAgentRun) -> (result: Result<(), StorageError>)
    ensures
        result == progress_check(input.reported()),
{
    validate_progress_values(input.progress())
}

/// Checks an unknown write outcome before the run is loaded.
pub fn validate_unknown_agent_write(input: &UnknownAgentWrite) -> (result: Result<
    (),
    StorageError,
>)
    ensures
        result == progress_check(input.reported()),
{
    validate_progress_values(input.progress())
}

/// Every accepted step advances the run; accepted steps in a row therefore do, too.
pub proof fn law_progress_is_monotonic(first: RunProgress, second: RunProgress, third: RunProgress)
    requires
        advance_check(first, second) is Ok,
        advance_check(second, third) is Ok,
    ensures
        advances(first, third),
        !advances(third, first),
{
}

/// A step that leaves the compaction state alone leaves it exactly as it was recorded.
pub proof fn law_only_compaction_changes_coverage(
    earlier: RunProgress,
    later: RunProgress,
    initiating: InitiatingMessages,
)
    requires
        step_check(earlier, later, initiating) is Ok,
    ensures
        later.compaction_count == earlier.compaction_count,
        later.compacted_through_ordinal == earlier.compacted_through_ordinal,
        later.last_sequence > earlier.last_sequence,
{
}

} // verus!
