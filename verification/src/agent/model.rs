use std::time::Duration;

use vstd::prelude::*;

use crate::agent::status::{
    AgentMessageRole, AgentRunStatus, SqlPermissionMode, ToolPermissionStatus,
};

verus! {

/// Recovery actions applied to durable agent state before storage is exposed.
#[derive(Debug, Clone, Copy, PartialEq, Eq, Default, Structural)]
pub struct AgentRecoveryReport {
    /// Active runs moved to `Failed` before storage became available.
    pub runs_failed: usize,
    /// Failed runs whose in-flight database write outcome is unknowable.
    pub write_outcomes_unknown: usize,
    /// Pending or approved one-shot permissions revoked.
    pub permissions_revoked: usize,
    /// Expired result handles removed.
    pub result_handles_removed: usize,
}

/// Fields required to create a durable agent session.
#[derive(Clone, PartialEq, Eq)]
pub struct CreateAgentSession {
    /// User-visible session title.
    pub title: String,
    /// Provider profile selected for the session.
    pub provider_id: String,
    /// Optional datasource bound to database tools in the session.
    pub datasource_id: Option<String>,
    /// Optional plain-text system instruction inserted as ordinal zero.
    pub system_prompt: Option<String>,
}

/// Revisioned session ownership update.
#[derive(Debug, Clone, PartialEq, Eq)]
pub struct UpdateAgentSession {
    /// User-visible session title.
    pub title: String,
    /// Provider profile selected for subsequent runs.
    pub provider_id: String,
    /// Optional datasource bound to database tools.
    pub datasource_id: Option<String>,
}

/// Durable agent-session ownership record.
#[derive(Debug, Clone, PartialEq, Eq)]
pub struct AgentSessionRecord {
    /// Opaque session id.
    pub id: String,
    /// User-visible session title.
    pub title: String,
    /// Bound provider profile id.
    pub provider_id: String,
    /// Optional bound datasource id.
    pub datasource_id: Option<String>,
    /// Monotonic optimistic-concurrency revision.
    pub revision: u64,
    /// Creation time as Unix epoch milliseconds.
    pub created_at_ms: i64,
    /// Last mutation time as Unix epoch milliseconds.
    pub updated_at_ms: i64,
}

/// One session-owned canonical message append request.
///
/// Run-owned messages are accepted only by the dedicated atomic run lifecycle
/// APIs so transcript writes cannot outlive or interleave with their run.
#[derive(Clone, PartialEq, Eq)]
pub struct AppendAgentMessage {
    /// Visible message role.
    pub role: AgentMessageRole,
    /// Last original message represented by a summary message.
    pub summary_through_ordinal: Option<u64>,
    /// Strict JSON object containing the visible message/tool envelope.
    pub content_json: String,
}

/// One ordinal-addressed durable canonical message.
#[derive(Clone, PartialEq, Eq)]
pub struct AgentMessageRecord {
    /// Opaque stable message id.
    pub id: String,
    /// Owning session id.
    pub session_id: String,
    /// Run that produced or consumed the message, when applicable.
    pub run_id: Option<String>,
    /// Contiguous zero-based ordinal.
    pub ordinal: u64,
    /// Visible message role.
    pub role: AgentMessageRole,
    /// Last original message represented by this summary.
    pub summary_through_ordinal: Option<u64>,
    /// SQLite-normalized strict JSON. Raw provider deltas and hidden reasoning
    /// have no dedicated durable representation.
    pub content_json: String,
    /// Canonical UTF-8 byte length.
    pub content_bytes: u64,
    /// Creation time as Unix epoch milliseconds.
    pub created_at_ms: i64,
}

/// Input atomically persisted when one run starts.
#[derive(Clone, PartialEq, Eq)]
pub struct StartAgentRun {
    /// New plain-text user message.
    pub user_message: String,
    /// SQL capability fixed for the lifetime of this run.
    pub sql_permission_mode: SqlPermissionMode,
}

/// Durable run and its atomically inserted user message.
#[derive(Clone, PartialEq, Eq)]
pub struct StartedAgentRun {
    /// Running snapshot created before the caller acknowledges the request.
    pub run: AgentRunRecord,
    /// User message owned by the run.
    pub user_message: AgentMessageRecord,
}

/// Durable run progress and token-usage replacement.
#[derive(Debug, Clone, PartialEq, Eq)]
pub struct AgentRunUpdate {
    /// Desired next lifecycle state.
    pub status: AgentRunStatus,
    /// Latest event sequence represented by this snapshot.
    pub last_sequence: u64,
    /// Completed model rounds.
    pub model_rounds: u64,
    /// Started tool calls.
    pub tool_calls: u64,
    /// Accumulated provider input tokens.
    pub input_tokens: u64,
    /// Accumulated provider output tokens.
    pub output_tokens: u64,
    /// Accumulated provider total tokens.
    pub total_tokens: u64,
    /// Already-durable compaction count; ordinary progress cannot change it.
    pub compaction_count: u64,
    /// Already-durable compaction coverage; ordinary progress cannot change it.
    pub compacted_through_ordinal: Option<u64>,
}

/// Exact durable effect of one context-compaction event.
#[derive(Clone, PartialEq, Eq)]
pub enum AgentCompaction {
    /// The threshold fired but no complete historical turn was removable.
    NoOp,
    /// Complete historical turns were discarded without a replacement message.
    DeterministicTrim {
        /// Greatest durable ordinal removed by this pass.
        compacted_through_ordinal: u64,
    },
    /// Complete historical turns were replaced by one bounded summary.
    Summary {
        /// Greatest durable ordinal represented by the summary.
        compacted_through_ordinal: u64,
        /// Canonical visible summary content.
        content_json: String,
    },
}

/// One context-compaction event persisted with its exact durable effect.
#[derive(Clone, PartialEq, Eq)]
pub struct CompactAgentRun {
    /// Exact next event sequence represented by this compaction.
    pub last_sequence: u64,
    /// Completed model rounds.
    pub model_rounds: u64,
    /// Started tool calls.
    pub tool_calls: u64,
    /// Accumulated provider input tokens.
    pub input_tokens: u64,
    /// Accumulated provider output tokens.
    pub output_tokens: u64,
    /// Accumulated provider total tokens.
    pub total_tokens: u64,
    /// Exact no-op, deterministic-trim, or summary effect.
    pub compaction: AgentCompaction,
}

/// Durable compaction progress and its optional atomically inserted summary.
#[derive(Clone, PartialEq, Eq)]
pub struct CompactedAgentRun {
    /// Updated durable run snapshot.
    pub run: AgentRunRecord,
    /// Summary appended by the same transaction, if summary compaction won.
    pub summary_message: Option<AgentMessageRecord>,
}

/// One complete provider-neutral message appended as part of a run transaction.
#[derive(Clone, PartialEq, Eq)]
pub struct AgentRunMessage {
    /// Assistant or tool role. Summary messages use [`CompactAgentRun`].
    pub role: AgentMessageRole,
    /// Reserved for the role contract and required to be absent here.
    pub summary_through_ordinal: Option<u64>,
    /// Canonical provider-neutral message-content JSON array.
    pub content_json: String,
}

/// Successful run progress and the final canonical assistant message.
#[derive(Clone, PartialEq, Eq)]
pub struct CompleteAgentRun {
    /// Latest event sequence represented by the completed snapshot.
    pub last_sequence: u64,
    /// Completed model rounds.
    pub model_rounds: u64,
    /// Started tool calls.
    pub tool_calls: u64,
    /// Accumulated provider input tokens.
    pub input_tokens: u64,
    /// Accumulated provider output tokens.
    pub output_tokens: u64,
    /// Accumulated provider total tokens.
    pub total_tokens: u64,
    /// Ordered complete messages produced by the run; the last must be assistant.
    pub messages: Vec<AgentRunMessage>,
    /// Completed compaction passes.
    pub compaction_count: u64,
    /// Latest message ordinal represented by compacted context.
    pub compacted_through_ordinal: Option<u64>,
}

/// Durable run state, counters, usage, cancellation, and compaction metadata.
#[derive(Clone, PartialEq, Eq)]
pub struct AgentRunRecord {
    /// Opaque run id.
    pub id: String,
    /// Owning session id.
    pub session_id: String,
    /// Current lifecycle state.
    pub status: AgentRunStatus,
    /// SQL capability fixed when the run starts.
    pub sql_permission_mode: SqlPermissionMode,
    /// Latest event sequence represented by this snapshot.
    pub last_sequence: u64,
    /// Completed model rounds.
    pub model_rounds: u64,
    /// Started tool calls.
    pub tool_calls: u64,
    /// Accumulated provider input tokens.
    pub input_tokens: u64,
    /// Accumulated provider output tokens.
    pub output_tokens: u64,
    /// Accumulated provider total tokens.
    pub total_tokens: u64,
    /// Durable final assistant message id.
    pub message_id: Option<String>,
    /// Safe failure code, if any.
    pub error_code: Option<String>,
    /// Safe failure text, if any.
    pub error_message: Option<String>,
    /// Durable cancellation bit.
    pub cancel_requested: bool,
    /// Tool call whose approved database write may currently be executing.
    pub write_in_flight_tool_call_id: Option<String>,
    /// Exact argument digest for the write-dispatch fence.
    pub write_in_flight_arguments_sha256: Option<[u8; 32]>,
    /// Completed compaction passes.
    pub compaction_count: u64,
    /// Latest compacted message ordinal.
    pub compacted_through_ordinal: Option<u64>,
    /// Creation time as Unix epoch milliseconds.
    pub created_at_ms: i64,
    /// Last mutation time as Unix epoch milliseconds.
    pub updated_at_ms: i64,
    /// First execution time.
    pub started_at_ms: Option<i64>,
    /// Terminal time.
    pub finished_at_ms: Option<i64>,
}

/// Successful terminal transition and its atomically inserted assistant message.
#[derive(Clone, PartialEq, Eq)]
pub struct CompletedAgentRun {
    /// Completed durable run snapshot.
    pub run: AgentRunRecord,
    /// Ordered messages appended by the terminal transaction.
    pub messages: Vec<AgentMessageRecord>,
}

/// Failed run progress, safe error, and any complete messages produced first.
#[derive(Clone, PartialEq, Eq)]
pub struct FailAgentRun {
    /// Latest event sequence represented by the failed snapshot.
    pub last_sequence: u64,
    /// Completed model rounds.
    pub model_rounds: u64,
    /// Started tool calls.
    pub tool_calls: u64,
    /// Accumulated provider input tokens.
    pub input_tokens: u64,
    /// Accumulated provider output tokens.
    pub output_tokens: u64,
    /// Accumulated provider total tokens.
    pub total_tokens: u64,
    /// Safe, bounded machine-readable failure code.
    pub error_code: String,
    /// Optional safe, bounded user-visible failure text.
    pub error_message: Option<String>,
    /// Complete assistant/tool messages available before failure.
    pub messages: Vec<AgentRunMessage>,
    /// Completed compaction passes.
    pub compaction_count: u64,
    /// Latest message ordinal represented by compacted context.
    pub compacted_through_ordinal: Option<u64>,
}

/// Failed durable run and messages atomically appended with it.
#[derive(Clone, PartialEq, Eq)]
pub struct FailedAgentRun {
    /// Failed durable run snapshot.
    pub run: AgentRunRecord,
    /// Ordered messages appended by the terminal transaction.
    pub messages: Vec<AgentMessageRecord>,
}

/// Cancelled run progress and complete messages produced before cancellation.
#[derive(Clone, PartialEq, Eq)]
pub struct CancelAgentRun {
    /// Latest event sequence represented by the cancelled snapshot.
    pub last_sequence: u64,
    /// Completed model rounds.
    pub model_rounds: u64,
    /// Started tool calls.
    pub tool_calls: u64,
    /// Accumulated provider input tokens.
    pub input_tokens: u64,
    /// Accumulated provider output tokens.
    pub output_tokens: u64,
    /// Accumulated provider total tokens.
    pub total_tokens: u64,
    /// Complete assistant/tool messages available before cancellation.
    pub messages: Vec<AgentRunMessage>,
    /// Completed compaction passes.
    pub compaction_count: u64,
    /// Latest message ordinal represented by compacted context.
    pub compacted_through_ordinal: Option<u64>,
}

/// Cancelled durable run and messages atomically appended with it.
#[derive(Clone, PartialEq, Eq)]
pub struct CancelledAgentRun {
    /// Cancelled durable run snapshot.
    pub run: AgentRunRecord,
    /// Ordered messages appended by the terminal transaction.
    pub messages: Vec<AgentMessageRecord>,
}

/// Progress and complete messages for a database write with an unknown outcome.
#[derive(Clone, PartialEq, Eq)]
pub struct UnknownAgentWrite {
    /// Latest event sequence represented by the failed snapshot.
    pub last_sequence: u64,
    /// Completed model rounds.
    pub model_rounds: u64,
    /// Started tool calls.
    pub tool_calls: u64,
    /// Accumulated provider input tokens.
    pub input_tokens: u64,
    /// Accumulated provider output tokens.
    pub output_tokens: u64,
    /// Accumulated provider total tokens.
    pub total_tokens: u64,
    /// Complete assistant/tool messages available before the unknown outcome.
    pub messages: Vec<AgentRunMessage>,
    /// Completed compaction passes.
    pub compaction_count: u64,
    /// Latest message ordinal represented by compacted context.
    pub compacted_through_ordinal: Option<u64>,
}

/// Exact write operation placed behind a one-shot approval gate.
pub struct RequestToolPermission {
    /// Caller-selected tool-call id.
    pub tool_call_id: String,
    /// Registered write-tool name.
    pub tool_name: String,
    /// SHA-256 of the exact canonical arguments.
    pub arguments_sha256: [u8; 32],
    /// Bounded user-visible operation summary.
    pub summary: String,
    /// Event sequence for the permission-requested snapshot.
    pub last_sequence: u64,
    /// Maximum time this approval can remain executable.
    pub retention: Duration,
}

/// Durable permission bound to one run, tool call, and argument digest.
#[derive(Clone, PartialEq, Eq)]
pub struct ToolPermissionRecord {
    /// Opaque permission id.
    pub id: String,
    /// Owning run id.
    pub run_id: String,
    /// Caller-selected tool-call id.
    pub tool_call_id: String,
    /// Registered tool name displayed at the approval boundary.
    pub tool_name: String,
    /// SHA-256 of the exact canonical arguments authorized by the user.
    pub arguments_sha256: [u8; 32],
    /// Bounded user-visible operation summary.
    pub summary: String,
    /// Current one-shot state.
    pub status: ToolPermissionStatus,
    /// Monotonic CAS revision.
    pub revision: u64,
    /// Expiry time as Unix epoch milliseconds.
    pub expires_at_ms: i64,
    /// Creation time.
    pub created_at_ms: i64,
    /// Last mutation time.
    pub updated_at_ms: i64,
    /// Successful consume time.
    pub consumed_at_ms: Option<i64>,
}

/// Opaque, ownership-bound mapping to an existing retained result.
#[derive(Debug, Clone, PartialEq, Eq)]
pub struct AgentResultHandle {
    /// Opaque handle id exposed to the agent/tool layer.
    pub id: String,
    /// Owning session id.
    pub session_id: String,
    /// Owning run id.
    pub run_id: String,
    /// Existing retained-result id; no result bytes are duplicated here.
    pub result_id: String,
    /// Creation time.
    pub created_at_ms: i64,
    /// Effective expiry, never later than the retained result.
    pub expires_at_ms: i64,
}

} // verus!
