use std::time::Duration;

use vstd::prelude::*;

use crate::agent::model;
use crate::agent::status::{
    AgentMessageRole, AgentRunStatus, SqlPermissionMode, ToolPermissionStatus,
};
use crate::text::{byte_len, optional_byte_len, text_len};

verus! {

fn optional_text_len(text: &Option<String>) -> (result: usize)
    ensures
        result == optional_byte_len(*text),
{
    match text {
        Some(text) => text_len(text.as_str()),
        None => 0,
    }
}

/// Printable form of a session request.
#[derive(Debug, Clone, PartialEq, Eq)]
pub struct CreateAgentSession {
    /// UTF-8 length of the title.
    pub title_bytes: usize,
    /// The provider id, as it stands.
    pub provider_id: String,
    /// The datasource id, as it stands.
    pub datasource_id: Option<String>,
    /// UTF-8 length of the system instruction, zero without one.
    pub system_prompt_bytes: usize,
}

impl model::CreateAgentSession {
    /// Leaves out of a session request the text that a log must not show.
    pub fn redacted(&self) -> (result: CreateAgentSession)
        ensures
            result.title_bytes == byte_len(self.title@),
            result.provider_id == self.provider_id,
            result.datasource_id == self.datasource_id,
            result.system_prompt_bytes == optional_byte_len(self.system_prompt),
    {
        CreateAgentSession {
            title_bytes: text_len(self.title.as_str()),
            provider_id: self.provider_id.clone(),
            datasource_id: self.datasource_id.clone(),
            system_prompt_bytes: optional_text_len(&self.system_prompt),
        }
    }
}

/// Printable form of a message append request.
#[derive(Debug, Clone, PartialEq, Eq)]
pub struct AppendAgentMessage {
    /// The role, as it stands.
    pub role: AgentMessageRole,
    /// The summary through ordinal, as it stands.
    pub summary_through_ordinal: Option<u64>,
    /// UTF-8 length of the content.
    pub content_json_bytes: usize,
}

impl model::AppendAgentMessage {
    /// Leaves out of a message append request the text that a log must not show.
    pub fn redacted(&self) -> (result: AppendAgentMessage)
        ensures
            result.role == self.role,
            result.summary_through_ordinal == self.summary_through_ordinal,
            result.content_json_bytes == byte_len(self.content_json@),
    {
        AppendAgentMessage {
            role: self.role,
            summary_through_ordinal: self.summary_through_ordinal,
            content_json_bytes: text_len(self.content_json.as_str()),
        }
    }
}

/// Printable form of a stored message.
#[derive(Debug, Clone, PartialEq, Eq)]
pub struct AgentMessageRecord {
    /// The id, as it stands.
    pub id: String,
    /// The session id, as it stands.
    pub session_id: String,
    /// The run id, as it stands.
    pub run_id: Option<String>,
    /// The ordinal, as it stands.
    pub ordinal: u64,
    /// The role, as it stands.
    pub role: AgentMessageRole,
    /// The summary through ordinal, as it stands.
    pub summary_through_ordinal: Option<u64>,
    /// UTF-8 length of the content.
    pub content_json_bytes: usize,
    /// The content bytes, as it stands.
    pub content_bytes: u64,
    /// The created at ms, as it stands.
    pub created_at_ms: i64,
}

impl model::AgentMessageRecord {
    /// Leaves out of a stored message the text that a log must not show.
    pub fn redacted(&self) -> (result: AgentMessageRecord)
        ensures
            result.id == self.id,
            result.session_id == self.session_id,
            result.run_id == self.run_id,
            result.ordinal == self.ordinal,
            result.role == self.role,
            result.summary_through_ordinal == self.summary_through_ordinal,
            result.content_json_bytes == byte_len(self.content_json@),
            result.content_bytes == self.content_bytes,
            result.created_at_ms == self.created_at_ms,
    {
        AgentMessageRecord {
            id: self.id.clone(),
            session_id: self.session_id.clone(),
            run_id: self.run_id.clone(),
            ordinal: self.ordinal,
            role: self.role,
            summary_through_ordinal: self.summary_through_ordinal,
            content_json_bytes: text_len(self.content_json.as_str()),
            content_bytes: self.content_bytes,
            created_at_ms: self.created_at_ms,
        }
    }
}

/// Printable form of a run request.
#[derive(Debug, Clone, PartialEq, Eq)]
pub struct StartAgentRun {
    /// UTF-8 length of the user message.
    pub user_message_bytes: usize,
    /// The sql permission mode, as it stands.
    pub sql_permission_mode: SqlPermissionMode,
}

impl model::StartAgentRun {
    /// Leaves out of a run request the text that a log must not show.
    pub fn redacted(&self) -> (result: StartAgentRun)
        ensures
            result.user_message_bytes == byte_len(self.user_message@),
            result.sql_permission_mode == self.sql_permission_mode,
    {
        StartAgentRun {
            user_message_bytes: text_len(self.user_message.as_str()),
            sql_permission_mode: self.sql_permission_mode,
        }
    }
}

/// Printable form of a message of a run.
#[derive(Debug, Clone, PartialEq, Eq)]
pub struct AgentRunMessage {
    /// The role, as it stands.
    pub role: AgentMessageRole,
    /// The summary through ordinal, as it stands.
    pub summary_through_ordinal: Option<u64>,
    /// UTF-8 length of the content.
    pub content_json_bytes: usize,
}

/// `shown` is `message` with its content replaced by the content's length.
pub open spec fn is_redacted_message(
    message: model::AgentRunMessage,
    shown: AgentRunMessage,
) -> bool {
    &&& shown.role == message.role
    &&& shown.summary_through_ordinal == message.summary_through_ordinal
    &&& shown.content_json_bytes == byte_len(message.content_json@)
}

impl model::AgentRunMessage {
    /// Leaves out of a message of a run the text that a log must not show.
    pub fn redacted(&self) -> (result: AgentRunMessage)
        ensures
            is_redacted_message(*self, result),
    {
        AgentRunMessage {
            role: self.role,
            summary_through_ordinal: self.summary_through_ordinal,
            content_json_bytes: text_len(self.content_json.as_str()),
        }
    }
}

/// Printable form of a stored run.
#[derive(Debug, Clone, PartialEq, Eq)]
pub struct AgentRunRecord {
    /// The id, as it stands.
    pub id: String,
    /// The session id, as it stands.
    pub session_id: String,
    /// The status, as it stands.
    pub status: AgentRunStatus,
    /// The sql permission mode, as it stands.
    pub sql_permission_mode: SqlPermissionMode,
    /// The last sequence, as it stands.
    pub last_sequence: u64,
    /// The model rounds, as it stands.
    pub model_rounds: u64,
    /// The tool calls, as it stands.
    pub tool_calls: u64,
    /// The input tokens, as it stands.
    pub input_tokens: u64,
    /// The output tokens, as it stands.
    pub output_tokens: u64,
    /// The total tokens, as it stands.
    pub total_tokens: u64,
    /// The message id, as it stands.
    pub message_id: Option<String>,
    /// The error code, as it stands.
    pub error_code: Option<String>,
    /// UTF-8 length of the failure text, zero without one.
    pub error_message_bytes: usize,
    /// The cancel requested, as it stands.
    pub cancel_requested: bool,
    /// The write in flight tool call id, as it stands.
    pub write_in_flight_tool_call_id: Option<String>,
    /// Whether a write-dispatch fence carries an argument digest.
    pub has_write_in_flight_arguments_sha256: bool,
    /// The compaction count, as it stands.
    pub compaction_count: u64,
    /// The compacted through ordinal, as it stands.
    pub compacted_through_ordinal: Option<u64>,
    /// The created at ms, as it stands.
    pub created_at_ms: i64,
    /// The updated at ms, as it stands.
    pub updated_at_ms: i64,
    /// The started at ms, as it stands.
    pub started_at_ms: Option<i64>,
    /// The finished at ms, as it stands.
    pub finished_at_ms: Option<i64>,
}

impl model::AgentRunRecord {
    /// Leaves out of a stored run the text that a log must not show.
    pub fn redacted(&self) -> (result: AgentRunRecord)
        ensures
            result.id == self.id,
            result.session_id == self.session_id,
            result.status == self.status,
            result.sql_permission_mode == self.sql_permission_mode,
            result.last_sequence == self.last_sequence,
            result.model_rounds == self.model_rounds,
            result.tool_calls == self.tool_calls,
            result.input_tokens == self.input_tokens,
            result.output_tokens == self.output_tokens,
            result.total_tokens == self.total_tokens,
            result.message_id == self.message_id,
            result.error_code == self.error_code,
            result.error_message_bytes == optional_byte_len(self.error_message),
            result.cancel_requested == self.cancel_requested,
            result.write_in_flight_tool_call_id == self.write_in_flight_tool_call_id,
            result.has_write_in_flight_arguments_sha256 == self.write_in_flight_arguments_sha256 is Some,
            result.compaction_count == self.compaction_count,
            result.compacted_through_ordinal == self.compacted_through_ordinal,
            result.created_at_ms == self.created_at_ms,
            result.updated_at_ms == self.updated_at_ms,
            result.started_at_ms == self.started_at_ms,
            result.finished_at_ms == self.finished_at_ms,
    {
        AgentRunRecord {
            id: self.id.clone(),
            session_id: self.session_id.clone(),
            status: self.status,
            sql_permission_mode: self.sql_permission_mode,
            last_sequence: self.last_sequence,
            model_rounds: self.model_rounds,
            tool_calls: self.tool_calls,
            input_tokens: self.input_tokens,
            output_tokens: self.output_tokens,
            total_tokens: self.total_tokens,
            message_id: self.message_id.clone(),
            error_code: self.error_code.clone(),
            error_message_bytes: optional_text_len(&self.error_message),
            cancel_requested: self.cancel_requested,
            write_in_flight_tool_call_id: self.write_in_flight_tool_call_id.clone(),
            has_write_in_flight_arguments_sha256: self.write_in_flight_arguments_sha256.is_some(),
            compaction_count: self.compaction_count,
            compacted_through_ordinal: self.compacted_through_ordinal,
            created_at_ms: self.created_at_ms,
            updated_at_ms: self.updated_at_ms,
            started_at_ms: self.started_at_ms,
            finished_at_ms: self.finished_at_ms,
        }
    }
}

/// Printable form of a permission request.
#[derive(Debug)]
pub struct RequestToolPermission {
    /// The tool call id, as it stands.
    pub tool_call_id: String,
    /// The tool name, as it stands.
    pub tool_name: String,
    /// The arguments sha256, as it stands.
    pub arguments_sha256: [u8; 32],
    /// UTF-8 length of the operation summary.
    pub summary_bytes: usize,
    /// The last sequence, as it stands.
    pub last_sequence: u64,
    /// The retention, as it stands.
    pub retention: Duration,
}

impl model::RequestToolPermission {
    /// Leaves out of a permission request the text that a log must not show.
    pub fn redacted(&self) -> (result: RequestToolPermission)
        ensures
            result.tool_call_id == self.tool_call_id,
            result.tool_name == self.tool_name,
            result.arguments_sha256 == self.arguments_sha256,
            result.summary_bytes == byte_len(self.summary@),
            result.last_sequence == self.last_sequence,
            result.retention == self.retention,
    {
        RequestToolPermission {
            tool_call_id: self.tool_call_id.clone(),
            tool_name: self.tool_name.clone(),
            arguments_sha256: self.arguments_sha256,
            summary_bytes: text_len(self.summary.as_str()),
            last_sequence: self.last_sequence,
            retention: self.retention,
        }
    }
}

/// Printable form of a stored permission.
#[derive(Debug, Clone, PartialEq, Eq)]
pub struct ToolPermissionRecord {
    /// The id, as it stands.
    pub id: String,
    /// The run id, as it stands.
    pub run_id: String,
    /// The tool call id, as it stands.
    pub tool_call_id: String,
    /// The tool name, as it stands.
    pub tool_name: String,
    /// The arguments sha256, as it stands.
    pub arguments_sha256: [u8; 32],
    /// UTF-8 length of the operation summary.
    pub summary_bytes: usize,
    /// The status, as it stands.
    pub status: ToolPermissionStatus,
    /// The revision, as it stands.
    pub revision: u64,
    /// The expires at ms, as it stands.
    pub expires_at_ms: i64,
    /// The created at ms, as it stands.
    pub created_at_ms: i64,
    /// The updated at ms, as it stands.
    pub updated_at_ms: i64,
    /// The consumed at ms, as it stands.
    pub consumed_at_ms: Option<i64>,
}

impl model::ToolPermissionRecord {
    /// Leaves out of a stored permission the text that a log must not show.
    pub fn redacted(&self) -> (result: ToolPermissionRecord)
        ensures
            result.id == self.id,
            result.run_id == self.run_id,
            result.tool_call_id == self.tool_call_id,
            result.tool_name == self.tool_name,
            result.arguments_sha256 == self.arguments_sha256,
            result.summary_bytes == byte_len(self.summary@),
            result.status == self.status,
            result.revision == self.revision,
            result.expires_at_ms == self.expires_at_ms,
            result.created_at_ms == self.created_at_ms,
            result.updated_at_ms == self.updated_at_ms,
            result.consumed_at_ms == self.consumed_at_ms,
    {
        ToolPermissionRecord {
            id: self.id.clone(),
            run_id: self.run_id.clone(),
            tool_call_id: self.tool_call_id.clone(),
            tool_name: self.tool_name.clone(),
            arguments_sha256: self.arguments_sha256,
            summary_bytes: text_len(self.summary.as_str()),
            status: self.status,
            revision: self.revision,
            expires_at_ms: self.expires_at_ms,
            created_at_ms: self.created_at_ms,
            updated_at_ms: self.updated_at_ms,
            consumed_at_ms: self.consumed_at_ms,
        }
    }
}

/// Printable form of a compaction effect.
#[derive(Debug, Clone, PartialEq, Eq)]
pub enum AgentCompaction {
    /// Nothing was removed.
    NoOp,
    /// Whole turns were discarded.
    DeterministicTrim {
        /// Greatest ordinal removed.
        compacted_through_ordinal: u64,
    },
    /// Whole turns were replaced by a summary.
    Summary {
        /// Greatest ordinal represented.
        compacted_through_ordinal: u64,
        /// UTF-8 length of the summary content.
        content_json_bytes: usize,
    },
}

/// `shown` is `effect` with a summary's text replaced by its length.
pub open spec fn is_redacted_compaction(
    effect: model::AgentCompaction,
    shown: AgentCompaction,
) -> bool {
    match effect {
        model::AgentCompaction::NoOp => shown is NoOp,
        model::AgentCompaction::DeterministicTrim { compacted_through_ordinal } => {
            &&& shown is DeterministicTrim
            &&& shown->DeterministicTrim_compacted_through_ordinal
                == compacted_through_ordinal
        },
        model::AgentCompaction::Summary { compacted_through_ordinal, content_json } => {
            &&& shown is Summary
            &&& shown->Summary_compacted_through_ordinal == compacted_through_ordinal
            &&& shown->content_json_bytes == byte_len(content_json@)
        },
    }
}

impl model::AgentCompaction {
    /// Leaves out of a compaction effect the text that a log must not show.
    pub fn redacted(&self) -> (result: AgentCompaction)
        ensures
            is_redacted_compaction(*self, result),
    {
        match self {
            model::AgentCompaction::NoOp => AgentCompaction::NoOp,
            model::AgentCompaction::DeterministicTrim { compacted_through_ordinal } => {
                AgentCompaction::DeterministicTrim {
                    compacted_through_ordinal: *compacted_through_ordinal,
                }
            },
            model::AgentCompaction::Summary { compacted_through_ordinal, content_json } => {
                AgentCompaction::Summary {
                    compacted_through_ordinal: *compacted_through_ordinal,
                    content_json_bytes: text_len(content_json.as_str()),
                }
            },
        }
    }
}

/// Printable form of a compaction request.
#[derive(Debug, Clone, PartialEq, Eq)]
pub struct CompactAgentRun {
    /// The last sequence, as it stands.
    pub last_sequence: u64,
    /// The model rounds, as it stands.
    pub model_rounds: u64,
    /// The tool calls, as it stands.
    pub tool_calls: u64,
    /// The input tokens, as it stands.
    pub input_tokens: u64,
    /// The output tokens, as it stands.
    pub output_tokens: u64,
    /// The total tokens, as it stands.
    pub total_tokens: u64,
    /// The effect, without the summary text.
    pub compaction: AgentCompaction,
}

impl model::CompactAgentRun {
    /// Leaves out of a compaction request the text that a log must not show.
    pub fn redacted(&self) -> (result: CompactAgentRun)
        ensures
            result.last_sequence == self.last_sequence,
            result.model_rounds == self.model_rounds,
            result.tool_calls == self.tool_calls,
            result.input_tokens == self.input_tokens,
            result.output_tokens == self.output_tokens,
            result.total_tokens == self.total_tokens,
            is_redacted_compaction(self.compaction, result.compaction),
    {
        CompactAgentRun {
            last_sequence: self.last_sequence,
            model_rounds: self.model_rounds,
            tool_calls: self.tool_calls,
            input_tokens: self.input_tokens,
            output_tokens: self.output_tokens,
            total_tokens: self.total_tokens,
            compaction: self.compaction.redacted(),
        }
    }
}

/// Printable form of a failure request.
#[derive(Debug, Clone, PartialEq, Eq)]
pub struct FailAgentRun {
    /// The last sequence, as it stands.
    pub last_sequence: u64,
    /// The model rounds, as it stands.
    pub model_rounds: u64,
    /// The tool calls, as it stands.
    pub tool_calls: u64,
    /// The input tokens, as it stands.
    pub input_tokens: u64,
    /// The output tokens, as it stands.
    pub output_tokens: u64,
    /// The total tokens, as it stands.
    pub total_tokens: u64,
    /// The error code, as it stands.
    pub error_code: String,
    /// UTF-8 length of the failure text, zero without one.
    pub error_message_bytes: usize,
    /// The messages, each without its content.
    pub messages: Vec<AgentRunMessage>,
    /// The compaction count, as it stands.
    pub compaction_count: u64,
    /// The compacted through ordinal, as it stands.
    pub compacted_through_ordinal: Option<u64>,
}

impl model::FailAgentRun {
    /// Leaves out of a failure request the text that a log must not show.
    pub fn redacted(&self) -> (result: FailAgentRun)
        ensures
            result.last_sequence == self.last_sequence,
            result.model_rounds == self.model_rounds,
            result.tool_calls == self.tool_calls,
            result.input_tokens == self.input_tokens,
            result.output_tokens == self.output_tokens,
            result.total_tokens == self.total_tokens,
            result.error_code == self.error_code,
            result.error_message_bytes == optional_byte_len(self.error_message),
            result.messages@.len() == self.messages@.len(),
            forall|i: int|
                0 <= i < self.messages@.len() ==> is_redacted_message(
                    self.messages@[i],
                    #[trigger] result.messages@[i],
                ),
            result.compaction_count == self.compaction_count,
            result.compacted_through_ordinal == self.compacted_through_ordinal,
    {
        let mut messages: Vec<AgentRunMessage> = Vec::new();
        for index in 0..self.messages.len()
            invariant
                messages@.len() == index,
                forall|i: int|
                    0 <= i < index ==> is_redacted_message(
                        self.messages@[i],
                        #[trigger] messages@[i],
                    ),
        {
            messages.push(self.messages[index].redacted());
        }
        FailAgentRun {
            last_sequence: self.last_sequence,
            model_rounds: self.model_rounds,
            tool_calls: self.tool_calls,
            input_tokens: self.input_tokens,
            output_tokens: self.output_tokens,
            total_tokens: self.total_tokens,
            error_code: self.error_code.clone(),
            error_message_bytes: optional_text_len(&self.error_message),
            messages,
            compaction_count: self.compaction_count,
            compacted_through_ordinal: self.compacted_through_ordinal,
        }
    }
}

} // verus!
