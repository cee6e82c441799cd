use vstd::prelude::*;

use crate::error::StorageError;
use crate::text::same_text;

verus! {

/// Persisted role of an agent message.
#[derive(Debug, Clone, Copy, PartialEq, Eq, Structural)]
pub enum AgentMessageRole {
    /// Immutable system instructions.
    System,
    /// User input.
    User,
    /// Visible assistant output.
    Assistant,
    /// Tool output.
    Tool,
    /// Summary that stands for compacted history.
    Summary,
}

impl AgentMessageRole {
    /// The name under which the value is persisted.
    pub open spec fn name(self) -> &'static str {
        match self {
            AgentMessageRole::System => "system",
            AgentMessageRole::User => "user",
            AgentMessageRole::Assistant => "assistant",
            AgentMessageRole::Tool => "tool",
            AgentMessageRole::Summary => "summary",
        }
    }

    /// The value persisted under a name.
    pub open spec fn persisted(text: Seq<char>) -> Result<AgentMessageRole, StorageError> {
        if text == AgentMessageRole::System.name()@ {
            Ok(AgentMessageRole::System)
        } else if text == AgentMessageRole::User.name()@ {
            Ok(AgentMessageRole::User)
        } else if text == AgentMessageRole::Assistant.name()@ {
            Ok(AgentMessageRole::Assistant)
        } else if text == AgentMessageRole::Tool.name()@ {
            Ok(AgentMessageRole::Tool)
        } else if text == AgentMessageRole::Summary.name()@ {
            Ok(AgentMessageRole::Summary)
        } else {
            Err(StorageError::InvalidAgent("persisted message role is invalid"))
        }
    }

    /// Returns the name under which the value is persisted.
    pub fn as_str(self) -> (result: &'static str)
        ensures
            result == self.name(),
    {
        match self {
            AgentMessageRole::System => "system",
            AgentMessageRole::User => "user",
            AgentMessageRole::Assistant => "assistant",
            AgentMessageRole::Tool => "tool",
            AgentMessageRole::Summary => "summary",
        }
    }

    /// Reads a persisted name.
    pub fn from_persisted(value: &str) -> (result: Result<AgentMessageRole, StorageError>)
        ensures
            result == AgentMessageRole::persisted(value@),
    {
        if same_text(value, "system") {
            Ok(AgentMessageRole::System)
        } else if same_text(value, "user") {
            Ok(AgentMessageRole::User)
        } else if same_text(value, "assistant") {
            Ok(AgentMessageRole::Assistant)
        } else if same_text(value, "tool") {
            Ok(AgentMessageRole::Tool)
        } else if same_text(value, "summary") {
            Ok(AgentMessageRole::Summary)
        } else {
            Err(StorageError::InvalidAgent("persisted message role is invalid"))
        }
    }

}

/// A persisted name reads back as the value it was written for.
pub proof fn law_message_role_round_trip(value: AgentMessageRole)
    ensures
        AgentMessageRole::persisted(value.name()@) == Ok::<AgentMessageRole, StorageError>(value),
{
    reveal_strlit("system");
    reveal_strlit("user");
    reveal_strlit("assistant");
    reveal_strlit("tool");
    reveal_strlit("summary");
    assert("system"@.len() != "user"@.len());
    assert("system"@.len() != "assistant"@.len());
    assert("system"@.len() != "tool"@.len());
    assert("system"@.len() != "summary"@.len());
    assert("user"@.len() != "assistant"@.len());
    assert("user"@[0] != "tool"@[0]);
    assert("user"@.len() != "summary"@.len());
    assert("assistant"@.len() != "tool"@.len());
    assert("assistant"@.len() != "summary"@.len());
    assert("tool"@.len() != "summary"@.len());
}

/// SQL write policy of a run.
#[derive(Debug, Clone, Copy, PartialEq, Eq, Structural)]
pub enum SqlPermissionMode {
    /// Writes are never dispatched.
    ReadOnly,
    /// Every write needs an approved permission.
    AskBeforeWrite,
}

impl SqlPermissionMode {
    /// The name under which the value is persisted.
    pub open spec fn name(self) -> &'static str {
        match self {
            SqlPermissionMode::ReadOnly => "read_only",
            SqlPermissionMode::AskBeforeWrite => "ask_before_write",
        }
    }

    /// The value persisted under a name.
    pub open spec fn persisted(text: Seq<char>) -> Result<SqlPermissionMode, StorageError> {
        if text == SqlPermissionMode::ReadOnly.name()@ {
            Ok(SqlPermissionMode::ReadOnly)
        } else if text == SqlPermissionMode::AskBeforeWrite.name()@ {
            Ok(SqlPermissionMode::AskBeforeWrite)
        } else {
            Err(StorageError::InvalidAgent("persisted SQL permission mode is invalid"))
        }
    }

    /// Returns the name under which the value is persisted.
    pub fn as_str(self) -> (result: &'static str)
        ensures
            result == self.name(),
    {
        match self {
            SqlPermissionMode::ReadOnly => "read_only",
            SqlPermissionMode::AskBeforeWrite => "ask_before_write",
        }
    }

    /// Reads a persisted name.
    pub fn from_persisted(value: &str) -> (result: Result<SqlPermissionMode, StorageError>)
        ensures
            result == SqlPermissionMode::persisted(value@),
    {
        if same_text(value, "read_only") {
            Ok(SqlPermissionMode::ReadOnly)
        } else if same_text(value, "ask_before_write") {
            Ok(SqlPermissionMode::AskBeforeWrite)
        } else {
            Err(StorageError::InvalidAgent("persisted SQL permission mode is invalid"))
        }
    }

}

/// A persisted name reads back as the value it was written for.
pub proof fn law_permission_mode_round_trip(value: SqlPermissionMode)
    ensures
        SqlPermissionMode::persisted(value.name()@) == Ok::<SqlPermissionMode, StorageError>(value),
{
    reveal_strlit("read_only");
    reveal_strlit("ask_before_write");
    assert("read_only"@.len() != "ask_before_write"@.len());
}

impl Default for SqlPermissionMode {
    fn default() -> (result: SqlPermissionMode)
        ensures
            result == SqlPermissionMode::ReadOnly,
    {
        SqlPermissionMode::ReadOnly
    }
}

/// Durable lifecycle state of an agent run.
#[derive(Debug, Clone, Copy, PartialEq, Eq, Structural)]
pub enum AgentRunStatus {
    /// The run may make progress.
    Running,
    /// The run waits for a permission.
    WaitingPermission,
    /// The run ended with a final message.
    Completed,
    /// The run ended with an error.
    Failed,
    /// The run ended on request.
    Cancelled,
}

impl AgentRunStatus {
    /// The name under which the value is persisted.
    pub open spec fn name(self) -> &'static str {
        match self {
            AgentRunStatus::Running => "running",
            AgentRunStatus::WaitingPermission => "waiting_permission",
            AgentRunStatus::Completed => "completed",
            AgentRunStatus::Failed => "failed",
            AgentRunStatus::Cancelled => "cancelled",
        }
    }

    /// The value persisted under a name.
    pub open spec fn persisted(text: Seq<char>) -> Result<AgentRunStatus, StorageError> {
        if text == AgentRunStatus::Running.name()@ {
            Ok(AgentRunStatus::Running)
        } else if text == AgentRunStatus::WaitingPermission.name()@ {
            Ok(AgentRunStatus::WaitingPermission)
        } else if text == AgentRunStatus::Completed.name()@ {
            Ok(AgentRunStatus::Completed)
        } else if text == AgentRunStatus::Failed.name()@ {
            Ok(AgentRunStatus::Failed)
        } else if text == AgentRunStatus::Cancelled.name()@ {
            Ok(AgentRunStatus::Cancelled)
        } else {
            Err(StorageError::InvalidAgent("persisted run status is invalid"))
        }
    }

    /// Returns the name under which the value is persisted.
    pub fn as_str(self) -> (result: &'static str)
        ensures
            result == self.name(),
    {
        match self {
            AgentRunStatus::Running => "running",
            AgentRunStatus::WaitingPermission => "waiting_permission",
            AgentRunStatus::Completed => "completed",
            AgentRunStatus::Failed => "failed",
            AgentRunStatus::Cancelled => "cancelled",
        }
    }

    /// Reads a persisted name.
    pub fn from_persisted(value: &str) -> (result: Result<AgentRunStatus, StorageError>)
        ensures
            result == AgentRunStatus::persisted(value@),
    {
        if same_text(value, "running") {
            Ok(AgentRunStatus::Running)
        } else if same_text(value, "waiting_permission") {
            Ok(AgentRunStatus::WaitingPermission)
        } else if same_text(value, "completed") {
            Ok(AgentRunStatus::Completed)
        } else if same_text(value, "failed") {
            Ok(AgentRunStatus::Failed)
        } else if same_text(value, "cancelled") {
            Ok(AgentRunStatus::Cancelled)
        } else {
            Err(StorageError::InvalidAgent("persisted run status is invalid"))
        }
    }

}

/// A persisted name reads back as the value it was written for.
pub proof fn law_run_status_round_trip(value: AgentRunStatus)
    ensures
        AgentRunStatus::persisted(value.name()@) == Ok::<AgentRunStatus, StorageError>(value),
{
    reveal_strlit("running");
    reveal_strlit("waiting_permission");
    reveal_strlit("completed");
    reveal_strlit("failed");
    reveal_strlit("cancelled");
    assert("running"@.len() != "waiting_permission"@.len());
    assert("running"@.len() != "completed"@.len());
    assert("running"@.len() != "failed"@.len());
    assert("running"@.len() != "cancelled"@.len());
    assert("waiting_permission"@.len() != "completed"@.len());
    assert("waiting_permission"@.len() != "failed"@.len());
    assert("waiting_permission"@.len() != "cancelled"@.len());
    assert("completed"@.len() != "failed"@.len());
    assert("completed"@[1] != "cancelled"@[1]);
    assert("failed"@.len() != "cancelled"@.len());
}

/// Durable lifecycle state of a tool permission.
#[derive(Debug, Clone, Copy, PartialEq, Eq, Structural)]
pub enum ToolPermissionStatus {
    /// Awaiting a decision.
    Pending,
    /// Approved and not yet used.
    Approved,
    /// Denied by the user.
    Denied,
    /// Used for one dispatch.
    Consumed,
    /// Lapsed before it was used.
    Expired,
    /// Withdrawn with its run.
    Revoked,
}

impl ToolPermissionStatus {
    /// The name under which the value is persisted.
    pub open spec fn name(self) -> &'static str {
        match self {
            ToolPermissionStatus::Pending => "pending",
            ToolPermissionStatus::Approved => "approved",
            ToolPermissionStatus::Denied => "denied",
            ToolPermissionStatus::Consumed => "consumed",
            ToolPermissionStatus::Expired => "expired",
            ToolPermissionStatus::Revoked => "revoked",
        }
    }

    /// The value persisted under a name.
    pub open spec fn persisted(text: Seq<char>) -> Result<ToolPermissionStatus, StorageError> {
        if text == ToolPermissionStatus::Pending.name()@ {
            Ok(ToolPermissionStatus::Pending)
        } else if text == ToolPermissionStatus::Approved.name()@ {
            Ok(ToolPermissionStatus::Approved)
        } else if text == ToolPermissionStatus::Denied.name()@ {
            Ok(ToolPermissionStatus::Denied)
        } else if text == ToolPermissionStatus::Consumed.name()@ {
            Ok(ToolPermissionStatus::Consumed)
        } else if text == ToolPermissionStatus::Expired.name()@ {
            Ok(ToolPermissionStatus::Expired)
        } else if text == ToolPermissionStatus::Revoked.name()@ {
            Ok(ToolPermissionStatus::Revoked)
        } else {
            Err(StorageError::InvalidAgent("persisted tool permission status is invalid"))
        }
    }

    /// Returns the name under which the value is persisted.
    pub fn as_str(self) -> (result: &'static str)
        ensures
            result == self.name(),
    {
        match self {
            ToolPermissionStatus::Pending => "pending",
            ToolPermissionStatus::Approved => "approved",
            ToolPermissionStatus::Denied => "denied",
            ToolPermissionStatus::Consumed => "consumed",
            ToolPermissionStatus::Expired => "expired",
            ToolPermissionStatus::Revoked => "revoked",
        }
    }

    /// Reads a persisted name.
    pub fn from_persisted(value: &str) -> (result: Result<ToolPermissionStatus, StorageError>)
        ensures
            result == ToolPermissionStatus::persisted(value@),
    {
        if same_text(value, "pending") {
            Ok(ToolPermissionStatus::Pending)
        } else if same_text(value, "approved") {
            Ok(ToolPermissionStatus::Approved)
        } else if same_text(value, "denied") {
            Ok(ToolPermissionStatus::Denied)
        } else if same_text(value, "consumed") {
            Ok(ToolPermissionStatus::Consumed)
        } else if same_text(value, "expired") {
            Ok(ToolPermissionStatus::Expired)
        } else if same_text(value, "revoked") {
            Ok(ToolPermissionStatus::Revoked)
        } else {
            Err(StorageError::InvalidAgent("persisted tool permission status is invalid"))
        }
    }

}

/// A persisted name reads back as the value it was written for.
pub proof fn law_permission_status_round_trip(value: ToolPermissionStatus)
    ensures
        ToolPermissionStatus::persisted(value.name()@) == Ok::<ToolPermissionStatus, StorageError>(
            value,
        ),
{
    reveal_strlit("pending");
    reveal_strlit("approved");
    reveal_strlit("denied");
    reveal_strlit("consumed");
    reveal_strlit("expired");
    reveal_strlit("revoked");
    assert("pending"@.len() != "approved"@.len());
    assert("pending"@.len() != "denied"@.len());
    assert("pending"@.len() != "consumed"@.len());
    assert("pending"@[0] != "expired"@[0]);
    assert("pending"@[0] != "revoked"@[0]);
    assert("approved"@.len() != "denied"@.len());
    assert("approved"@[0] != "consumed"@[0]);
    assert("approved"@.len() != "expired"@.len());
    assert("approved"@.len() != "revoked"@.len());
    assert("denied"@.len() != "consumed"@.len());
    assert("denied"@.len() != "expired"@.len());
    assert("denied"@.len() != "revoked"@.len());
    assert("consumed"@.len() != "expired"@.len());
    assert("consumed"@.len() != "revoked"@.len());
    assert("expired"@[0] != "revoked"@[0]);
}

/// Decision on a pending tool permission.
#[derive(Debug, Clone, Copy, PartialEq, Eq, Structural)]
pub enum ToolPermissionDecision {
    /// Allow one dispatch of the bound call.
    Approve,
    /// Refuse the bound call.
    Deny,
}

impl AgentRunStatus {
    /// States that no operation leaves.
    pub open spec fn terminal(self) -> bool {
        self is Completed || self is Failed || self is Cancelled
    }

    /// The lifecycle: a live run may stay where it is, a running run may wait for a permission or
    /// end, and a waiting run may resume, fail or be cancelled.
    pub open spec fn may_become(self, next: AgentRunStatus) -> bool {
        match self {
            AgentRunStatus::Running => true,
            AgentRunStatus::WaitingPermission => !(next is Completed),
            _ => false,
        }
    }

    /// Tests whether the run has ended.
    pub fn is_terminal(self) -> (result: bool)
        ensures
            result == self.terminal(),
    {
        matches!(self, AgentRunStatus::Completed | AgentRunStatus::Failed | AgentRunStatus::Cancelled)
    }

    /// Tests whether the lifecycle admits a step.
    pub fn can_transition_to(self, next: AgentRunStatus) -> (result: bool)
        ensures
            result == self.may_become(next),
    {
        if self == next {
            return !self.is_terminal();
        }
        match self {
            AgentRunStatus::WaitingPermission => matches!(
                next,
                AgentRunStatus::Running | AgentRunStatus::Failed | AgentRunStatus::Cancelled
            ),
            AgentRunStatus::Running => true,
            _ => false,
        }
    }
}

/// Whatever a live run may become, an ended run becomes nothing.
pub proof fn law_terminal_states_are_final(status: AgentRunStatus, next: AgentRunStatus)
    ensures
        status.terminal() ==> !status.may_become(next),
        !status.terminal() ==> status.may_become(status),
{
}

/// Permission states from which nothing can be executed any more.
impl ToolPermissionStatus {
    /// States that a decision, a use, an expiry or a revocation may still change.
    pub open spec fn active(self) -> bool {
        self is Pending || self is Approved
    }

    /// Tests whether the permission may still change.
    pub fn is_active(self) -> (result: bool)
        ensures
            result == self.active(),
    {
        matches!(self, ToolPermissionStatus::Pending | ToolPermissionStatus::Approved)
    }
}

/// Each role is persisted under its own name, and no other name is read as a role.
pub proof fn law_message_role_names(text: Seq<char>)
    ensures
        AgentMessageRole::System.name()@ == "system"@,
        AgentMessageRole::User.name()@ == "user"@,
        AgentMessageRole::Assistant.name()@ == "assistant"@,
        AgentMessageRole::Tool.name()@ == "tool"@,
        AgentMessageRole::Summary.name()@ == "summary"@,
        AgentMessageRole::persisted("system"@)
            == Ok::<AgentMessageRole, StorageError>(AgentMessageRole::System),
        AgentMessageRole::persisted("user"@)
            == Ok::<AgentMessageRole, StorageError>(AgentMessageRole::User),
        AgentMessageRole::persisted("assistant"@)
            == Ok::<AgentMessageRole, StorageError>(AgentMessageRole::Assistant),
        AgentMessageRole::persisted("tool"@)
            == Ok::<AgentMessageRole, StorageError>(AgentMessageRole::Tool),
        AgentMessageRole::persisted("summary"@)
            == Ok::<AgentMessageRole, StorageError>(AgentMessageRole::Summary),
        text != "system"@ && text != "user"@ && text != "assistant"@ && text != "tool"@
            && text != "summary"@ ==> AgentMessageRole::persisted(text) is Err,
{
    reveal_strlit("system");
    reveal_strlit("user");
    reveal_strlit("assistant");
    reveal_strlit("tool");
    reveal_strlit("summary");
    assert("user"@.len() != "system"@.len());
    assert("assistant"@.len() != "system"@.len());
    assert("assistant"@.len() != "user"@.len());
    assert("tool"@.len() != "system"@.len());
    assert("tool"@[0] != "user"@[0]);
    assert("tool"@.len() != "assistant"@.len());
    assert("summary"@.len() != "system"@.len());
    assert("summary"@.len() != "user"@.len());
    assert("summary"@.len() != "assistant"@.len());
    assert("summary"@.len() != "tool"@.len());
}

/// Each mode is persisted under its own name, and no other name is read as a mode.
pub proof fn law_permission_mode_names(text: Seq<char>)
    ensures
        SqlPermissionMode::ReadOnly.name()@ == "read_only"@,
        SqlPermissionMode::AskBeforeWrite.name()@ == "ask_before_write"@,
        SqlPermissionMode::persisted("read_only"@)
            == Ok::<SqlPermissionMode, StorageError>(SqlPermissionMode::ReadOnly),
        SqlPermissionMode::persisted("ask_before_write"@)
            == Ok::<SqlPermissionMode, StorageError>(SqlPermissionMode::AskBeforeWrite),
        text != "read_only"@ && text != "ask_before_write"@
            ==> SqlPermissionMode::persisted(text) is Err,
{
    reveal_strlit("read_only");
    reveal_strlit("ask_before_write");
    assert("ask_before_write"@.len() != "read_only"@.len());
}

/// Each state of a run is persisted under its own name, and no other name is read as a state.
pub proof fn law_run_status_names(text: Seq<char>)
    ensures
        AgentRunStatus::Running.name()@ == "running"@,
        AgentRunStatus::WaitingPermission.name()@ == "waiting_permission"@,
        AgentRunStatus::Completed.name()@ == "completed"@,
        AgentRunStatus::Failed.name()@ == "failed"@,
        AgentRunStatus::Cancelled.name()@ == "cancelled"@,
        AgentRunStatus::persisted("running"@)
            == Ok::<AgentRunStatus, StorageError>(AgentRunStatus::Running),
        AgentRunStatus::persisted("waiting_permission"@)
            == Ok::<AgentRunStatus, StorageError>(AgentRunStatus::WaitingPermission),
        AgentRunStatus::persisted("completed"@)
            == Ok::<AgentRunStatus, StorageError>(AgentRunStatus::Completed),
        AgentRunStatus::persisted("failed"@)
            == Ok::<AgentRunStatus, StorageError>(AgentRunStatus::Failed),
        AgentRunStatus::persisted("cancelled"@)
            == Ok::<AgentRunStatus, StorageError>(AgentRunStatus::Cancelled),
        text != "running"@ && text != "waiting_permission"@ && text != "completed"@
            && text != "failed"@ && text != "cancelled"@ ==> AgentRunStatus::persisted(text) is Err,
{
    reveal_strlit("running");
    reveal_strlit("waiting_permission");
    reveal_strlit("completed");
    reveal_strlit("failed");
    reveal_strlit("cancelled");
    assert("waiting_permission"@.len() != "running"@.len());
    assert("completed"@.len() != "running"@.len());
    assert("completed"@.len() != "waiting_permission"@.len());
    assert("failed"@.len() != "running"@.len());
    assert("failed"@.len() != "waiting_permission"@.len());
    assert("failed"@.len() != "completed"@.len());
    assert("cancelled"@.len() != "running"@.len());
    assert("cancelled"@.len() != "waiting_permission"@.len());
    assert("cancelled"@[1] != "completed"@[1]);
    assert("cancelled"@.len() != "failed"@.len());
}

/// Each state of a permission is persisted under its own name, and no other name is read as one.
pub proof fn law_permission_status_names(text: Seq<char>)
    ensures
        ToolPermissionStatus::Pending.name()@ == "pending"@,
        ToolPermissionStatus::Approved.name()@ == "approved"@,
        ToolPermissionStatus::Denied.name()@ == "denied"@,
        ToolPermissionStatus::Consumed.name()@ == "consumed"@,
        ToolPermissionStatus::Expired.name()@ == "expired"@,
        ToolPermissionStatus::Revoked.name()@ == "revoked"@,
        ToolPermissionStatus::persisted("pending"@)
            == Ok::<ToolPermissionStatus, StorageError>(ToolPermissionStatus::Pending),
        ToolPermissionStatus::persisted("approved"@)
            == Ok::<ToolPermissionStatus, StorageError>(ToolPermissionStatus::Approved),
        ToolPermissionStatus::persisted("denied"@)
            == Ok::<ToolPermissionStatus, StorageError>(ToolPermissionStatus::Denied),
        ToolPermissionStatus::persisted("consumed"@)
            == Ok::<ToolPermissionStatus, StorageError>(ToolPermissionStatus::Consumed),
        ToolPermissionStatus::persisted("expired"@)
            == Ok::<ToolPermissionStatus, StorageError>(ToolPermissionStatus::Expired),
        ToolPermissionStatus::persisted("revoked"@)
            == Ok::<ToolPermissionStatus, StorageError>(ToolPermissionStatus::Revoked),
        text != "pending"@ && text != "approved"@ && text != "denied"@ && text != "consumed"@
            && text != "expired"@ && text != "revoked"@
                ==> ToolPermissionStatus::persisted(text) is Err,
{
    reveal_strlit("pending");
    reveal_strlit("approved");
    reveal_strlit("denied");
    reveal_strlit("consumed");
    reveal_strlit("expired");
    reveal_strlit("revoked");
    assert("approved"@.len() != "pending"@.len());
    assert("denied"@.len() != "pending"@.len());
    assert("denied"@.len() != "approved"@.len());
    assert("consumed"@.len() != "pending"@.len());
    assert("consumed"@[0] != "approved"@[0]);
    assert("consumed"@.len() != "denied"@.len());
    assert("expired"@[0] != "pending"@[0]);
    assert("expired"@.len() != "approved"@.len());
    assert("expired"@.len() != "denied"@.len());
    assert("expired"@.len() != "consumed"@.len());
    assert("revoked"@[0] != "pending"@[0]);
    assert("revoked"@.len() != "approved"@.len());
    assert("revoked"@.len() != "denied"@.len());
    assert("revoked"@.len() != "consumed"@.len());
    assert("revoked"@[0] != "expired"@[0]);
}

/// A running run may become anything, a waiting one anything but completed, and an ended one nothing;
/// a permission may change while it is pending or approved.
pub proof fn law_lifecycle_steps(
    status: AgentRunStatus,
    next: AgentRunStatus,
    permission: ToolPermissionStatus,
)
    ensures
        status.may_become(next) <==> status is Running || (status is WaitingPermission && !(
        next is Completed)),
        status.terminal() <==> !(status is Running) && !(status is WaitingPermission),
        permission.active() <==> permission is Pending || permission is Approved,
{
}

} // verus!
