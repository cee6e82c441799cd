use vstd::prelude::*;

use crate::agent::model::{AgentRunRecord, RequestToolPermission, ToolPermissionRecord};
use crate::agent::status::{
    AgentRunStatus, SqlPermissionMode, ToolPermissionDecision, ToolPermissionStatus,
};
use crate::clock::{end_of_retention, retention_end};
use crate::digest::same_digest;
use crate::error::StorageError;
use crate::number::{fits_sql, next_count, sql_i64, successor, to_sql_i64};
use crate::storage::Storage;
use crate::text::{blank, byte_len, is_blank, same_text, text_len};

verus! {

/// Maximum UTF-8 bytes of a tool call id.
pub const MAX_TOOL_CALL_ID_BYTES: usize = 512;

/// Maximum UTF-8 bytes of a tool name.
pub const MAX_TOOL_NAME_BYTES: usize = 512;

/// Maximum UTF-8 bytes of a permission summary.
pub const MAX_PERMISSION_SUMMARY_BYTES: usize = 4096;

/// A permission and its run as an operation leaves them.
pub struct PermissionStep {
    /// The permission.
    pub permission: ToolPermissionRecord,
    /// The run, where the operation changes it.
    pub run: Option<AgentRunRecord>,
}

/// How an operation on a permission ends.
pub enum PermissionOutcome {
    /// It is carried out.
    Done(PermissionStep),
    /// The permission has lapsed: that is written down, and the caller gets the failure.
    Lapsed(PermissionStep, StorageError),
}

/// The permission once it is withdrawn.
pub open spec fn revoked(permission: ToolPermissionRecord, timestamp: i64) -> ToolPermissionRecord {
    ToolPermissionRecord {
        status: ToolPermissionStatus::Revoked,
        revision: (permission.revision + 1) as u64,
        updated_at_ms: timestamp,
        ..permission
    }
}

/// The permissions of a run that are still active, each withdrawn.
pub open spec fn revoked_all(permissions: Seq<ToolPermissionRecord>, timestamp: i64) -> Seq<
    ToolPermissionRecord,
>
    decreases permissions.len(),
{
    if permissions.len() == 0 {
        Seq::empty()
    } else {
        let earlier = revoked_all(permissions.drop_last(), timestamp);
        if permissions.last().status.active() {
            earlier.push(revoked(permissions.last(), timestamp))
        } else {
            earlier
        }
    }
}

/// Permissions as the store yields them: their revisions come from database integers.
pub open spec fn stored_permissions(permissions: Seq<ToolPermissionRecord>) -> bool {
    forall|i: int| 0 <= i < permissions.len() ==> fits_sql((#[trigger] permissions[i]).revision)
}

/// Withdraws the permissions of a run that are still active.
pub fn revoke_tool_permissions(permissions: Vec<ToolPermissionRecord>, timestamp: i64) -> (result:
    Vec<ToolPermissionRecord>)
    requires
        stored_permissions(permissions@),
    ensures
        result@ == revoked_all(permissions@, timestamp),
{
    let ghost whole = permissions@;
    let mut withdrawn: Vec<ToolPermissionRecord> = Vec::new();
    for permission in it: permissions
        invariant
            it.seq() == whole,
            stored_permissions(whole),
            withdrawn@ == revoked_all(whole.take(it.index() as int), timestamp),
    {
        proof {
            let index = it.index() as int;
            assert(whole.take(index + 1).drop_last() =~= whole.take(index));
            assert(whole.take(index + 1).last() == whole[index]);
        }
        if permission.status.is_active() {
            withdrawn.push(
                ToolPermissionRecord {
                    status: ToolPermissionStatus::Revoked,
                    revision: permission.revision + 1,
                    updated_at_ms: timestamp,
                    ..permission
                },
            );
        }
    }
    assert(whole.take(whole.len() as int) =~= whole);
    withdrawn
}

/// Present and at most `maximum` bytes long.
pub open spec fn bounded_text(text: Seq<char>, maximum: usize) -> bool {
    !blank(text) && byte_len(text) <= maximum
}

/// The texts of a request are present and bounded.
pub open spec fn permission_request_check(input: RequestToolPermission) -> Result<
    (),
    StorageError,
> {
    if !bounded_text(input.tool_call_id@, MAX_TOOL_CALL_ID_BYTES) {
        Err(
            StorageError::InvalidAgent(
                "tool call id must be non-empty and at most 512 UTF-8 bytes",
            ),
        )
    } else if !bounded_text(input.tool_name@, MAX_TOOL_NAME_BYTES) {
        Err(StorageError::InvalidAgent("tool name must be non-empty and at most 512 UTF-8 bytes"))
    } else if !bounded_text(input.summary@, MAX_PERMISSION_SUMMARY_BYTES) {
        Err(
            StorageError::InvalidAgent(
                "permission summary must be non-empty and at most 4096 UTF-8 bytes",
            ),
        )
    } else {
        Ok(())
    }
}

/// A run that may ask for a permission or use one, in the given state.
pub open spec fn executable_in(run: AgentRunRecord, status: AgentRunStatus) -> bool {
    &&& !run.cancel_requested
    &&& run.status == status
    &&& run.sql_permission_mode == SqlPermissionMode::AskBeforeWrite
    &&& run.write_in_flight_tool_call_id is None
}

/// The failure of a permission that cannot be used.
pub open spec fn not_executable(id: String, reason: &'static str) -> StorageError {
    StorageError::PermissionNotExecutable { id, reason }
}

/// A running run asks for a permission and waits for it.
pub open spec fn permission_created(
    run_id: String,
    input: RequestToolPermission,
    run: Option<AgentRunRecord>,
    id: String,
    timestamp: i64,
    expires_at_ms: i64,
) -> Result<PermissionStep, StorageError> {
    match permission_request_check(input) {
        Err(error) => Err(error),
        Ok(_) => if input.last_sequence == 0 {
            Err(StorageError::InvalidAgent("permission event sequence must be greater than zero"))
        } else if expires_at_ms <= timestamp {
            Err(StorageError::InvalidAgent("tool permission expiry must be after creation"))
        } else {
            match run {
                None => Err(StorageError::AgentRunNotFound(run_id)),
                Some(current) => if !executable_in(current, AgentRunStatus::Running) {
                    Err(not_executable(run_id, "owning run is not executable"))
                } else if input.last_sequence <= current.last_sequence {
                    Err(
                        StorageError::InvalidAgent(
                            "permission event sequence must advance the run snapshot",
                        ),
                    )
                } else if !fits_sql(input.last_sequence) {
                    Err(StorageError::NumericRange("agent event sequence"))
                } else {
                    Ok(
                        PermissionStep {
                            permission: ToolPermissionRecord {
                                id,
                                run_id,
                                tool_call_id: input.tool_call_id,
                                tool_name: input.tool_name,
                                arguments_sha256: input.arguments_sha256,
                                summary: input.summary,
                                status: ToolPermissionStatus::Pending,
                                revision: 1,
                                expires_at_ms,
                                created_at_ms: timestamp,
                                updated_at_ms: timestamp,
                                consumed_at_ms: None,
                            },
                            run: Some(
                                AgentRunRecord {
                                    status: AgentRunStatus::WaitingPermission,
                                    last_sequence: input.last_sequence,
                                    updated_at_ms: timestamp,
                                    ..current
                                },
                            ),
                        },
                    )
                },
            }
        },
    }
}

/// A permission is bound to one call of one run with one set of arguments.
pub open spec fn bound_to(
    permission: ToolPermissionRecord,
    run_id: Seq<char>,
    tool_call_id: Seq<char>,
    arguments_sha256: Seq<u8>,
) -> bool {
    &&& permission.run_id@ == run_id
    &&& permission.tool_call_id@ == tool_call_id
    &&& permission.arguments_sha256@ == arguments_sha256
}

/// The permission at the revision its caller saw, bound to the call its caller names and in the
/// state that the operation needs.
pub open spec fn usable_permission(
    id: String,
    expected_revision: u64,
    run_id: String,
    tool_call_id: String,
    arguments_sha256: [u8; 32],
    permission: Option<ToolPermissionRecord>,
    status: ToolPermissionStatus,
    otherwise: &'static str,
) -> Result<ToolPermissionRecord, StorageError> {
    match permission {
        None => Err(StorageError::PermissionNotFound(id)),
        Some(current) => if current.revision != expected_revision {
            Err(
                StorageError::PermissionRevisionConflict {
                    id,
                    expected: expected_revision,
                    actual: Some(current.revision),
                },
            )
        } else if !bound_to(current, run_id@, tool_call_id@, arguments_sha256@) {
            Err(not_executable(id, "permission binding does not match"))
        } else if current.status != status {
            Err(not_executable(id, otherwise))
        } else {
            Ok(current)
        },
    }
}

/// The permission once its time has passed.
pub open spec fn expired(permission: ToolPermissionRecord, timestamp: i64) -> ToolPermissionRecord {
    ToolPermissionRecord {
        status: ToolPermissionStatus::Expired,
        revision: (permission.revision + 1) as u64,
        updated_at_ms: timestamp,
        ..permission
    }
}

/// A run that waits resumes when its permission lapses.
pub open spec fn resumed(run: Option<AgentRunRecord>, timestamp: i64) -> Option<AgentRunRecord> {
    match run {
        Some(current) => if current.status is WaitingPermission {
            Some(
                AgentRunRecord {
                    status: AgentRunStatus::Running,
                    updated_at_ms: timestamp,
                    ..current
                },
            )
        } else {
            None
        },
        None => None,
    }
}

/// A permission whose time has passed lapses and its run resumes.
pub open spec fn lapsed(
    id: String,
    permission: ToolPermissionRecord,
    run: Option<AgentRunRecord>,
    timestamp: i64,
) -> PermissionOutcome {
    PermissionOutcome::Lapsed(
        PermissionStep {
            permission: expired(permission, timestamp),
            run: resumed(run, timestamp),
        },
        not_executable(id, "permission expired"),
    )
}

/// The revision after this one, where the database can hold it.
pub open spec fn next_revision(revision: u64) -> Result<u64, StorageError> {
    match successor(revision, "tool permission revision") {
        Err(error) => Err(error),
        Ok(next) => match sql_i64(next, "tool permission revision") {
            Err(error) => Err(error),
            Ok(_) => Ok(next),
        },
    }
}

/// A pending permission is approved, and its run goes on waiting to use it, or it is denied and
/// its run resumes.
pub open spec fn permission_decided(
    id: String,
    expected_revision: u64,
    run_id: String,
    tool_call_id: String,
    arguments_sha256: [u8; 32],
    last_sequence: u64,
    decision: ToolPermissionDecision,
    permission: Option<ToolPermissionRecord>,
    run: Option<AgentRunRecord>,
    timestamp: i64,
) -> Result<PermissionOutcome, StorageError> {
    match usable_permission(
        id,
        expected_revision,
        run_id,
        tool_call_id,
        arguments_sha256,
        permission,
        ToolPermissionStatus::Pending,
        "permission is no longer pending",
    ) {
        Err(error) => Err(error),
        Ok(current) => match run {
            None => Err(StorageError::AgentRunNotFound(run_id)),
            Some(owner) => if owner.cancel_requested || owner.status
                != AgentRunStatus::WaitingPermission || owner.write_in_flight_tool_call_id is Some {
                Err(not_executable(id, "owning run is not waiting for this permission"))
            } else if last_sequence <= owner.last_sequence {
                Err(
                    StorageError::InvalidAgent(
                        "permission decision sequence must advance the run snapshot",
                    ),
                )
            } else if current.expires_at_ms <= timestamp {
                Ok(lapsed(id, current, run, timestamp))
            } else {
                match next_revision(current.revision) {
                    Err(error) => Err(error),
                    Ok(revision) => if !fits_sql(last_sequence) {
                        Err(StorageError::NumericRange("agent event sequence"))
                    } else {
                        Ok(
                            PermissionOutcome::Done(
                                PermissionStep {
                                    permission: ToolPermissionRecord {
                                        status: decided_status(decision),
                                        revision,
                                        updated_at_ms: timestamp,
                                        ..current
                                    },
                                    run: Some(
                                        AgentRunRecord {
                                            status: decided_run_status(decision),
                                            last_sequence,
                                            updated_at_ms: timestamp,
                                            ..owner
                                        },
                                    ),
                                },
                            ),
                        )
                    },
                }
            },
        },
    }
}

/// The state of a permission after a decision.
pub open spec fn decided_status(decision: ToolPermissionDecision) -> ToolPermissionStatus {
    match decision {
        ToolPermissionDecision::Approve => ToolPermissionStatus::Approved,
        ToolPermissionDecision::Deny => ToolPermissionStatus::Denied,
    }
}

/// The state of a run after a decision.
pub open spec fn decided_run_status(decision: ToolPermissionDecision) -> AgentRunStatus {
    match decision {
        ToolPermissionDecision::Approve => AgentRunStatus::WaitingPermission,
        ToolPermissionDecision::Deny => AgentRunStatus::Running,
    }
}

/// An approved permission is used once: its run resumes behind the fence of that one write.
pub open spec fn permission_consumed(
    id: String,
    expected_revision: u64,
    run_id: String,
    tool_call_id: String,
    arguments_sha256: [u8; 32],
    last_sequence: u64,
    permission: Option<ToolPermissionRecord>,
    run: Option<AgentRunRecord>,
    timestamp: i64,
) -> Result<PermissionOutcome, StorageError> {
    match usable_permission(
        id,
        expected_revision,
        run_id,
        tool_call_id,
        arguments_sha256,
        permission,
        ToolPermissionStatus::Approved,
        "permission is not approved",
    ) {
        Err(error) => Err(error),
        Ok(current) => if current.expires_at_ms <= timestamp {
            Ok(lapsed(id, current, run, timestamp))
        } else {
            match run {
                None => Err(StorageError::AgentRunNotFound(run_id)),
                Some(owner) => if !executable_in(owner, AgentRunStatus::WaitingPermission) {
                    Err(not_executable(id, "owning run is not executable"))
                } else if last_sequence <= owner.last_sequence {
                    Err(
                        StorageError::InvalidAgent(
                            "tool-start sequence must advance the run snapshot",
                        ),
                    )
                } else {
                    match next_revision(current.revision) {
                        Err(error) => Err(error),
                        Ok(revision) => if !fits_sql(last_sequence) {
                            Err(StorageError::NumericRange("agent event sequence"))
                        } else {
                            Ok(
                                PermissionOutcome::Done(
                                    PermissionStep {
                                        permission: ToolPermissionRecord {
                                            status: ToolPermissionStatus::Consumed,
                                            revision,
                                            updated_at_ms: timestamp,
                                            consumed_at_ms: Some(timestamp),
                                            ..current
                                        },
                                        run: Some(
                                            AgentRunRecord {
                                                status: AgentRunStatus::Running,
                                                last_sequence,
                                                write_in_flight_tool_call_id: Some(tool_call_id),
                                                write_in_flight_arguments_sha256: Some(
                                                    arguments_sha256,
                                                ),
                                                updated_at_ms: timestamp,
                                                ..owner
                                            },
                                        ),
                                    },
                                ),
                            )
                        },
                    }
                },
            }
        },
    }
}

/// Checks a required and bounded text.
fn is_bounded_text(text: &str, maximum: usize) -> (result: bool)
    ensures
        result == bounded_text(text@, maximum),
{
    !is_blank(text) && text_len(text) <= maximum
}

/// Checks the texts of a request.
pub fn validate_permission_request(input: &RequestToolPermission) -> (result: Result<
    (),
    StorageError,
>)
    ensures
        result == permission_request_check(*input),
{
    if !is_bounded_text(input.tool_call_id.as_str(), MAX_TOOL_CALL_ID_BYTES) {
        return Err(
            StorageError::InvalidAgent(
                "tool call id must be non-empty and at most 512 UTF-8 bytes",
            ),
        );
    }
    if !is_bounded_text(input.tool_name.as_str(), MAX_TOOL_NAME_BYTES) {
        return Err(
            StorageError::InvalidAgent("tool name must be non-empty and at most 512 UTF-8 bytes"),
        );
    }
    if !is_bounded_text(input.summary.as_str(), MAX_PERMISSION_SUMMARY_BYTES) {
        return Err(
            StorageError::InvalidAgent(
                "permission summary must be non-empty and at most 4096 UTF-8 bytes",
            ),
        );
    }
    Ok(())
}

/// Takes the permission that an operation is to use.
fn take_permission(
    id: &String,
    expected_revision: u64,
    run_id: &String,
    tool_call_id: &String,
    arguments_sha256: &[u8; 32],
    permission: Option<ToolPermissionRecord>,
    status: ToolPermissionStatus,
    otherwise: &'static str,
) -> (result: Result<ToolPermissionRecord, StorageError>)
    ensures
        result == usable_permission(
            *id,
            expected_revision,
            *run_id,
            *tool_call_id,
            *arguments_sha256,
            permission,
            status,
            otherwise,
        ),
{
    let current = match permission {
        Some(current) => current,
        None => return Err(StorageError::PermissionNotFound(id.clone())),
    };
    if current.revision != expected_revision {
        return Err(
            StorageError::PermissionRevisionConflict {
                id: id.clone(),
                expected: expected_revision,
                actual: Some(current.revision),
            },
        );
    }
    if !same_text(current.run_id.as_str(), run_id.as_str()) || !same_text(
        current.tool_call_id.as_str(),
        tool_call_id.as_str(),
    ) || !same_digest(&current.arguments_sha256, arguments_sha256) {
        return Err(
            StorageError::PermissionNotExecutable {
                id: id.clone(),
                reason: "permission binding does not match",
            },
        );
    }
    if current.status != status {
        return Err(StorageError::PermissionNotExecutable { id: id.clone(), reason: otherwise });
    }
    Ok(current)
}

/// Lets a permission lapse.
fn expire_permission(
    id: &String,
    permission: ToolPermissionRecord,
    run: Option<AgentRunRecord>,
    timestamp: i64,
) -> (result: PermissionOutcome)
    requires
        fits_sql(permission.revision),
    ensures
        result == lapsed(*id, permission, run, timestamp),
{
    let run = match run {
        Some(current) => if current.status == AgentRunStatus::WaitingPermission {
            Some(
                AgentRunRecord {
                    status: AgentRunStatus::Running,
                    updated_at_ms: timestamp,
                    ..current
                },
            )
        } else {
            None
        },
        None => None,
    };
    PermissionOutcome::Lapsed(
        PermissionStep {
            permission: ToolPermissionRecord {
                status: ToolPermissionStatus::Expired,
                revision: permission.revision + 1,
                updated_at_ms: timestamp,
                ..permission
            },
            run,
        },
        StorageError::PermissionNotExecutable { id: id.clone(), reason: "permission expired" },
    )
}

/// Advances the revision of a permission.
fn advance_revision(revision: u64) -> (result: Result<u64, StorageError>)
    ensures
        result == next_revision(revision),
{
    let next: u64 = next_count(revision, "tool permission revision")?;
    to_sql_i64(next, "tool permission revision")?;
    Ok(next)
}

/// A permission as the store yields it: its revision comes from a database integer.
pub open spec fn stored_permission(permission: Option<ToolPermissionRecord>) -> bool {
    permission matches Some(current) ==> fits_sql(current.revision)
}

impl Storage {
    /// Asks for a permission on behalf of a running run, for as long as the request says.
    pub fn create_tool_permission(
        run_id: &String,
        input: RequestToolPermission,
        run: Option<AgentRunRecord>,
        id: String,
        timestamp: i64,
    ) -> (result: Result<PermissionStep, StorageError>)
        ensures
            result == (match retention_end(
                input.retention,
                timestamp,
                StorageError::InvalidAgent("tool permission retention must be greater than zero"),
                "tool permission retention",
                "tool permission expiry",
            ) {
                Err(error) => Err(error),
                Ok(expiry) => permission_created(*run_id, input, run, id, timestamp, expiry),
            }),
    {
        let expires_at_ms: i64 = end_of_retention(
            &input.retention,
            timestamp,
            StorageError::InvalidAgent("tool permission retention must be greater than zero"),
            "tool permission retention",
            "tool permission expiry",
        )?;
        Storage::create_tool_permission_at(run_id, input, run, id, timestamp, expires_at_ms)
    }

    /// Asks for a permission on behalf of a running run, until the given time.
    pub fn create_tool_permission_at(
        run_id: &String,
        input: RequestToolPermission,
        run: Option<AgentRunRecord>,
        id: String,
        timestamp: i64,
        expires_at_ms: i64,
    ) -> (result: Result<PermissionStep, StorageError>)
        ensures
            result == permission_created(*run_id, input, run, id, timestamp, expires_at_ms),
    {
        validate_permission_request(&input)?;
        if input.last_sequence == 0 {
            return Err(
                StorageError::InvalidAgent("permission event sequence must be greater than zero"),
            );
        }
        if expires_at_ms <= timestamp {
            return Err(StorageError::InvalidAgent("tool permission expiry must be after creation"));
        }
        let current = match run {
            Some(current) => current,
            None => return Err(StorageError::AgentRunNotFound(run_id.clone())),
        };
        if current.cancel_requested || current.status != AgentRunStatus::Running
            || current.sql_permission_mode != SqlPermissionMode::AskBeforeWrite
            || current.write_in_flight_tool_call_id.is_some() {
            return Err(
                StorageError::PermissionNotExecutable {
                    id: run_id.clone(),
                    reason: "owning run is not executable",
                },
            );
        }
        if input.last_sequence <= current.last_sequence {
            return Err(
                StorageError::InvalidAgent(
                    "permission event sequence must advance the run snapshot",
                ),
            );
        }
        to_sql_i64(input.last_sequence, "agent event sequence")?;
        let permission = ToolPermissionRecord {
            id,
            run_id: run_id.clone(),
            tool_call_id: input.tool_call_id,
            tool_name: input.tool_name,
            arguments_sha256: input.arguments_sha256,
            summary: input.summary,
            status: ToolPermissionStatus::Pending,
            revision: 1,
            expires_at_ms,
            created_at_ms: timestamp,
            updated_at_ms: timestamp,
            consumed_at_ms: None,
        };
        let waiting = AgentRunRecord {
            status: AgentRunStatus::WaitingPermission,
            last_sequence: input.last_sequence,
            updated_at_ms: timestamp,
            ..current
        };
        Ok(PermissionStep { permission, run: Some(waiting) })
    }

    /// Approves or denies a pending permission.
    pub fn decide_tool_permission(
        id: &String,
        expected_revision: u64,
        run_id: &String,
        tool_call_id: &String,
        arguments_sha256: [u8; 32],
        last_sequence: u64,
        decision: ToolPermissionDecision,
        permission: Option<ToolPermissionRecord>,
        run: Option<AgentRunRecord>,
        timestamp: i64,
    ) -> (result: Result<PermissionOutcome, StorageError>)
        requires
            stored_permission(permission),
        ensures
            result == permission_decided(
                *id,
                expected_revision,
                *run_id,
                *tool_call_id,
                arguments_sha256,
                last_sequence,
                decision,
                permission,
                run,
                timestamp,
            ),
    {
        let current = take_permission(
            id,
            expected_revision,
            run_id,
            tool_call_id,
            &arguments_sha256,
            permission,
            ToolPermissionStatus::Pending,
            "permission is no longer pending",
        )?;
        let owner = match run {
            Some(owner) => owner,
            None => return Err(StorageError::AgentRunNotFound(run_id.clone())),
        };
        if owner.cancel_requested || owner.status != AgentRunStatus::WaitingPermission
            || owner.write_in_flight_tool_call_id.is_some() {
            return Err(
                StorageError::PermissionNotExecutable {
                    id: id.clone(),
                    reason: "owning run is not waiting for this permission",
                },
            );
        }
        if last_sequence <= owner.last_sequence {
            return Err(
                StorageError::InvalidAgent(
                    "permission decision sequence must advance the run snapshot",
                ),
            );
        }
        if current.expires_at_ms <= timestamp {
            return Ok(expire_permission(id, current, Some(owner), timestamp));
        }
        let status = match decision {
            ToolPermissionDecision::Approve => ToolPermissionStatus::Approved,
            ToolPermissionDecision::Deny => ToolPermissionStatus::Denied,
        };
        let run_status = match decision {
            ToolPermissionDecision::Approve => AgentRunStatus::WaitingPermission,
            ToolPermissionDecision::Deny => AgentRunStatus::Running,
        };
        let revision: u64 = advance_revision(current.revision)?;
        to_sql_i64(last_sequence, "agent event sequence")?;
        Ok(
            PermissionOutcome::Done(
                PermissionStep {
                    permission: ToolPermissionRecord {
                        status,
                        revision,
                        updated_at_ms: timestamp,
                        ..current
                    },
                    run: Some(
                        AgentRunRecord {
                            status: run_status,
                            last_sequence,
                            updated_at_ms: timestamp,
                            ..owner
                        },
                    ),
                },
            ),
        )
    }

    /// Uses an approved permission for the one dispatch that it is bound to, at the given time.
    pub fn consume_tool_permission(
        id: &String,
        expected_revision: u64,
        run_id: &String,
        tool_call_id: &String,
        arguments_sha256: [u8; 32],
        last_sequence: u64,
        permission: Option<ToolPermissionRecord>,
        run: Option<AgentRunRecord>,
        timestamp: i64,
    ) -> (result: Result<PermissionOutcome, StorageError>)
        requires
            stored_permission(permission),
        ensures
            result == permission_consumed(
                *id,
                expected_revision,
                *run_id,
                *tool_call_id,
                arguments_sha256,
                last_sequence,
                permission,
                run,
                timestamp,
            ),
    {
        let current = take_permission(
            id,
            expected_revision,
            run_id,
            tool_call_id,
            &arguments_sha256,
            permission,
            ToolPermissionStatus::Approved,
            "permission is not approved",
        )?;
        if current.expires_at_ms <= timestamp {
            return Ok(expire_permission(id, current, run, timestamp));
        }
        let owner = match run {
            Some(owner) => owner,
            None => return Err(StorageError::AgentRunNotFound(run_id.clone())),
        };
        if owner.cancel_requested || owner.status != AgentRunStatus::WaitingPermission
            || owner.sql_permission_mode != SqlPermissionMode::AskBeforeWrite
            || owner.write_in_flight_tool_call_id.is_some() {
            return Err(
                StorageError::PermissionNotExecutable {
                    id: id.clone(),
                    reason: "owning run is not executable",
                },
            );
        }
        if last_sequence <= owner.last_sequence {
            return Err(
                StorageError::InvalidAgent("tool-start sequence must advance the run snapshot"),
            );
        }
        let revision: u64 = advance_revision(current.revision)?;
        to_sql_i64(last_sequence, "agent event sequence")?;
        Ok(
            PermissionOutcome::Done(
                PermissionStep {
                    permission: ToolPermissionRecord {
                        status: ToolPermissionStatus::Consumed,
                        revision,
                        updated_at_ms: timestamp,
                        consumed_at_ms: Some(timestamp),
                        ..current
                    },
                    run: Some(
                        AgentRunRecord {
                            status: AgentRunStatus::Running,
                            last_sequence,
                            write_in_flight_tool_call_id: Some(tool_call_id.clone()),
                            write_in_flight_arguments_sha256: Some(arguments_sha256),
                            updated_at_ms: timestamp,
                            ..owner
                        },
                    ),
                },
            ),
        )
    }
}

} // verus!
