use vstd::prelude::*;

use crate::agent::content::{
    message_blocks, normalize_message_json, text_blocks, text_message_json, NormalizedMessage,
};
use crate::agent::message::{
    append_message_in_transaction, appended, holds, MessageDraft, MessageOwner,
    NormalizedAgentRunMessage, SessionMessages, StoredMessage,
};
use crate::agent::model::{
    AgentMessageRecord, AgentSessionRecord, AppendAgentMessage, CreateAgentSession,
    UpdateAgentSession,
};
use crate::agent::status::AgentMessageRole;
use crate::error::StorageError;
use crate::number::{fits_sql, next_count, successor, to_sql_i64};
use crate::storage::Storage;
use crate::text::{
    blank, byte_len, is_blank, same_optional, same_optional_text, same_text, text_len,
};

verus! {

/// Maximum UTF-8 bytes of a session title.
pub const MAX_AGENT_SESSION_TITLE_BYTES: usize = 512;

/// Maximum messages returned by one page.
pub const MAX_AGENT_MESSAGE_PAGE_SIZE: u32 = 512;

/// Whether what a session refers to exists.
#[derive(Debug, Clone, Copy, PartialEq, Eq, Structural)]
pub struct SessionReferences {
    /// The provider profile exists.
    pub provider_exists: bool,
    /// The datasource exists; looked at only where the session names one.
    pub datasource_exists: bool,
}

/// A new session and the message of its system prompt, if it has one.
pub struct CreatedAgentSession {
    /// The session.
    pub session: AgentSessionRecord,
    /// The message at ordinal zero.
    pub system_message: Option<AgentMessageRecord>,
}

/// A title is present and bounded.
pub open spec fn title_check(title: Seq<char>) -> Result<(), StorageError> {
    if blank(title) || byte_len(title) > MAX_AGENT_SESSION_TITLE_BYTES {
        Err(
            StorageError::InvalidAgent(
                "session title must be non-empty and at most 512 UTF-8 bytes",
            ),
        )
    } else {
        Ok(())
    }
}

/// The provider exists, and the datasource does where one is named.
pub open spec fn references_check(
    provider_id: String,
    datasource_id: Option<String>,
    references: SessionReferences,
) -> Result<(), StorageError> {
    if !references.provider_exists {
        Err(StorageError::ProviderNotFound(provider_id))
    } else if datasource_id is Some && !references.datasource_exists {
        Err(StorageError::DatasourceNotFound(datasource_id->0))
    } else {
        Ok(())
    }
}

/// A session that has no messages yet.
pub open spec fn empty_session() -> SessionMessages {
    SessionMessages {
        session_exists: true,
        run_owned: false,
        count: 0,
        bytes: 0,
        maximum: None,
    }
}

/// The blocks of a system prompt, if there is one.
pub open spec fn prompt_draft(prompt: Option<String>, id: String) -> Result<
    Option<MessageDraft>,
    StorageError,
> {
    match prompt {
        None => Ok(None),
        Some(text) => match text_blocks(text@) {
            Err(error) => Err(error),
            Ok(blocks) => Ok(
                Some(
                    MessageDraft {
                        id,
                        role: AgentMessageRole::System,
                        summary_through_ordinal: None,
                        blocks,
                    },
                ),
            ),
        },
    }
}

/// A session starts at revision one, with its system prompt as its first message.
pub open spec fn session_created(
    input: CreateAgentSession,
    references: SessionReferences,
    id: String,
    message_id: String,
    timestamp: i64,
) -> Result<(AgentSessionRecord, Option<StoredMessage>), StorageError> {
    match title_check(input.title@) {
        Err(error) => Err(error),
        Ok(_) => match prompt_draft(input.system_prompt, message_id) {
            Err(error) => Err(error),
            Ok(prompt) => match references_check(
                input.provider_id,
                input.datasource_id,
                references,
            ) {
                Err(error) => Err(error),
                Ok(_) => {
                    let session = AgentSessionRecord {
                        id,
                        title: input.title,
                        provider_id: input.provider_id,
                        datasource_id: input.datasource_id,
                        revision: 1,
                        created_at_ms: timestamp,
                        updated_at_ms: timestamp,
                    };
                    match prompt {
                        None => Ok((session, None)),
                        Some(draft) => match appended(
                            MessageOwner { session_id: id, run_id: None },
                            empty_session(),
                            draft,
                            timestamp,
                        ) {
                            Err(error) => Err(error),
                            Ok(message) => Ok((session, Some(message))),
                        },
                    }
                },
            },
        },
    }
}

/// The session at the revision that its caller saw.
pub open spec fn session_at(
    id: String,
    expected_revision: u64,
    session: Option<AgentSessionRecord>,
) -> Result<AgentSessionRecord, StorageError> {
    match session {
        None => Err(StorageError::AgentSessionNotFound(id)),
        Some(current) => if current.revision != expected_revision {
            Err(
                StorageError::AgentSessionRevisionConflict {
                    id,
                    expected: expected_revision,
                    actual: Some(current.revision),
                },
            )
        } else {
            Ok(current)
        },
    }
}

/// Whether an update leaves the provider and the datasource as they are.
pub open spec fn keeps_target(current: AgentSessionRecord, input: UpdateAgentSession) -> bool {
    current.provider_id@ == input.provider_id@ && same_optional(
        current.datasource_id,
        input.datasource_id,
    )
}

/// An update replaces the fields and advances the revision by one; while a run is active the
/// provider and the datasource stay.
pub open spec fn session_updated(
    id: String,
    expected_revision: u64,
    input: UpdateAgentSession,
    session: Option<AgentSessionRecord>,
    session_active: bool,
    references: SessionReferences,
    timestamp: i64,
) -> Result<AgentSessionRecord, StorageError> {
    match title_check(input.title@) {
        Err(error) => Err(error),
        Ok(_) => match successor(expected_revision, "agent session revision") {
            Err(error) => Err(error),
            Ok(revision) => match session_at(id, expected_revision, session) {
                Err(error) => Err(error),
                Ok(current) => if !keeps_target(current, input) && session_active {
                    Err(StorageError::AgentSessionBusy(id))
                } else {
                    match references_check(input.provider_id, input.datasource_id, references) {
                        Err(error) => Err(error),
                        Ok(_) => if !fits_sql(revision) {
                            Err(StorageError::NumericRange("agent session revision"))
                        } else {
                            Ok(
                                AgentSessionRecord {
                                    title: input.title,
                                    provider_id: input.provider_id,
                                    datasource_id: input.datasource_id,
                                    revision,
                                    updated_at_ms: timestamp,
                                    ..current
                                },
                            )
                        },
                    }
                },
            },
        },
    }
}

/// A session is deleted at the revision its caller saw, unless a run is active.
pub open spec fn session_deletion(
    id: String,
    expected_revision: u64,
    session: Option<AgentSessionRecord>,
    session_active: bool,
) -> Result<(), StorageError> {
    if !fits_sql(expected_revision) {
        Err(StorageError::NumericRange("agent session revision"))
    } else {
        match session_at(id, expected_revision, session) {
            Err(error) => Err(error),
            Ok(_) => if session_active {
                Err(StorageError::AgentSessionBusy(id))
            } else {
                Ok(())
            },
        }
    }
}

/// A message that belongs to no run is appended while no run is active.
pub open spec fn message_appended(
    session_id: String,
    input: AppendAgentMessage,
    session_active: bool,
    totals: SessionMessages,
    id: String,
    timestamp: i64,
) -> Result<StoredMessage, StorageError> {
    if input.role is Summary {
        Err(
            StorageError::InvalidAgent(
                "summary messages require the dedicated atomic compaction API",
            ),
        )
    } else {
        match message_blocks(input.content_json@) {
            Err(error) => Err(error),
            Ok(blocks) => if session_active {
                Err(StorageError::AgentSessionBusy(session_id))
            } else {
                appended(
                    MessageOwner { session_id, run_id: None },
                    totals,
                    MessageDraft {
                        id,
                        role: input.role,
                        summary_through_ordinal: input.summary_through_ordinal,
                        blocks,
                    },
                    timestamp,
                )
            },
        }
    }
}

/// The session once messages are appended: it was last updated when the last of them was created,
/// and is otherwise the same.
pub open spec fn session_after(
    session: AgentSessionRecord,
    appended: Seq<AgentMessageRecord>,
) -> AgentSessionRecord {
    if appended.len() == 0 {
        session
    } else {
        AgentSessionRecord { updated_at_ms: appended.last().created_at_ms, ..session }
    }
}

/// The bounds of a page of messages: the first ordinal and the number of messages.
pub open spec fn message_page(
    session_id: String,
    start_ordinal: u64,
    limit: u32,
    session_exists: bool,
) -> Result<(i64, i64), StorageError> {
    if !(1 <= limit <= MAX_AGENT_MESSAGE_PAGE_SIZE) {
        Err(StorageError::InvalidAgent("message page size must be between 1 and 512"))
    } else if !session_exists {
        Err(StorageError::AgentSessionNotFound(session_id))
    } else if !fits_sql(start_ordinal) {
        Err(StorageError::NumericRange("agent message ordinal"))
    } else {
        Ok((start_ordinal as i64, limit as i64))
    }
}

/// Checks a session title.
pub fn validate_session_title(title: &str) -> (result: Result<(), StorageError>)
    ensures
        result == title_check(title@),
{
    if is_blank(title) || text_len(title) > MAX_AGENT_SESSION_TITLE_BYTES {
        return Err(
            StorageError::InvalidAgent(
                "session title must be non-empty and at most 512 UTF-8 bytes",
            ),
        );
    }
    Ok(())
}

/// Checks what a session refers to.
fn validate_references(
    provider_id: &String,
    datasource_id: &Option<String>,
    references: SessionReferences,
) -> (result: Result<(), StorageError>)
    ensures
        result == references_check(*provider_id, *datasource_id, references),
{
    if !references.provider_exists {
        return Err(StorageError::ProviderNotFound(provider_id.clone()));
    }
    if let Some(datasource) = datasource_id {
        if !references.datasource_exists {
            return Err(StorageError::DatasourceNotFound(datasource.clone()));
        }
    }
    Ok(())
}

/// Takes the session at the revision that its caller saw.
fn take_session(id: &String, expected_revision: u64, session: Option<AgentSessionRecord>) -> (result:
    Result<AgentSessionRecord, StorageError>)
    ensures
        result == session_at(*id, expected_revision, session),
{
    match session {
        None => Err(StorageError::AgentSessionNotFound(id.clone())),
        Some(current) => if current.revision != expected_revision {
            Err(
                StorageError::AgentSessionRevisionConflict {
                    id: id.clone(),
                    expected: expected_revision,
                    actual: Some(current.revision),
                },
            )
        } else {
            Ok(current)
        },
    }
}

impl Storage {
    /// Creates a session with its optional system prompt.
    pub fn create_agent_session(
        input: CreateAgentSession,
        references: SessionReferences,
        id: String,
        message_id: &String,
        timestamp: i64,
    ) -> (result: Result<CreatedAgentSession, StorageError>)
        ensures
            match (result, session_created(input, references, id, *message_id, timestamp)) {
                (Ok(created), Ok((session, prompt))) => created.session == session && match (
                    created.system_message,
                    prompt,
                ) {
                    (None, None) => true,
                    (Some(record), Some(message)) => holds(record, message),
                    _ => false,
                },
                (Err(error), Err(expected)) => error == expected,
                _ => false,
            },
    {
        validate_session_title(input.title.as_str())?;
        let prompt: Option<NormalizedMessage> = match &input.system_prompt {
            Some(text) => Some(text_message_json(text.as_str())?),
            None => None,
        };
        validate_references(&input.provider_id, &input.datasource_id, references)?;
        let system_message: Option<AgentMessageRecord> = match prompt {
            None => None,
            Some(content) => {
                let owner = MessageOwner { session_id: id.clone(), run_id: None };
                Some(
                    append_message_in_transaction(
                        &owner,
                        SessionMessages {
                            session_exists: true,
                            run_owned: false,
                            count: 0,
                            bytes: 0,
                            maximum: None,
                        },
                        NormalizedAgentRunMessage {
                            role: AgentMessageRole::System,
                            summary_through_ordinal: None,
                            content,
                        },
                        message_id,
                        timestamp,
                    )?,
                )
            },
        };
        let session = AgentSessionRecord {
            id,
            title: input.title,
            provider_id: input.provider_id,
            datasource_id: input.datasource_id,
            revision: 1,
            created_at_ms: timestamp,
            updated_at_ms: timestamp,
        };
        Ok(CreatedAgentSession { session, system_message })
    }

    /// Replaces the title, the provider and the datasource of a session.
    pub fn update_agent_session(
        id: &String,
        expected_revision: u64,
        input: UpdateAgentSession,
        session: Option<AgentSessionRecord>,
        session_active: bool,
        references: SessionReferences,
        timestamp: i64,
    ) -> (result: Result<AgentSessionRecord, StorageError>)
        ensures
            result == session_updated(
                *id,
                expected_revision,
                input,
                session,
                session_active,
                references,
                timestamp,
            ),
    {
        validate_session_title(input.title.as_str())?;
        let revision: u64 = next_count(expected_revision, "agent session revision")?;
        let current = take_session(id, expected_revision, session)?;
        let kept: bool = same_text(current.provider_id.as_str(), input.provider_id.as_str())
            && same_optional_text(&current.datasource_id, &input.datasource_id);
        if !kept && session_active {
            return Err(StorageError::AgentSessionBusy(id.clone()));
        }
        validate_references(&input.provider_id, &input.datasource_id, references)?;
        to_sql_i64(revision, "agent session revision")?;
        Ok(
            AgentSessionRecord {
                title: input.title,
                provider_id: input.provider_id,
                datasource_id: input.datasource_id,
                revision,
                updated_at_ms: timestamp,
                ..current
            },
        )
    }

    /// Decides whether a session may be deleted, together with all that it owns.
    pub fn delete_agent_session(
        id: &String,
        expected_revision: u64,
        session: Option<AgentSessionRecord>,
        session_active: bool,
    ) -> (result: Result<(), StorageError>)
        ensures
            result == session_deletion(*id, expected_revision, session, session_active),
    {
        to_sql_i64(expected_revision, "agent session revision")?;
        take_session(id, expected_revision, session)?;
        if session_active {
            return Err(StorageError::AgentSessionBusy(id.clone()));
        }
        Ok(())
    }

    /// Appends a message that belongs to no run.
    pub fn append_agent_message(
        session_id: &String,
        input: AppendAgentMessage,
        session_active: bool,
        totals: SessionMessages,
        id: &String,
        timestamp: i64,
    ) -> (result: Result<AgentMessageRecord, StorageError>)
        ensures
            match (
                result,
                message_appended(*session_id, input, session_active, totals, *id, timestamp),
            ) {
                (Ok(record), Ok(message)) => holds(record, message),
                (Err(error), Err(expected)) => error == expected,
                _ => false,
            },
    {
        if input.role == AgentMessageRole::Summary {
            return Err(
                StorageError::InvalidAgent(
                    "summary messages require the dedicated atomic compaction API",
                ),
            );
        }
        let content = normalize_message_json(input.content_json.as_str())?;
        if session_active {
            return Err(StorageError::AgentSessionBusy(session_id.clone()));
        }
        let owner = MessageOwner { session_id: session_id.clone(), run_id: None };
        append_message_in_transaction(
            &owner,
            totals,
            NormalizedAgentRunMessage {
                role: input.role,
                summary_through_ordinal: input.summary_through_ordinal,
                content,
            },
            id,
            timestamp,
        )
    }

    /// Dates a session by the last of the messages that were just appended to it.
    pub fn date_agent_session(
        session: AgentSessionRecord,
        appended: &Vec<AgentMessageRecord>,
    ) -> (result: AgentSessionRecord)
        ensures
            result == session_after(session, appended@),
    {
        if appended.len() == 0 {
            return session;
        }
        AgentSessionRecord {
            updated_at_ms: appended[appended.len() - 1].created_at_ms,
            ..session
        }
    }

    /// Bounds a page of the messages of a session.
    pub fn bound_agent_message_page(
        session_id: &String,
        start_ordinal: u64,
        limit: u32,
        session_exists: bool,
    ) -> (result: Result<(i64, i64), StorageError>)
        ensures
            result == message_page(*session_id, start_ordinal, limit, session_exists),
    {
        if limit == 0 || limit > MAX_AGENT_MESSAGE_PAGE_SIZE {
            return Err(StorageError::InvalidAgent("message page size must be between 1 and 512"));
        }
        if !session_exists {
            return Err(StorageError::AgentSessionNotFound(session_id.clone()));
        }
        let start: i64 = to_sql_i64(start_ordinal, "agent message ordinal")?;
        Ok((start, limit as i64))
    }
}

/// Every accepted update advances the revision by exactly one, so that a caller who saw the
/// earlier revision is refused from then on.
pub proof fn law_session_update_is_optimistic(
    id: String,
    expected_revision: u64,
    input: UpdateAgentSession,
    session: Option<AgentSessionRecord>,
    session_active: bool,
    references: SessionReferences,
    timestamp: i64,
    later: UpdateAgentSession,
    later_active: bool,
    later_references: SessionReferences,
    later_timestamp: i64,
)
    requires
        session_updated(
            id,
            expected_revision,
            input,
            session,
            session_active,
            references,
            timestamp,
        ) is Ok,
    ensures
        ({
            let next = session_updated(
                id,
                expected_revision,
                input,
                session,
                session_active,
                references,
                timestamp,
            )->Ok_0;
            &&& session matches Some(current) && current.revision == expected_revision
            &&& next.revision == expected_revision + 1
            &&& session_updated(
                id,
                expected_revision,
                later,
                Some(next),
                later_active,
                later_references,
                later_timestamp,
            ) is Err
            &&& session_deletion(id, expected_revision, Some(next), later_active) is Err
        }),
{
}

} // verus!
