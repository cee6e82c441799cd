//! What an accepted operation on a session, a message or a result handle does, field by field.

use vstd::prelude::*;

use crate::agent::content::{canonical, message_blocks, ContentView};
use crate::agent::handle::{expired_handles, handle_created, live_result, ObservedResult};
use crate::agent::message::{hold_all, holds, SessionMessages, StoredMessage};
use crate::agent::model::{
    AgentMessageRecord, AgentResultHandle, AgentSessionRecord, AppendAgentMessage,
    CreateAgentSession, UpdateAgentSession,
};
use crate::agent::session::{
    message_appended, message_page, session_after, session_created, session_deletion,
    session_updated, SessionReferences,
};
use crate::error::StorageError;
use crate::query::lemma_filter_of_longer;
use crate::text::{blank, byte_len};

verus! {

/// A session is created with the title, the provider and the datasource that were asked for, at
/// revision one and at the given time. Its system prompt, if it has one, is its first message, one
/// text block of the system, which belongs to no run.
pub proof fn law_session_is_created_as_asked(
    input: CreateAgentSession,
    references: SessionReferences,
    id: String,
    message_id: String,
    timestamp: i64,
)
    ensures
        session_created(
            input,
            references,
            id,
            message_id,
            timestamp,
        ) matches Ok((session, prompt)) ==> {
            &&& session.id == id
            &&& session.title == input.title
            &&& session.provider_id == input.provider_id
            &&& session.datasource_id == input.datasource_id
            &&& session.revision == 1
            &&& session.created_at_ms == timestamp
            &&& session.updated_at_ms == timestamp
            &&& input.system_prompt is Some <==> prompt is Some
            &&& prompt matches Some(message) ==> {
                &&& message.draft.id == message_id
                &&& message.draft.role is System
                &&& message.draft.summary_through_ordinal is None
                &&& message.draft.blocks == seq![ContentView::Text(input.system_prompt->0@)]
                &&& message.owner.session_id == id
                &&& message.owner.run_id is None
                &&& message.ordinal == 0
                &&& message.created_at_ms == timestamp
            }
        },
        session_created(input, references, id, message_id, timestamp) is Ok <==> {
            &&& !blank(input.title@) && byte_len(input.title@) <= 512
            &&& references.provider_exists
            &&& input.datasource_id is Some ==> references.datasource_exists
            &&& input.system_prompt matches Some(text) ==> !blank(text@) && 0 < byte_len(
                canonical(seq![ContentView::Text(text@)]),
            ) <= 262_144
        },
{
    if let Some(text) = input.system_prompt {
        let blocks = seq![ContentView::Text(text@)];
        if !blank(text@) {
            assert(text@.len() > 0);
            assert(blocks[0] == ContentView::Text(text@));
        }
    }
}

/// An update gives the session the title, the provider and the datasource that were asked for,
/// advances its revision by one and sets its update time to the given one; its id and its creation
/// time stay.
pub proof fn law_session_update_sets_what_is_asked(
    id: String,
    expected_revision: u64,
    input: UpdateAgentSession,
    current: AgentSessionRecord,
    session_active: bool,
    references: SessionReferences,
    timestamp: i64,
)
    ensures
        session_updated(
            id,
            expected_revision,
            input,
            Some(current),
            session_active,
            references,
            timestamp,
        ) matches Ok(next) ==> {
            &&& next.id == current.id
            &&& next.title == input.title
            &&& next.provider_id == input.provider_id
            &&& next.datasource_id == input.datasource_id
            &&& next.revision == current.revision + 1
            &&& next.created_at_ms == current.created_at_ms
            &&& next.updated_at_ms == timestamp
        },
{
}

/// An update is accepted exactly if the title is valid, the session is there at the revision that
/// was expected, what it is to refer to exists, its next revision can be stored, and, while a run is
/// active, provider and datasource stay.
pub proof fn law_session_update_is_accepted(
    id: String,
    expected_revision: u64,
    input: UpdateAgentSession,
    session: Option<AgentSessionRecord>,
    session_active: bool,
    references: SessionReferences,
    timestamp: i64,
)
    ensures
        session_updated(
            id,
            expected_revision,
            input,
            session,
            session_active,
            references,
            timestamp,
        ) is Ok <==> {
            &&& !blank(input.title@) && byte_len(input.title@) <= 512
            &&& session matches Some(current) && current.revision == expected_revision && (
            session_active ==> current.provider_id@ == input.provider_id@ && (
            current.datasource_id is Some <==> input.datasource_id is Some) && (
            current.datasource_id matches Some(old) ==> (input.datasource_id matches Some(new)
                && old@ == new@)))
            &&& references.provider_exists
            &&& input.datasource_id is Some ==> references.datasource_exists
            &&& expected_revision < i64::MAX
        },
{
}

/// A session is deleted exactly if it is there at the revision that was expected and no run is
/// active.
pub proof fn law_session_deletion_is_accepted(
    id: String,
    expected_revision: u64,
    session: Option<AgentSessionRecord>,
    session_active: bool,
)
    ensures
        session_deletion(id, expected_revision, session, session_active) is Ok <==> {
            &&& session matches Some(current) && current.revision == expected_revision
            &&& expected_revision <= i64::MAX
            &&& !session_active
        },
{
}

/// A message of no run is stored with the role, the coverage and the blocks of its content, behind
/// the last message of its session, while no run is active; a summary is never stored this way.
pub proof fn law_message_is_appended_as_asked(
    session_id: String,
    input: AppendAgentMessage,
    session_active: bool,
    totals: SessionMessages,
    id: String,
    timestamp: i64,
)
    ensures
        message_appended(
            session_id,
            input,
            session_active,
            totals,
            id,
            timestamp,
        ) matches Ok(message) ==> {
            &&& !session_active
            &&& !(input.role is Summary)
            &&& input.summary_through_ordinal is None
            &&& message.draft.id == id
            &&& message.draft.role == input.role
            &&& message.draft.summary_through_ordinal is None
            &&& message_blocks(input.content_json@) == Ok::<Seq<ContentView>, StorageError>(
                message.draft.blocks,
            )
            &&& message.owner.session_id == session_id
            &&& message.owner.run_id is None
            &&& totals.maximum is None ==> message.ordinal == 0
            &&& totals.maximum matches Some(last) ==> message.ordinal == last + 1
            &&& message.created_at_ms == timestamp
        },
        session_active || input.role is Summary ==> message_appended(
            session_id,
            input,
            session_active,
            totals,
            id,
            timestamp,
        ) is Err,
{
}

/// The record of a stored message has its id, its place, its owner, its role, its coverage and its
/// time, and holds its blocks in canonical form.
pub proof fn law_message_record_holds_the_message(
    record: AgentMessageRecord,
    message: StoredMessage,
)
    requires
        holds(record, message),
    ensures
        record.id == message.draft.id,
        record.session_id == message.owner.session_id,
        record.run_id == message.owner.run_id,
        record.ordinal == message.ordinal,
        record.role == message.draft.role,
        record.summary_through_ordinal == message.draft.summary_through_ordinal,
        record.content_json@ == canonical(message.draft.blocks),
        record.content_bytes == byte_len(record.content_json@),
        record.created_at_ms == message.created_at_ms,
{
}

/// Appended messages date their session by the last of them and change nothing else of it.
pub proof fn law_appended_messages_date_the_session(
    session: AgentSessionRecord,
    appended: Seq<AgentMessageRecord>,
    last: AgentMessageRecord,
)
    ensures
        session_after(session, Seq::empty()) == session,
        ({
            let next = session_after(session, appended.push(last));
            &&& next.updated_at_ms == last.created_at_ms
            &&& next.id == session.id
            &&& next.title == session.title
            &&& next.provider_id == session.provider_id
            &&& next.datasource_id == session.datasource_id
            &&& next.revision == session.revision
            &&& next.created_at_ms == session.created_at_ms
        }),
{
}

/// A page of one to 512 messages of a session that exists begins at the ordinal that was asked for
/// and has room for as many messages as were asked for.
pub proof fn law_message_page_is_as_asked(
    session_id: String,
    start_ordinal: u64,
    limit: u32,
    session_exists: bool,
)
    ensures
        message_page(session_id, start_ordinal, limit, session_exists) is Ok <==> 1 <= limit <= 512
            && session_exists && start_ordinal <= i64::MAX,
        message_page(session_id, start_ordinal, limit, session_exists) matches Ok((start, room))
            ==> start == start_ordinal && room == limit,
{
}

/// A handle is created for the session, the run and the result that were named, from the given time
/// until the earlier of the time that was asked for and the end of the result. That succeeds exactly
/// if the run belongs to the session, the result is complete and has not expired, and the time that
/// was asked for lies ahead.
pub proof fn law_handle_is_created_as_asked(
    session_id: String,
    run_id: String,
    result_id: String,
    owner: Option<String>,
    result: Option<ObservedResult>,
    id: String,
    timestamp: i64,
    requested_expiry: i64,
)
    ensures
        ({
            let outcome = handle_created(
                session_id,
                run_id,
                result_id,
                owner,
                result,
                id,
                timestamp,
                requested_expiry,
            );
            &&& outcome is Ok <==> {
                &&& timestamp < requested_expiry
                &&& owner matches Some(session) && session@ == session_id@
                &&& result matches Some(observed) && observed.complete && timestamp
                    < observed.expires_at_ms
            }
            &&& outcome matches Ok(handle) ==> {
                &&& handle.id == id
                &&& handle.session_id == session_id
                &&& handle.run_id == run_id
                &&& handle.result_id == result_id
                &&& handle.created_at_ms == timestamp
                &&& result matches Some(observed) && if observed.expires_at_ms < requested_expiry {
                    handle.expires_at_ms == observed.expires_at_ms
                } else {
                    handle.expires_at_ms == requested_expiry
                }
            }
        }),
{
}

/// A result is live exactly if it is there, complete and not yet expired.
pub proof fn law_live_result_is_complete_and_unexpired(
    result: Option<ObservedResult>,
    timestamp: i64,
)
    ensures
        live_result(result, timestamp) <==> (result matches Some(observed) && observed.complete
            && timestamp < observed.expires_at_ms),
{
}

/// A purge selects each handle whose time has come, in order, and no other.
pub proof fn law_purge_selects_expired_handles(
    handles: Seq<AgentResultHandle>,
    handle: AgentResultHandle,
    timestamp: i64,
)
    ensures
        expired_handles(Seq::empty(), timestamp).len() == 0,
        handle.expires_at_ms <= timestamp ==> expired_handles(handles.push(handle), timestamp)
            == expired_handles(handles, timestamp).push(handle),
        handle.expires_at_ms > timestamp ==> expired_handles(handles.push(handle), timestamp)
            == expired_handles(handles, timestamp),
{
    lemma_filter_of_longer(
        handles,
        handle,
        |handle: AgentResultHandle| handle.expires_at_ms <= timestamp,
    );
}

/// The records of stored messages hold them one for one.
pub proof fn law_message_records_hold_the_messages(
    records: Seq<AgentMessageRecord>,
    messages: Seq<StoredMessage>,
)
    requires
        hold_all(records, messages),
    ensures
        records.len() == messages.len(),
        forall|i: int|
            0 <= i < records.len() ==> {
                &&& (#[trigger] records[i]).id == messages[i].draft.id
                &&& records[i].session_id == messages[i].owner.session_id
                &&& records[i].run_id == messages[i].owner.run_id
                &&& records[i].ordinal == messages[i].ordinal
                &&& records[i].role == messages[i].draft.role
                &&& records[i].summary_through_ordinal
                    == messages[i].draft.summary_through_ordinal
                &&& records[i].content_json@ == canonical(messages[i].draft.blocks)
                &&& records[i].content_bytes == byte_len(records[i].content_json@)
                &&& records[i].created_at_ms == messages[i].created_at_ms
            },
{
}

} // verus!
