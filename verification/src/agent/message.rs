use vstd::prelude::*;

use crate::agent::content::{
    block_views, canonical, message_blocks, normalize_message_json, normalized_as, role_check,
    validate_message_role, ContentView, NormalizedMessage,
};
use crate::agent::model::{AgentMessageRecord, AgentRunMessage};
use crate::agent::status::AgentMessageRole;
use crate::error::StorageError;
use crate::number::{fits_sql, from_sql_u64, next_count, sql_u64, successor, to_sql_i64};
use crate::text::byte_len;

verus! {

/// Maximum retained messages in one session.
pub const MAX_AGENT_MESSAGES_PER_SESSION: u64 = 4096;

/// Maximum retained UTF-8 message bytes in one session.
pub const MAX_AGENT_MESSAGE_BYTES_PER_SESSION: u64 = 32 * 1024 * 1024;

/// What the store holds of a session's messages when one is appended.
#[derive(Debug, Clone, Copy, PartialEq, Eq, Structural)]
pub struct SessionMessages {
    /// Whether the session exists.
    pub session_exists: bool,
    /// Whether the session owns the run that the message belongs to.
    pub run_owned: bool,
    /// Number of messages.
    pub count: i64,
    /// Sum of their bytes.
    pub bytes: i64,
    /// Highest ordinal.
    pub maximum: Option<i64>,
}

/// A message of a run in its canonical form.
pub struct NormalizedAgentRunMessage {
    /// Message role.
    pub role: AgentMessageRole,
    /// Coverage of a summary.
    pub summary_through_ordinal: Option<u64>,
    /// Canonical content.
    pub content: NormalizedMessage,
}

/// The owner of a message: a session and possibly one of its runs.
pub struct MessageOwner {
    /// Session id.
    pub session_id: String,
    /// Run id.
    pub run_id: Option<String>,
}

/// A message before it has a place in its session.
pub struct MessageDraft {
    /// Message id.
    pub id: String,
    /// Message role.
    pub role: AgentMessageRole,
    /// Coverage of a summary.
    pub summary_through_ordinal: Option<u64>,
    /// Blocks.
    pub blocks: Seq<ContentView>,
}

/// A stored message as a value.
pub struct StoredMessage {
    /// Session and run.
    pub owner: MessageOwner,
    /// Place in the session.
    pub ordinal: u64,
    /// The message itself.
    pub draft: MessageDraft,
    /// Creation time.
    pub created_at_ms: i64,
}

/// A record holds a stored message.
pub open spec fn holds(record: AgentMessageRecord, message: StoredMessage) -> bool {
    &&& record.id == message.draft.id
    &&& record.session_id == message.owner.session_id
    &&& record.run_id == message.owner.run_id
    &&& record.ordinal == message.ordinal
    &&& record.role == message.draft.role
    &&& record.summary_through_ordinal == message.draft.summary_through_ordinal
    &&& record.content_json@ == canonical(message.draft.blocks)
    &&& record.content_bytes == byte_len(canonical(message.draft.blocks))
    &&& record.created_at_ms == message.created_at_ms
}

/// Records hold stored messages, one for one.
pub open spec fn hold_all(records: Seq<AgentMessageRecord>, messages: Seq<StoredMessage>) -> bool {
    &&& records.len() == messages.len()
    &&& forall|i: int| 0 <= i < records.len() ==> holds(#[trigger] records[i], messages[i])
}

/// The draft that a normalised message and an id make.
pub open spec fn draft_of(message: NormalizedAgentRunMessage, id: String) -> MessageDraft {
    MessageDraft {
        id,
        role: message.role,
        summary_through_ordinal: message.summary_through_ordinal,
        blocks: block_views(message.content.blocks@),
    }
}

/// Bytes that a draft takes in its session.
pub open spec fn draft_bytes(draft: MessageDraft) -> u64 {
    byte_len(canonical(draft.blocks)) as u64
}

/// Coverage belongs to summaries and to nothing else.
pub open spec fn coverage_belongs(role: AgentMessageRole, coverage: Option<u64>) -> bool {
    (role is Summary) == (coverage is Some)
}

/// The ordinal after the highest one.
pub open spec fn next_ordinal(maximum: Option<i64>) -> Result<u64, StorageError> {
    match maximum {
        None => Ok(0),
        Some(stored) => match sql_u64(stored, "agent message ordinal") {
            Err(error) => Err(error),
            Ok(ordinal) => successor(ordinal, "agent message ordinal"),
        },
    }
}

/// The ordinal that a message gets within the quotas of its session.
pub open spec fn placed(totals: SessionMessages, draft: MessageDraft) -> Result<u64, StorageError> {
    if totals.count < 0 {
        Err(StorageError::NumericRange("agent message count"))
    } else if totals.bytes < 0 {
        Err(StorageError::NumericRange("agent message total bytes"))
    } else if totals.count >= MAX_AGENT_MESSAGES_PER_SESSION {
        Err(
            StorageError::AgentQuotaExceeded {
                resource: "session message count",
                limit: MAX_AGENT_MESSAGES_PER_SESSION,
            },
        )
    } else if totals.bytes + draft_bytes(draft) > u64::MAX {
        Err(StorageError::NumericRange("agent message total bytes"))
    } else if totals.bytes + draft_bytes(draft) > MAX_AGENT_MESSAGE_BYTES_PER_SESSION {
        Err(
            StorageError::AgentQuotaExceeded {
                resource: "session message bytes",
                limit: MAX_AGENT_MESSAGE_BYTES_PER_SESSION,
            },
        )
    } else {
        match next_ordinal(totals.maximum) {
            Err(error) => Err(error),
            Ok(ordinal) => if draft.summary_through_ordinal matches Some(coverage) && coverage
                >= ordinal {
                Err(StorageError::InvalidAgent("summary coverage must precede the summary message"))
            } else if !fits_sql(ordinal) {
                Err(StorageError::NumericRange("agent message ordinal"))
            } else {
                Ok(ordinal)
            },
        }
    }
}

/// The message that is stored, or the first rule that it breaks.
pub open spec fn appended(
    owner: MessageOwner,
    totals: SessionMessages,
    draft: MessageDraft,
    timestamp: i64,
) -> Result<StoredMessage, StorageError> {
    if !totals.session_exists {
        Err(StorageError::AgentSessionNotFound(owner.session_id))
    } else if owner.run_id is Some && !totals.run_owned {
        Err(StorageError::AgentRunNotFound(owner.run_id->0))
    } else if !coverage_belongs(draft.role, draft.summary_through_ordinal) {
        Err(StorageError::InvalidAgent("summary coverage is required only for summary messages"))
    } else {
        match role_check(draft.role, draft.blocks) {
            Err(error) => Err(error),
            Ok(_) => match placed(totals, draft) {
                Err(error) => Err(error),
                Ok(ordinal) => Ok(
                    StoredMessage { owner, ordinal, draft, created_at_ms: timestamp },
                ),
            },
        }
    }
}

/// What the store holds once a message is stored.
pub open spec fn grown(totals: SessionMessages, message: StoredMessage) -> SessionMessages {
    SessionMessages {
        count: (totals.count + 1) as i64,
        bytes: (totals.bytes + draft_bytes(message.draft)) as i64,
        maximum: Some(message.ordinal as i64),
        ..totals
    }
}

/// What the store holds once messages are stored in a row.
pub open spec fn grown_by(totals: SessionMessages, messages: Seq<StoredMessage>) -> SessionMessages
    decreases messages.len(),
{
    if messages.len() == 0 {
        totals
    } else {
        grown(grown_by(totals, messages.drop_last()), messages.last())
    }
}

/// The messages that are stored in a row, or the first failure among them.
pub open spec fn appended_all(
    owner: MessageOwner,
    totals: SessionMessages,
    drafts: Seq<MessageDraft>,
    timestamp: i64,
) -> Result<Seq<StoredMessage>, StorageError>
    decreases drafts.len(),
{
    if drafts.len() == 0 {
        Ok(Seq::empty())
    } else {
        match appended_all(owner, totals, drafts.drop_last(), timestamp) {
            Err(error) => Err(error),
            Ok(earlier) => match appended(
                owner,
                grown_by(totals, earlier),
                drafts.last(),
                timestamp,
            ) {
                Err(error) => Err(error),
                Ok(message) => Ok(earlier.push(message)),
            },
        }
    }
}

/// The drafts that normalised messages and their ids make.
pub open spec fn drafts_of(
    messages: Seq<NormalizedAgentRunMessage>,
    ids: Seq<String>,
) -> Seq<MessageDraft> {
    Seq::new(messages.len(), |i: int| draft_of(messages[i], ids[i]))
}

/// A normalised message whose text is the canonical one of its blocks.
pub open spec fn is_normalized(message: NormalizedMessage) -> bool {
    normalized_as(message, block_views(message.blocks@))
}

/// Appends one message to a session, given what the store holds of that session.
pub fn append_message_in_transaction(
    owner: &MessageOwner,
    totals: SessionMessages,
    message: NormalizedAgentRunMessage,
    id: &String,
    timestamp: i64,
) -> (result: Result<AgentMessageRecord, StorageError>)
    requires
        is_normalized(message.content),
    ensures
        match (result, appended(*owner, totals, draft_of(message, *id), timestamp)) {
            (Ok(record), Ok(stored)) => holds(record, stored),
            (Err(error), Err(expected)) => error == expected,
            _ => false,
        },
{
    if !totals.session_exists {
        return Err(StorageError::AgentSessionNotFound(owner.session_id.clone()));
    }
    if let Some(run_id) = &owner.run_id {
        if !totals.run_owned {
            return Err(StorageError::AgentRunNotFound(run_id.clone()));
        }
    }
    if (message.role == AgentMessageRole::Summary) != message.summary_through_ordinal.is_some() {
        return Err(
            StorageError::InvalidAgent("summary coverage is required only for summary messages"),
        );
    }
    validate_message_role(message.role, &message.content.blocks)?;
    let count: u64 = from_sql_u64(totals.count, "agent message count")?;
    let bytes: u64 = from_sql_u64(totals.bytes, "agent message total bytes")?;
    if count >= MAX_AGENT_MESSAGES_PER_SESSION {
        return Err(
            StorageError::AgentQuotaExceeded {
                resource: "session message count",
                limit: MAX_AGENT_MESSAGES_PER_SESSION,
            },
        );
    }
    let total: u64 = match bytes.checked_add(message.content.content_bytes) {
        Some(total) => total,
        None => return Err(StorageError::NumericRange("agent message total bytes")),
    };
    if total > MAX_AGENT_MESSAGE_BYTES_PER_SESSION {
        return Err(
            StorageError::AgentQuotaExceeded {
                resource: "session message bytes",
                limit: MAX_AGENT_MESSAGE_BYTES_PER_SESSION,
            },
        );
    }
    let ordinal: u64 = match totals.maximum {
        None => 0,
        Some(stored) => {
            let highest: u64 = from_sql_u64(stored, "agent message ordinal")?;
            next_count(highest, "agent message ordinal")?
        },
    };
    if let Some(coverage) = message.summary_through_ordinal {
        if coverage >= ordinal {
            return Err(
                StorageError::InvalidAgent("summary coverage must precede the summary message"),
            );
        }
    }
    to_sql_i64(ordinal, "agent message ordinal")?;
    Ok(
        AgentMessageRecord {
            id: id.clone(),
            session_id: owner.session_id.clone(),
            run_id: owner.run_id.clone(),
            ordinal,
            role: message.role,
            summary_through_ordinal: message.summary_through_ordinal,
            content_json: message.content.content_json,
            content_bytes: message.content.content_bytes,
            created_at_ms: timestamp,
        },
    )
}

/// Messages that a run adds to its session come from the assistant and from tools.
pub open spec fn run_message_blocks(message: AgentRunMessage) -> Result<
    Seq<ContentView>,
    StorageError,
> {
    match message.role {
        AgentMessageRole::Assistant | AgentMessageRole::Tool => message_blocks(
            message.content_json@,
        ),
        _ => Err(
            StorageError::InvalidAgent(
                "run message batches may contain only assistant or tool messages",
            ),
        ),
    }
}

/// The blocks of a batch of messages, or the first failure among them.
pub open spec fn batch_blocks(messages: Seq<AgentRunMessage>) -> Result<
    Seq<Seq<ContentView>>,
    StorageError,
>
    decreases messages.len(),
{
    if messages.len() == 0 {
        Ok(Seq::empty())
    } else {
        match batch_blocks(messages.drop_last()) {
            Err(error) => Err(error),
            Ok(earlier) => match run_message_blocks(messages.last()) {
                Err(error) => Err(error),
                Ok(blocks) => Ok(earlier.push(blocks)),
            },
        }
    }
}

/// The blocks of the messages with which a run ends or goes on.
pub open spec fn run_batch_blocks(
    messages: Seq<AgentRunMessage>,
    require_final_assistant: bool,
) -> Result<Seq<Seq<ContentView>>, StorageError> {
    if require_final_assistant && !(messages.len() > 0 && messages.last().role is Assistant) {
        Err(
            StorageError::InvalidAgent(
                "completed agent run requires a final assistant message",
            ),
        )
    } else {
        batch_blocks(messages)
    }
}

/// The drafts of a batch of messages.
pub open spec fn batch_drafts(
    messages: Seq<AgentRunMessage>,
    ids: Seq<String>,
    blocks: Seq<Seq<ContentView>>,
) -> Seq<MessageDraft> {
    Seq::new(
        messages.len(),
        |i: int|
            MessageDraft {
                id: ids[i],
                role: messages[i].role,
                summary_through_ordinal: messages[i].summary_through_ordinal,
                blocks: blocks[i],
            },
    )
}

/// Normalised messages stand for a batch with its blocks.
pub open spec fn normalizes_batch(
    normalized: Seq<NormalizedAgentRunMessage>,
    messages: Seq<AgentRunMessage>,
    blocks: Seq<Seq<ContentView>>,
) -> bool {
    &&& normalized.len() == messages.len()
    &&& blocks.len() == messages.len()
    &&& forall|i: int|
        0 <= i < normalized.len() ==> normalized_as((#[trigger] normalized[i]).content, blocks[i])
            && normalized[i].role == messages[i].role && normalized[i].summary_through_ordinal
            == messages[i].summary_through_ordinal
}

/// A failure in a batch is the failure of every batch that begins with it.
proof fn lemma_batch_failure(messages: Seq<AgentRunMessage>, length: int)
    requires
        0 <= length <= messages.len(),
        batch_blocks(messages.take(length)) is Err,
    ensures
        batch_blocks(messages) == batch_blocks(messages.take(length)),
    decreases messages.len() - length,
{
    if length == messages.len() {
        assert(messages.take(length) =~= messages);
    } else {
        assert(messages.take(length + 1).drop_last() =~= messages.take(length));
        lemma_batch_failure(messages, length + 1);
    }
}

/// Reads the messages with which a run ends or goes on.
pub fn normalize_agent_run_messages(
    messages: &Vec<AgentRunMessage>,
    require_final_assistant: bool,
) -> (result: Result<Vec<NormalizedAgentRunMessage>, StorageError>)
    ensures
        match (result, run_batch_blocks(messages@, require_final_assistant)) {
            (Ok(normalized), Ok(blocks)) => normalizes_batch(normalized@, messages@, blocks),
            (Err(error), Err(expected)) => error == expected,
            _ => false,
        },
{
    if require_final_assistant && (messages.len() == 0 || messages[messages.len() - 1].role
        != AgentMessageRole::Assistant) {
        return Err(
            StorageError::InvalidAgent("completed agent run requires a final assistant message"),
        );
    }
    let mut normalized: Vec<NormalizedAgentRunMessage> = Vec::new();
    let mut i: usize = 0;
    while i < messages.len()
        invariant
            i <= messages.len(),
            run_batch_blocks(messages@, require_final_assistant) == batch_blocks(messages@),
            batch_blocks(messages@.take(i as int)) matches Ok(blocks) && normalizes_batch(
                normalized@,
                messages@.take(i as int),
                blocks,
            ),
        decreases messages.len() - i,
    {
        let ghost before = messages@.take(i as int);
        let ghost after = messages@.take(i as int + 1);
        proof {
            assert(after.drop_last() =~= before);
            assert(after.last() == messages@[i as int]);
        }
        let message = &messages[i];
        let normal = match message.role {
            AgentMessageRole::Assistant | AgentMessageRole::Tool => normalize_message_json(
                message.content_json.as_str(),
            ),
            _ => Err(
                StorageError::InvalidAgent(
                    "run message batches may contain only assistant or tool messages",
                ),
            ),
        };
        match normal {
            Ok(content) => {
                normalized.push(
                    NormalizedAgentRunMessage {
                        role: message.role,
                        summary_through_ordinal: message.summary_through_ordinal,
                        content,
                    },
                );
            },
            Err(error) => {
                proof {
                    lemma_batch_failure(messages@, i as int + 1);
                }
                return Err(error);
            },
        }
        i = i + 1;
    }
    assert(messages@.take(messages.len() as int) =~= messages@);
    Ok(normalized)
}

/// A failure to store a batch is the failure of every batch that begins with it.
proof fn lemma_append_failure(
    owner: MessageOwner,
    totals: SessionMessages,
    drafts: Seq<MessageDraft>,
    timestamp: i64,
    length: int,
)
    requires
        0 <= length <= drafts.len(),
        appended_all(owner, totals, drafts.take(length), timestamp) is Err,
    ensures
        appended_all(owner, totals, drafts, timestamp) == appended_all(
            owner,
            totals,
            drafts.take(length),
            timestamp,
        ),
    decreases drafts.len() - length,
{
    if length == drafts.len() {
        assert(drafts.take(length) =~= drafts);
    } else {
        assert(drafts.take(length + 1).drop_last() =~= drafts.take(length));
        lemma_append_failure(owner, totals, drafts, timestamp, length + 1);
    }
}

/// Appends the messages of a run, one after the other.
pub fn append_run_messages(
    owner: &MessageOwner,
    totals: SessionMessages,
    messages: Vec<NormalizedAgentRunMessage>,
    ids: &Vec<String>,
    timestamp: i64,
) -> (result: Result<Vec<AgentMessageRecord>, StorageError>)
    requires
        ids@.len() == messages@.len(),
        forall|i: int| 0 <= i < messages@.len() ==> is_normalized((#[trigger] messages@[i]).content),
    ensures
        match (result, appended_all(*owner, totals, drafts_of(messages@, ids@), timestamp)) {
            (Ok(records), Ok(stored)) => hold_all(records@, stored),
            (Err(error), Err(expected)) => error == expected,
            _ => false,
        },
{
    let ghost whole = messages@;
    let ghost drafts = drafts_of(whole, ids@);
    let mut records: Vec<AgentMessageRecord> = Vec::new();
    let mut totals_now: SessionMessages = totals;
    let ghost mut stored: Seq<StoredMessage> = Seq::empty();
    assert(drafts.take(0) =~= Seq::empty());
    for message in it: messages
        invariant
            it.seq() == whole,
            ids@.len() == whole.len(),
            drafts == drafts_of(whole, ids@),
            records@.len() == it.index(),
            stored.len() == it.index(),
            forall|i: int| 0 <= i < whole.len() ==> is_normalized((#[trigger] whole[i]).content),
            appended_all(*owner, totals, drafts.take(it.index() as int), timestamp) == Ok::<
                Seq<StoredMessage>,
                StorageError,
            >(stored),
            totals_now == grown_by(totals, stored),
            hold_all(records@, stored),
    {
        let ghost index = it.index() as int;
        proof {
            assert(drafts.take(index + 1).drop_last() =~= drafts.take(index));
            assert(drafts.take(index + 1).last() == draft_of(whole[index], ids@[index]));
        }
        let position: usize = records.len();
        match append_message_in_transaction(
            owner,
            totals_now,
            message,
            &ids[position],
            timestamp,
        ) {
            Ok(record) => {
                let ghost entry = appended(*owner, totals_now, drafts[index], timestamp)->Ok_0;
                totals_now =
                SessionMessages {
                    count: totals_now.count + 1,
                    bytes: totals_now.bytes + record.content_bytes as i64,
                    maximum: Some(record.ordinal as i64),
                    ..totals_now
                };
                records.push(record);
                proof {
                    assert(stored.push(entry).drop_last() =~= stored);
                    stored = stored.push(entry);
                }
            },
            Err(error) => {
                proof {
                    lemma_append_failure(*owner, totals, drafts, timestamp, index + 1);
                }
                return Err(error);
            },
        }
    }
    assert(drafts.take(whole.len() as int) =~= drafts);
    Ok(records)
}

} // verus!
