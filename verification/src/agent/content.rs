use serde_json::Value;
use vstd::prelude::*;

use crate::agent::canonical::{
    block_trees, law_canonical_text_is_compact_json, lemma_plain_message, lemma_read_message,
    message_tree,
};
use crate::agent::status::AgentMessageRole;
use crate::agent::visibility::{
    facts_view, message_read, not_visible, plain_message, read_message, validate_visible, visible_check,
    FactsView, MessageFacts,
};
use crate::error::StorageError;
use crate::json::{
    document, documents, find_member, find_text, is_json_object, json_node, member, object_text,
    optional_document, parse_json, parsed, quote_json, quoted, regular_text, same_document,
    text_member, JsonNode, JsonTree,
};
use crate::number::to_u64;
use crate::text::{blank, byte_len, is_blank, lemma_chars_within_bytes, same_text, text_len};

verus! {

/// Maximum persisted UTF-8 bytes of one message.
pub const MAX_AGENT_MESSAGE_BYTES: u64 = 256 * 1024;

/// One tool call that the assistant asks for.
#[derive(Clone, PartialEq, Eq)]
pub struct AgentToolCall {
    /// Call id, echoed by the tool's result.
    pub id: String,
    /// Tool name.
    pub name: String,
    /// Arguments, a JSON object as text.
    pub arguments_json: String,
}

/// Visible output of a tool.
#[derive(Clone, PartialEq, Eq)]
pub struct AgentToolOutput {
    /// Text shown to the model.
    pub content: String,
    /// Whether the text was cut.
    pub truncated: bool,
}

/// One visible block of a message.
#[derive(Clone, PartialEq, Eq)]
pub enum AgentMessageContent {
    /// Text.
    Text {
        /// The text.
        text: String,
    },
    /// Tool calls of the assistant.
    ToolCalls {
        /// The calls, in order.
        calls: Vec<AgentToolCall>,
    },
    /// Result of one tool call.
    ToolResult {
        /// Id of the call.
        tool_call_id: String,
        /// Tool name.
        name: String,
        /// Its output.
        output: AgentToolOutput,
    },
}

/// A message in its canonical form.
pub struct NormalizedMessage {
    /// Canonical JSON text.
    pub content_json: String,
    /// Its length in bytes.
    pub content_bytes: u64,
    /// The blocks that the text stands for.
    pub blocks: Vec<AgentMessageContent>,
}

/// A tool call as a value.
pub struct ToolCallView {
    /// Call id.
    pub id: Seq<char>,
    /// Tool name.
    pub name: Seq<char>,
    /// Arguments as text.
    pub arguments_json: Seq<char>,
}

/// A block as a value.
pub enum ContentView {
    /// Text.
    Text(Seq<char>),
    /// Tool calls.
    ToolCalls(Seq<ToolCallView>),
    /// Result of a call: its id, the tool's name, the output text and whether that was cut.
    ToolResult(Seq<char>, Seq<char>, Seq<char>, bool),
}

impl View for AgentToolCall {
    type V = ToolCallView;

    open spec fn view(&self) -> ToolCallView {
        ToolCallView {
            id: self.id@,
            name: self.name@,
            arguments_json: self.arguments_json@,
        }
    }
}

/// The calls as values.
pub open spec fn call_views(calls: Seq<AgentToolCall>) -> Seq<ToolCallView> {
    calls.map_values(|call: AgentToolCall| call@)
}

impl View for AgentMessageContent {
    type V = ContentView;

    open spec fn view(&self) -> ContentView {
        match *self {
            AgentMessageContent::Text { text } => ContentView::Text(text@),
            AgentMessageContent::ToolCalls { calls } => ContentView::ToolCalls(call_views(calls@)),
            AgentMessageContent::ToolResult { tool_call_id, name, output } => {
                ContentView::ToolResult(tool_call_id@, name@, output.content@, output.truncated)
            },
        }
    }
}

/// The blocks as values.
pub open spec fn block_views(blocks: Seq<AgentMessageContent>) -> Seq<ContentView> {
    blocks.map_values(|block: AgentMessageContent| block@)
}

/// The tool call that an object stands for.
pub open spec fn contract_call(tree: JsonTree) -> Option<ToolCallView> {
    match tree {
        JsonTree::Object(members) => match (
            text_member(members, "id"@),
            text_member(members, "name"@),
            text_member(members, "argumentsJson"@),
        ) {
            (Some(id), Some(name), Some(arguments_json)) => Some(
                ToolCallView { id, name, arguments_json },
            ),
            _ => None,
        },
        _ => None,
    }
}

/// The tool calls that an array stands for.
pub open spec fn contract_calls(items: Seq<JsonTree>) -> Option<Seq<ToolCallView>> {
    if forall|i: int| 0 <= i < items.len() ==> contract_call(#[trigger] items[i]) is Some {
        Some(Seq::new(items.len(), |i: int| contract_call(items[i])->0))
    } else {
        None
    }
}

/// The text output that an object stands for, and whether it was cut.
pub open spec fn contract_output(tree: JsonTree) -> Option<(Seq<char>, bool)> {
    match tree {
        JsonTree::Object(members) => match (
            text_member(members, "type"@),
            text_member(members, "content"@),
            member(members, "truncated"@),
        ) {
            (Some(kind), Some(content), Some(JsonTree::Bool(truncated))) => if kind == "text"@ {
                Some((content, truncated))
            } else {
                None
            },
            _ => None,
        },
        _ => None,
    }
}

/// The block that an object with a kind stands for.
pub open spec fn contract_members(kind: Seq<char>, members: Seq<(Seq<char>, JsonTree)>) -> Option<
    ContentView,
> {
    if kind == "text"@ {
        match text_member(members, "text"@) {
            Some(text) => Some(ContentView::Text(text)),
            None => None,
        }
    } else if kind == "tool_calls"@ {
        match member(members, "calls"@) {
            Some(JsonTree::Array(items)) => match contract_calls(items) {
                Some(calls) => Some(ContentView::ToolCalls(calls)),
                None => None,
            },
            _ => None,
        }
    } else if kind == "tool_result"@ {
        match (
            text_member(members, "toolCallId"@),
            text_member(members, "name"@),
            member(members, "output"@),
        ) {
            (Some(id), Some(name), Some(output)) => match contract_output(output) {
                Some((content, truncated)) => Some(
                    ContentView::ToolResult(id, name, content, truncated),
                ),
                None => None,
            },
            _ => None,
        }
    } else {
        None
    }
}

/// The block that a document stands for.
pub open spec fn contract_block(tree: JsonTree) -> Option<ContentView> {
    match tree {
        JsonTree::Object(members) => match text_member(members, "type"@) {
            Some(kind) => contract_members(kind, members),
            None => None,
        },
        _ => None,
    }
}

/// The blocks that an array stands for.
pub open spec fn contract_blocks(items: Seq<JsonTree>) -> Option<Seq<ContentView>> {
    if forall|i: int| 0 <= i < items.len() ==> contract_block(#[trigger] items[i]) is Some {
        Some(Seq::new(items.len(), |i: int| contract_block(items[i])->0))
    } else {
        None
    }
}

/// How many members an object has.
pub open spec fn width(tree: JsonTree) -> nat {
    match tree {
        JsonTree::Object(members) => members.len(),
        _ => 0,
    }
}

/// Every element has exactly the members of a tool call.
pub open spec fn exact_calls(items: Seq<JsonTree>) -> bool {
    forall|i: int| 0 <= i < items.len() ==> width(#[trigger] items[i]) == 3
}

/// A document that stands for a block has no member beyond those the block has.
pub open spec fn exact_block(tree: JsonTree) -> bool {
    match tree {
        JsonTree::Object(members) => match text_member(members, "type"@) {
            Some(kind) => if kind == "tool_result"@ {
                members.len() == 4 && (member(members, "output"@) matches Some(output) && width(
                    output,
                ) == 3)
            } else if kind == "tool_calls"@ {
                members.len() == 2 && (member(members, "calls"@) matches Some(
                    JsonTree::Array(items),
                ) && exact_calls(items))
            } else {
                members.len() == 2
            },
            None => false,
        },
        _ => false,
    }
}

/// The canonical text of a tool call.
pub open spec fn call_text(call: ToolCallView) -> Seq<char> {
    "{\"id\":"@ + quoted(call.id) + ",\"name\":"@ + quoted(call.name) + ",\"argumentsJson\":"@
        + quoted(call.arguments_json) + "}"@
}

/// The canonical texts of tool calls, separated by commas.
pub open spec fn call_texts(calls: Seq<ToolCallView>) -> Seq<char>
    decreases calls.len(),
{
    if calls.len() == 0 {
        Seq::empty()
    } else if calls.len() == 1 {
        call_text(calls[0])
    } else {
        call_texts(calls.drop_last()) + ","@ + call_text(calls.last())
    }
}

/// `true` or `false`.
pub open spec fn flag_text(flag: bool) -> Seq<char> {
    if flag {
        "true"@
    } else {
        "false"@
    }
}

/// The canonical text of a block.
pub open spec fn block_text(block: ContentView) -> Seq<char> {
    match block {
        ContentView::Text(text) => "{\"type\":\"text\",\"text\":"@ + quoted(text) + "}"@,
        ContentView::ToolCalls(calls) => "{\"type\":\"tool_calls\",\"calls\":["@ + call_texts(calls)
            + "]}"@,
        ContentView::ToolResult(id, name, content, truncated) => {
            "{\"type\":\"tool_result\",\"toolCallId\":"@ + quoted(id) + ",\"name\":"@ + quoted(name)
                + ",\"output\":{\"type\":\"text\",\"content\":"@ + quoted(content)
                + ",\"truncated\":"@ + flag_text(truncated) + "}}"@
        },
    }
}

/// The canonical texts of blocks, separated by commas.
pub open spec fn block_texts(blocks: Seq<ContentView>) -> Seq<char>
    decreases blocks.len(),
{
    if blocks.len() == 0 {
        Seq::empty()
    } else if blocks.len() == 1 {
        block_text(blocks[0])
    } else {
        block_texts(blocks.drop_last()) + ","@ + block_text(blocks.last())
    }
}

/// The canonical text of a message.
pub open spec fn canonical(blocks: Seq<ContentView>) -> Seq<char> {
    "["@ + block_texts(blocks) + "]"@
}

/// The failure of a message that is empty or too long.
pub open spec fn message_quota() -> StorageError {
    StorageError::AgentQuotaExceeded {
        resource: "single message bytes",
        limit: MAX_AGENT_MESSAGE_BYTES,
    }
}

/// Whether one message of that many bytes may be stored.
pub open spec fn message_fits(bytes: nat) -> bool {
    0 < bytes <= MAX_AGENT_MESSAGE_BYTES
}

/// The failure of a message that does not have the form of its blocks.
pub open spec fn contract_broken() -> StorageError {
    StorageError::InvalidAgent("message content does not match the canonical contract")
}

/// The blocks that a document stands for, of which there is at least one, or the first rule that it
/// breaks.
pub open spec fn document_blocks(document: Option<JsonTree>) -> Result<
    Seq<ContentView>,
    StorageError,
> {
    match document {
        Some(JsonTree::Array(items)) => match contract_blocks(items) {
            None => Err(contract_broken()),
            Some(blocks) => if blocks.len() == 0 {
                Err(not_visible())
            } else if !(forall|i: int|
                0 <= i < items.len() ==> exact_block(#[trigger] items[i])) {
                Err(
                    StorageError::InvalidAgent(
                        "message contains fields outside the canonical contract",
                    ),
                )
            } else if !message_fits(byte_len(canonical(blocks))) {
                Err(message_quota())
            } else {
                Ok(blocks)
            },
        },
        _ => Err(contract_broken()),
    }
}

/// The blocks of a message, or the first rule that it breaks, by its length, by what SQLite reads of
/// it and by its document.
pub open spec fn message_verdict(
    bytes: nat,
    facts: Option<FactsView>,
    document: Option<JsonTree>,
) -> Result<Seq<ContentView>, StorageError> {
    if !message_fits(bytes) {
        Err(message_quota())
    } else {
        match visible_check(facts) {
            Err(error) => Err(error),
            Ok(_) => document_blocks(document),
        }
    }
}

/// The blocks that a message text stands for, or the first rule that it breaks.
pub open spec fn message_blocks(text: Seq<char>) -> Result<Seq<ContentView>, StorageError> {
    message_verdict(byte_len(text), message_read(text), parsed(text))
}

/// The text reads as the document of the blocks, up to the order of members.
pub open spec fn reads_as(text: Seq<char>, blocks: Seq<ContentView>) -> bool {
    parsed(text) matches Some(found) && same_document(found, message_tree(blocks))
}

/// A message is brought to its canonical form, or refused with the first rule that it breaks. A
/// message in canonical form reads as its own blocks and stays as it is.
pub open spec fn normalizes(
    text: Seq<char>,
    result: Result<NormalizedMessage, StorageError>,
) -> bool {
    &&& match (result, message_blocks(text)) {
        (Ok(message), Ok(blocks)) => normalized_as(message, blocks),
        (Err(error), Err(expected)) => error == expected,
        _ => false,
    }
    &&& forall|blocks: Seq<ContentView>|
        blocks.len() > 0 && text == #[trigger] canonical(blocks) && message_fits(
            byte_len(canonical(blocks)),
        ) ==> reads_as(text, blocks) && (result matches Ok(message) && normalized_as(
            message,
            blocks,
        ))
}

/// The block of a plain text message, or the first rule that the text breaks.
pub open spec fn text_blocks(text: Seq<char>) -> Result<Seq<ContentView>, StorageError> {
    if blank(text) {
        Err(StorageError::InvalidAgent("agent text message must be non-empty"))
    } else if !message_fits(byte_len(canonical(seq![ContentView::Text(text)]))) {
        Err(message_quota())
    } else {
        Ok(seq![ContentView::Text(text)])
    }
}

/// A message whose text is the canonical one of its blocks.
pub open spec fn normalized_as(message: NormalizedMessage, blocks: Seq<ContentView>) -> bool {
    &&& block_views(message.blocks@) == blocks
    &&& message.content_json@ == canonical(blocks)
    &&& message.content_bytes == byte_len(canonical(blocks))
}

/// A call names itself and its tool and carries an argument object.
pub open spec fn valid_call(call: ToolCallView) -> bool {
    &&& !blank(call.id)
    &&& !blank(call.name)
    &&& object_text(call.arguments_json)
}

/// The blocks that each role may hold.
pub open spec fn role_admits(role: AgentMessageRole, blocks: Seq<ContentView>) -> bool {
    &&& blocks.len() > 0
    &&& match role {
        AgentMessageRole::System | AgentMessageRole::User => forall|i: int|
            0 <= i < blocks.len() ==> (#[trigger] blocks[i] matches ContentView::Text(text)
                && text.len() > 0),
        AgentMessageRole::Summary => forall|i: int|
            0 <= i < blocks.len() ==> (#[trigger] blocks[i] matches ContentView::Text(text)
                && !blank(text)),
        AgentMessageRole::Assistant => forall|i: int|
            0 <= i < blocks.len() ==> assistant_block(#[trigger] blocks[i]),
        AgentMessageRole::Tool => blocks.len() == 1 && (blocks[0] matches ContentView::ToolResult(
            id,
            name,
            _,
            _,
        ) && !blank(id) && !blank(name)),
    }
}

/// Assistant messages hold text and tool calls.
pub open spec fn assistant_block(block: ContentView) -> bool {
    match block {
        ContentView::Text(text) => text.len() > 0,
        ContentView::ToolCalls(calls) => calls.len() > 0 && forall|i: int|
            0 <= i < calls.len() ==> valid_call(#[trigger] calls[i]),
        ContentView::ToolResult(_, _, _, _) => false,
    }
}

/// The failure of blocks that the role does not admit.
pub open spec fn role_check(role: AgentMessageRole, blocks: Seq<ContentView>) -> Result<
    (),
    StorageError,
> {
    if role_admits(role, blocks) {
        Ok(())
    } else {
        Err(StorageError::InvalidAgent("message content blocks do not match the persisted role"))
    }
}

/// Reads a tool call.
fn read_call(value: &Value) -> (result: Option<AgentToolCall>)
    ensures
        match result {
            Some(call) => contract_call(document(*value)) == Some(call@),
            None => contract_call(document(*value)) is None,
        },
{
    match json_node(value) {
        JsonNode::Object(members) => match (
            find_text(&members, "id"),
            find_text(&members, "name"),
            find_text(&members, "argumentsJson"),
        ) {
            (Some(id), Some(name), Some(arguments)) => Some(
                AgentToolCall {
                    id: id.to_owned(),
                    name: name.to_owned(),
                    arguments_json: arguments.to_owned(),
                },
            ),
            _ => None,
        },
        _ => None,
    }
}

/// Reads the tool calls of an array.
fn read_calls(items: &[Value]) -> (result: Option<Vec<AgentToolCall>>)
    ensures
        match result {
            Some(calls) => contract_calls(documents(items@)) == Some(call_views(calls@)),
            None => contract_calls(documents(items@)) is None,
        },
{
    let ghost trees = documents(items@);
    let mut calls: Vec<AgentToolCall> = Vec::new();
    let mut i: usize = 0;
    while i < items.len()
        invariant
            i <= items.len(),
            i == calls.len(),
            trees == documents(items@),
            forall|j: int|
                0 <= j < i ==> contract_call(#[trigger] trees[j]) == Some(calls@[j]@),
        decreases items.len() - i,
    {
        assert(trees[i as int] == document(items@[i as int]));
        match read_call(&items[i]) {
            Some(call) => calls.push(call),
            None => {
                assert(contract_call(trees[i as int]) is None);
                return None;
            },
        }
        i = i + 1;
    }
    proof {
        assert(contract_calls(trees)->0 =~= call_views(calls@));
    }
    Some(calls)
}

/// Reads the output of a tool.
fn read_output(value: &Value) -> (result: Option<AgentToolOutput>)
    ensures
        match result {
            Some(output) => contract_output(document(*value)) == Some(
                (output.content@, output.truncated),
            ),
            None => contract_output(document(*value)) is None,
        },
{
    match json_node(value) {
        JsonNode::Object(members) => match (
            find_text(&members, "type"),
            find_text(&members, "content"),
            find_member(&members, "truncated"),
        ) {
            (Some(kind), Some(content), Some(truncated)) => match json_node(truncated) {
                JsonNode::Bool(truncated) => if same_text(kind, "text") {
                    Some(AgentToolOutput { content: content.to_owned(), truncated })
                } else {
                    None
                },
                _ => None,
            },
            _ => None,
        },
        _ => None,
    }
}

/// Reads a block.
fn read_block(value: &Value) -> (result: Option<AgentMessageContent>)
    ensures
        match result {
            Some(block) => contract_block(document(*value)) == Some(block@),
            None => contract_block(document(*value)) is None,
        },
{
    let members = match json_node(value) {
        JsonNode::Object(members) => members,
        _ => return None,
    };
    let kind = match find_text(&members, "type") {
        Some(kind) => kind,
        None => return None,
    };
    if same_text(kind, "text") {
        match find_text(&members, "text") {
            Some(text) => Some(AgentMessageContent::Text { text: text.to_owned() }),
            None => None,
        }
    } else if same_text(kind, "tool_calls") {
        match find_member(&members, "calls") {
            Some(calls) => match json_node(calls) {
                JsonNode::Array(items) => match read_calls(items) {
                    Some(calls) => Some(AgentMessageContent::ToolCalls { calls }),
                    None => None,
                },
                _ => None,
            },
            None => None,
        }
    } else if same_text(kind, "tool_result") {
        match (
            find_text(&members, "toolCallId"),
            find_text(&members, "name"),
            find_member(&members, "output"),
        ) {
            (Some(id), Some(name), Some(output)) => match read_output(output) {
                Some(output) => Some(
                    AgentMessageContent::ToolResult {
                        tool_call_id: id.to_owned(),
                        name: name.to_owned(),
                        output,
                    },
                ),
                None => None,
            },
            _ => None,
        }
    } else {
        None
    }
}

/// Reads the blocks of an array.
fn read_blocks(items: &[Value]) -> (result: Option<Vec<AgentMessageContent>>)
    ensures
        match result {
            Some(blocks) => contract_blocks(documents(items@)) == Some(block_views(blocks@)),
            None => contract_blocks(documents(items@)) is None,
        },
{
    let ghost trees = documents(items@);
    let mut blocks: Vec<AgentMessageContent> = Vec::new();
    let mut i: usize = 0;
    while i < items.len()
        invariant
            i <= items.len(),
            i == blocks.len(),
            trees == documents(items@),
            forall|j: int|
                0 <= j < i ==> contract_block(#[trigger] trees[j]) == Some(blocks@[j]@),
        decreases items.len() - i,
    {
        assert(trees[i as int] == document(items@[i as int]));
        match read_block(&items[i]) {
            Some(block) => blocks.push(block),
            None => {
                assert(contract_block(trees[i as int]) is None);
                return None;
            },
        }
        i = i + 1;
    }
    proof {
        assert(contract_blocks(trees)->0 =~= block_views(blocks@));
    }
    Some(blocks)
}

/// Counts the members of an object.
fn object_width(value: &Value) -> (result: usize)
    ensures
        result == width(document(*value)),
{
    match json_node(value) {
        JsonNode::Object(members) => members.len(),
        _ => 0,
    }
}

/// Tests whether every element has exactly the members of a tool call.
fn are_exact_calls(items: &[Value]) -> (result: bool)
    ensures
        result == exact_calls(documents(items@)),
{
    let ghost trees = documents(items@);
    let mut i: usize = 0;
    while i < items.len()
        invariant
            i <= items.len(),
            trees == documents(items@),
            forall|j: int| 0 <= j < i ==> width(#[trigger] trees[j]) == 3,
        decreases items.len() - i,
    {
        assert(trees[i as int] == document(items@[i as int]));
        if object_width(&items[i]) != 3 {
            assert(width(trees[i as int]) != 3);
            return false;
        }
        i = i + 1;
    }
    true
}

/// Tests whether an element has exactly the members of its block.
fn is_exact_block(value: &Value) -> (result: bool)
    ensures
        result == exact_block(document(*value)),
{
    let members = match json_node(value) {
        JsonNode::Object(members) => members,
        _ => return false,
    };
    let kind = match find_text(&members, "type") {
        Some(kind) => kind,
        None => return false,
    };
    if same_text(kind, "tool_result") {
        match find_member(&members, "output") {
            Some(output) => members.len() == 4 && object_width(output) == 3,
            None => false,
        }
    } else if same_text(kind, "tool_calls") {
        if members.len() != 2 {
            return false;
        }
        let items = match find_member(&members, "calls") {
            Some(calls) => match json_node(calls) {
                JsonNode::Array(items) => items,
                _ => return false,
            },
            None => return false,
        };
        are_exact_calls(items)
    } else {
        members.len() == 2
    }
}

/// Tests whether every element has exactly the members of its block.
fn are_exact_blocks(items: &[Value]) -> (result: bool)
    ensures
        result == (forall|i: int|
            0 <= i < documents(items@).len() ==> exact_block(#[trigger] documents(items@)[i])),
{
    let ghost trees = documents(items@);
    let mut i: usize = 0;
    while i < items.len()
        invariant
            i <= items.len(),
            trees == documents(items@),
            forall|j: int| 0 <= j < i ==> exact_block(#[trigger] trees[j]),
        decreases items.len() - i,
    {
        assert(trees[i as int] == document(items@[i as int]));
        if !is_exact_block(&items[i]) {
            assert(!exact_block(trees[i as int]));
            return false;
        }
        i = i + 1;
    }
    true
}

/// Appends the JSON text of a string.
fn push_quoted(target: &mut String, text: &str)
    ensures
        final(target)@ == old(target)@ + quoted(text@),
{
    match quote_json(text) {
        Some(quoted) => target.append(quoted.as_str()),
        None => (),
    }
}

/// Writes the canonical text of a tool call.
fn write_call(call: &AgentToolCall) -> (result: String)
    ensures
        result@ == call_text(call@),
{
    let mut text = String::new();
    text.append("{\"id\":");
    push_quoted(&mut text, call.id.as_str());
    text.append(",\"name\":");
    push_quoted(&mut text, call.name.as_str());
    text.append(",\"argumentsJson\":");
    push_quoted(&mut text, call.arguments_json.as_str());
    text.append("}");
    assert(text@ =~= call_text(call@));
    text
}

/// Writes the canonical texts of tool calls, separated by commas.
fn write_calls(calls: &Vec<AgentToolCall>) -> (result: String)
    ensures
        result@ == call_texts(call_views(calls@)),
{
    let ghost views = call_views(calls@);
    let mut text = String::new();
    let mut i: usize = 0;
    assert(views.take(0) =~= Seq::empty());
    while i < calls.len()
        invariant
            i <= calls.len(),
            views == call_views(calls@),
            text@ == call_texts(views.take(i as int)),
        decreases calls.len() - i,
    {
        proof {
            assert(views.take(i as int + 1).drop_last() =~= views.take(i as int));
            assert(views.take(i as int + 1).last() == calls@[i as int]@);
        }
        if i > 0 {
            text.append(",");
        }
        let call = write_call(&calls[i]);
        text.append(call.as_str());
        proof {
            assert(Seq::<char>::empty() + call@ =~= call@);
        }
        i = i + 1;
    }
    assert(views.take(calls.len() as int) =~= views);
    text
}

/// Writes the canonical text of a block.
fn write_block(block: &AgentMessageContent) -> (result: String)
    ensures
        result@ == block_text(block@),
{
    let mut written = String::new();
    match block {
        AgentMessageContent::Text { text } => {
            written.append("{\"type\":\"text\",\"text\":");
            push_quoted(&mut written, text.as_str());
            written.append("}");
        },
        AgentMessageContent::ToolCalls { calls } => {
            written.append("{\"type\":\"tool_calls\",\"calls\":[");
            let texts = write_calls(calls);
            written.append(texts.as_str());
            written.append("]}");
        },
        AgentMessageContent::ToolResult { tool_call_id, name, output } => {
            written.append("{\"type\":\"tool_result\",\"toolCallId\":");
            push_quoted(&mut written, tool_call_id.as_str());
            written.append(",\"name\":");
            push_quoted(&mut written, name.as_str());
            written.append(",\"output\":{\"type\":\"text\",\"content\":");
            push_quoted(&mut written, output.content.as_str());
            written.append(",\"truncated\":");
            if output.truncated {
                written.append("true");
            } else {
                written.append("false");
            }
            written.append("}}");
        },
    }
    assert(written@ =~= block_text(block@));
    written
}

/// Writes the canonical text of a message.
pub fn write_message(blocks: &Vec<AgentMessageContent>) -> (result: String)
    ensures
        result@ == canonical(block_views(blocks@)),
{
    let ghost views = block_views(blocks@);
    let mut text = String::new();
    text.append("[");
    let mut i: usize = 0;
    proof {
        assert(views.take(0) =~= Seq::empty());
        assert(text@ =~= "["@ + block_texts(views.take(0)));
    }
    while i < blocks.len()
        invariant
            i <= blocks.len(),
            views == block_views(blocks@),
            text@ == "["@ + block_texts(views.take(i as int)),
        decreases blocks.len() - i,
    {
        proof {
            assert(views.take(i as int + 1).drop_last() =~= views.take(i as int));
            assert(views.take(i as int + 1).last() == blocks@[i as int]@);
        }
        if i > 0 {
            text.append(",");
        }
        let block = write_block(&blocks[i]);
        text.append(block.as_str());
        proof {
            assert(text@ =~= "["@ + block_texts(views.take(i as int + 1)));
        }
        i = i + 1;
    }
    assert(views.take(blocks.len() as int) =~= views);
    text.append("]");
    assert(text@ =~= canonical(views));
    text
}

/// Puts a message with its canonical text, if that may be stored.
fn bounded_message(blocks: Vec<AgentMessageContent>) -> (result: Result<
    NormalizedMessage,
    StorageError,
>)
    ensures
        ({
            let views = block_views(blocks@);
            match result {
                Ok(message) => message_fits(byte_len(canonical(views))) && normalized_as(
                    message,
                    views,
                ),
                Err(error) => !message_fits(byte_len(canonical(views))) && error == message_quota(),
            }
        }),
{
    let content_json = write_message(&blocks);
    let content_bytes: u64 = to_u64(text_len(content_json.as_str()), "agent message bytes")?;
    if content_bytes == 0 || content_bytes > MAX_AGENT_MESSAGE_BYTES {
        return Err(
            StorageError::AgentQuotaExceeded {
                resource: "single message bytes",
                limit: MAX_AGENT_MESSAGE_BYTES,
            },
        );
    }
    Ok(NormalizedMessage { content_json, content_bytes, blocks })
}

/// Reads the blocks of a document and writes them in their canonical form.
pub fn canonical_message(value: &Option<Value>) -> (result: Result<NormalizedMessage, StorageError>)
    ensures
        match (result, document_blocks(optional_document(*value))) {
            (Ok(message), Ok(blocks)) => normalized_as(message, blocks),
            (Err(error), Err(expected)) => error == expected,
            _ => false,
        },
{
    let value = match value {
        Some(value) => value,
        None => return Err(
            StorageError::InvalidAgent("message content does not match the canonical contract"),
        ),
    };
    let items = match json_node(value) {
        JsonNode::Array(items) => items,
        _ => return Err(
            StorageError::InvalidAgent("message content does not match the canonical contract"),
        ),
    };
    let blocks = match read_blocks(items) {
        Some(blocks) => blocks,
        None => return Err(
            StorageError::InvalidAgent("message content does not match the canonical contract"),
        ),
    };
    if blocks.len() == 0 {
        return Err(
            StorageError::InvalidAgent(
                "message must be a strict visible JSON array without hidden reasoning or raw deltas",
            ),
        );
    }
    if !are_exact_blocks(items) {
        return Err(
            StorageError::InvalidAgent("message contains fields outside the canonical contract"),
        );
    }
    bounded_message(blocks)
}

/// Decides on a message by its length, by what SQLite reads of it and by its document.
///
/// The message has to be a non-empty array of text, tool-call and tool-result blocks with the
/// members of those blocks and no others, and may not hide anything under a reserved name.
pub fn judge_message(bytes: u64, facts: &Option<MessageFacts>, value: &Option<Value>) -> (result:
    Result<NormalizedMessage, StorageError>)
    ensures
        match (
            result,
            message_verdict(bytes as nat, facts_view(*facts), optional_document(*value)),
        ) {
            (Ok(message), Ok(blocks)) => normalized_as(message, blocks),
            (Err(error), Err(expected)) => error == expected,
            _ => false,
        },
{
    if bytes == 0 || bytes > MAX_AGENT_MESSAGE_BYTES {
        return Err(
            StorageError::AgentQuotaExceeded {
                resource: "single message bytes",
                limit: MAX_AGENT_MESSAGE_BYTES,
            },
        );
    }
    validate_visible(facts)?;
    canonical_message(value)
}

/// Reads a message and writes it in its canonical form. A message that has this form already stays
/// as it is.
pub fn normalize_message_json(content_json: &str) -> (result: Result<
    NormalizedMessage,
    StorageError,
>)
    ensures
        normalizes(content_json@, result),
        result matches Ok(message) ==> message.blocks@.len() > 0,
{
    let raw_bytes: u64 = to_u64(text_len(content_json), "agent message bytes")?;
    if raw_bytes > MAX_AGENT_MESSAGE_BYTES {
        return judge_message(raw_bytes, &None, &None);
    }
    let facts = read_message(content_json);
    let value = parse_json(content_json);
    proof {
        assert forall|blocks: Seq<ContentView>|
            blocks.len() > 0 && content_json@ == #[trigger] canonical(blocks) && message_fits(
                byte_len(canonical(blocks)),
            ) implies message_blocks(content_json@) == Ok::<Seq<ContentView>, StorageError>(blocks)
            && reads_as(content_json@, blocks) by {
            law_canonical_text_is_compact_json(blocks);
            lemma_plain_message(blocks);
            lemma_chars_within_bytes(content_json@);
            assert(plain_message(block_trees(blocks)));
            assert(regular_text(content_json@, message_tree(blocks)));
            lemma_read_message(document(value->0), blocks);
        }
    }
    judge_message(raw_bytes, &facts, &value)
}

/// Makes the canonical message of a plain text.
pub fn text_message_json(text: &str) -> (result: Result<NormalizedMessage, StorageError>)
    ensures
        match (result, text_blocks(text@)) {
            (Ok(message), Ok(blocks)) => normalized_as(message, blocks),
            (Err(error), Err(expected)) => error == expected,
            _ => false,
        },
{
    if is_blank(text) {
        return Err(StorageError::InvalidAgent("agent text message must be non-empty"));
    }
    let mut blocks: Vec<AgentMessageContent> = Vec::new();
    blocks.push(AgentMessageContent::Text { text: text.to_owned() });
    assert(block_views(blocks@) =~= seq![ContentView::Text(text@)]);
    bounded_message(blocks)
}

/// Tests a tool call of the assistant.
pub fn valid_contract_tool_call(call: &AgentToolCall) -> (result: bool)
    ensures
        result == valid_call(call@),
{
    !is_blank(call.id.as_str()) && !is_blank(call.name.as_str()) && is_json_object(
        call.arguments_json.as_str(),
    )
}

/// Tests the calls of the assistant.
fn valid_calls(calls: &Vec<AgentToolCall>) -> (result: bool)
    ensures
        result == assistant_block(ContentView::ToolCalls(call_views(calls@))),
{
    let ghost views = call_views(calls@);
    if calls.len() == 0 {
        return false;
    }
    let mut i: usize = 0;
    while i < calls.len()
        invariant
            i <= calls.len(),
            views == call_views(calls@),
            forall|j: int| 0 <= j < i ==> valid_call(#[trigger] views[j]),
        decreases calls.len() - i,
    {
        assert(views[i as int] == calls@[i as int]@);
        if !valid_contract_tool_call(&calls[i]) {
            assert(!valid_call(views[i as int]));
            return false;
        }
        i = i + 1;
    }
    true
}

/// Tests one block against a role other than the tool's.
fn block_matches(role: AgentMessageRole, block: &AgentMessageContent) -> (result: bool)
    requires
        !(role is Tool),
    ensures
        result == role_admits(role, seq![block@]),
{
    let ghost single = seq![block@];
    assert(single[0] == block@);
    match block {
        AgentMessageContent::Text { text } => match role {
            AgentMessageRole::Summary => !is_blank(text.as_str()),
            _ => !text.as_str().is_empty(),
        },
        AgentMessageContent::ToolCalls { calls } => match role {
            AgentMessageRole::Assistant => valid_calls(calls),
            _ => false,
        },
        AgentMessageContent::ToolResult { .. } => false,
    }
}

/// Checks that a message holds the blocks that its role admits.
pub fn validate_message_role(role: AgentMessageRole, blocks: &Vec<AgentMessageContent>) -> (result:
    Result<(), StorageError>)
    ensures
        result == role_check(role, block_views(blocks@)),
{
    let ghost views = block_views(blocks@);
    if blocks.len() == 0 {
        return Err(
            StorageError::InvalidAgent("message content blocks do not match the persisted role"),
        );
    }
    if role == AgentMessageRole::Tool {
        assert(views[0] == blocks@[0]@);
        if blocks.len() == 1 {
            if let AgentMessageContent::ToolResult { tool_call_id, name, .. } = &blocks[0] {
                if !is_blank(tool_call_id.as_str()) && !is_blank(name.as_str()) {
                    return Ok(());
                }
            }
        }
        return Err(
            StorageError::InvalidAgent("message content blocks do not match the persisted role"),
        );
    }
    let mut i: usize = 0;
    while i < blocks.len()
        invariant
            i <= blocks.len(),
            blocks.len() > 0,
            !(role is Tool),
            views == block_views(blocks@),
            forall|j: int| 0 <= j < i ==> role_admits(role, seq![#[trigger] views[j]]),
        decreases blocks.len() - i,
    {
        assert(views[i as int] == blocks@[i as int]@);
        if !block_matches(role, &blocks[i]) {
            assert(!role_admits(role, views)) by {
                assert(!role_admits(role, seq![views[i as int]]));
                assert(seq![views[i as int]][0] == views[i as int]);
            }
            return Err(
                StorageError::InvalidAgent(
                    "message content blocks do not match the persisted role",
                ),
            );
        }
        i = i + 1;
    }
    assert(role_admits(role, views)) by {
        assert forall|j: int| 0 <= j < views.len() implies role_admits(
            role,
            seq![#[trigger] views[j]],
        ) by {}
        assert forall|j: int| 0 <= j < views.len() implies seq![#[trigger] views[j]][0] == views[j]
            && role_admits(role, seq![views[j]]) by {}
    }
    Ok(())
}

} // verus!
