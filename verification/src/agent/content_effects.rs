//! What messages may hold, and how their blocks are read.

use vstd::prelude::*;

use crate::agent::content::{
    assistant_block, block_views, canonical, contract_block, contract_blocks, contract_call,
    contract_calls, contract_output, document_blocks, exact_block, message_blocks, message_verdict,
    normalized_as, role_admits, role_check, text_blocks, valid_call, width, ContentView,
    NormalizedMessage, ToolCallView,
};
use crate::agent::status::AgentMessageRole;
use crate::agent::visibility::{
    block_kind, element_check, elements_check, hidden_name, message_read, visible_check,
    ElementView, FactsView,
};
use crate::json::{member, parsed, quoted, text_member, JsonTree};
use crate::text::{blank, byte_len, lowered};

verus! {

/// Messages of the system and of the user hold texts that are not empty, summaries hold texts that
/// are not blank, and a message of a tool holds one result that names its call and its tool.
pub proof fn law_roles_admit_their_blocks(blocks: Seq<ContentView>)
    ensures
        role_admits(AgentMessageRole::System, blocks) <==> blocks.len() > 0 && forall|i: int|
            0 <= i < blocks.len() ==> (#[trigger] blocks[i] matches ContentView::Text(text)
                && text.len() > 0),
        role_admits(AgentMessageRole::User, blocks) <==> role_admits(
            AgentMessageRole::System,
            blocks,
        ),
        role_admits(AgentMessageRole::Summary, blocks) <==> blocks.len() > 0 && forall|i: int|
            0 <= i < blocks.len() ==> (#[trigger] blocks[i] matches ContentView::Text(text)
                && !blank(text)),
        role_admits(AgentMessageRole::Tool, blocks) <==> blocks.len() == 1 && (
        blocks[0] matches ContentView::ToolResult(id, name, _, _) && !blank(id) && !blank(name)),
        role_admits(AgentMessageRole::Assistant, blocks) <==> blocks.len() > 0 && forall|i: int|
            0 <= i < blocks.len() ==> match #[trigger] blocks[i] {
                ContentView::Text(text) => text.len() > 0,
                ContentView::ToolCalls(calls) => calls.len() > 0 && forall|k: int|
                    0 <= k < calls.len() ==> valid_call(#[trigger] calls[k]),
                ContentView::ToolResult(_, _, _, _) => false,
            },
        forall|role: AgentMessageRole| #[trigger]
            role_check(role, blocks) is Ok <==> role_admits(role, blocks),
{
    assert forall|i: int| 0 <= i < blocks.len() implies (assistant_block(#[trigger] blocks[i])
        <==> match blocks[i] {
        ContentView::Text(text) => text.len() > 0,
        ContentView::ToolCalls(calls) => calls.len() > 0 && forall|k: int|
            0 <= k < calls.len() ==> valid_call(#[trigger] calls[k]),
        ContentView::ToolResult(_, _, _, _) => false,
    }) by {}
}

/// A tool call is valid exactly if it names itself and its tool and its arguments are a JSON object.
pub proof fn law_tool_call_is_valid(call: ToolCallView)
    ensures
        valid_call(call) <==> {
            &&& !blank(call.id)
            &&& !blank(call.name)
            &&& parsed(call.arguments_json) matches Some(JsonTree::Object(_))
        },
{
}

/// A plain text becomes one text block exactly if it is not blank and its message is within its
/// bound.
pub proof fn law_text_becomes_one_block(text: Seq<char>)
    ensures
        text_blocks(text) is Ok <==> !blank(text) && 0 < byte_len(
            canonical(seq![ContentView::Text(text)]),
        ) <= 262_144,
        text_blocks(text) matches Ok(blocks) ==> blocks == seq![ContentView::Text(text)],
        canonical(seq![ContentView::Text(text)]) == "["@ + ("{\"type\":\"text\",\"text\":"@ + quoted(
            text,
        ) + "}"@) + "]"@,
{
}

/// A block is read from the members of its kind: a text from `text`, calls from `calls`, and a result
/// from `toolCallId`, `name` and `output`; what has no such kind, or not these members, is no block.
pub proof fn law_block_is_read_from_its_members(members: Seq<(Seq<char>, JsonTree)>)
    ensures
        ({
            let kind = text_member(members, "type"@);
            let block = contract_block(JsonTree::Object(members));
            &&& kind is None ==> block is None
            &&& kind == Some("text"@) ==> block == (match text_member(members, "text"@) {
                Some(text) => Some(ContentView::Text(text)),
                None => None,
            })
            &&& kind == Some("tool_calls"@) ==> block == (match member(members, "calls"@) {
                Some(JsonTree::Array(items)) => match contract_calls(items) {
                    Some(calls) => Some(ContentView::ToolCalls(calls)),
                    None => None,
                },
                _ => None,
            })
            &&& kind == Some("tool_result"@) ==> block == (match (
                text_member(members, "toolCallId"@),
                text_member(members, "name"@),
                member(members, "output"@),
            ) {
                (Some(id), Some(name), Some(output)) => match contract_output(output) {
                    Some((content, truncated)) => Some(
                        ContentView::ToolResult(id, name, content, truncated),
                    ),
                    None => None,
                },
                _ => None,
            })
            &&& (kind matches Some(other) && other != "text"@ && other != "tool_calls"@ && other
                != "tool_result"@) ==> block is None
        }),
        forall|tree: JsonTree| !(tree is Object) ==> #[trigger] contract_block(tree) is None,
{
    reveal_strlit("text");
    reveal_strlit("tool_calls");
    reveal_strlit("tool_result");
    assert("text"@.len() == 4);
    assert("tool_calls"@.len() == 10);
    assert("tool_result"@.len() == 11);
}

/// A tool call is read from `id`, `name` and `argumentsJson`, and the output of a tool from a `type`
/// of text, `content` and `truncated`; blocks and calls are read one for one, or not at all.
pub proof fn law_calls_and_outputs_are_read_from_their_members(
    members: Seq<(Seq<char>, JsonTree)>,
    items: Seq<JsonTree>,
)
    ensures
        contract_call(JsonTree::Object(members)) matches Some(call) ==> {
            &&& text_member(members, "id"@) == Some(call.id)
            &&& text_member(members, "name"@) == Some(call.name)
            &&& text_member(members, "argumentsJson"@) == Some(call.arguments_json)
        },
        contract_call(JsonTree::Object(members)) is Some <==> text_member(members, "id"@) is Some
            && text_member(members, "name"@) is Some && text_member(members, "argumentsJson"@)
            is Some,
        contract_output(JsonTree::Object(members)) matches Some((content, truncated)) ==> {
            &&& text_member(members, "type"@) == Some("text"@)
            &&& text_member(members, "content"@) == Some(content)
            &&& member(members, "truncated"@) == Some(JsonTree::Bool(truncated))
        },
        contract_output(JsonTree::Object(members)) is Some <==> text_member(members, "type"@)
            == Some("text"@) && text_member(members, "content"@) is Some && (
        member(members, "truncated"@) matches Some(JsonTree::Bool(_))),
        contract_calls(items) matches Some(calls) ==> {
            &&& calls.len() == items.len()
            &&& forall|i: int|
                0 <= i < items.len() ==> contract_call(#[trigger] items[i]) == Some(calls[i])
        },
        contract_calls(items) is None <==> exists|i: int|
            0 <= i < items.len() && contract_call(#[trigger] items[i]) is None,
        contract_blocks(items) matches Some(blocks) ==> {
            &&& blocks.len() == items.len()
            &&& forall|i: int|
                0 <= i < items.len() ==> contract_block(#[trigger] items[i]) == Some(blocks[i])
        },
        contract_blocks(items) is None <==> exists|i: int|
            0 <= i < items.len() && contract_block(#[trigger] items[i]) is None,
{
}

/// A block has no member beyond its own: two where it is a text, two where it is calls of three
/// members each, and four where it is a result with an output of three.
pub proof fn law_blocks_have_their_own_members_only(members: Seq<(Seq<char>, JsonTree)>)
    ensures
        ({
            let kind = text_member(members, "type"@);
            let exact = exact_block(JsonTree::Object(members));
            &&& kind == Some("text"@) ==> (exact <==> members.len() == 2)
            &&& kind == Some("tool_calls"@) ==> (exact <==> members.len() == 2 && (
            member(members, "calls"@) matches Some(JsonTree::Array(items)) && forall|i: int|
                0 <= i < items.len() ==> width(#[trigger] items[i]) == 3))
            &&& kind == Some("tool_result"@) ==> (exact <==> members.len() == 4 && (
            member(members, "output"@) matches Some(output) && width(output) == 3))
        }),
        width(JsonTree::Object(members)) == members.len(),
{
    reveal_strlit("text");
    reveal_strlit("tool_calls");
    reveal_strlit("tool_result");
    assert("text"@.len() == 4);
    assert("tool_calls"@.len() == 10);
    assert("tool_result"@.len() == 11);
}

/// A message is accepted exactly if its text is within its bound, SQLite finds it visible, and its
/// document is an array of blocks, at least one, with their own members only, whose canonical text is
/// within the bound too; it is accepted as those blocks.
pub proof fn law_message_is_read_as_its_blocks(text: Seq<char>)
    ensures
        message_blocks(text) is Ok <==> {
            &&& 0 < byte_len(text) <= 262_144
            &&& visible_check(message_read(text)) is Ok
            &&& parsed(text) matches Some(JsonTree::Array(items)) && items.len() > 0
                && contract_blocks(items) is Some && (forall|i: int|
                0 <= i < items.len() ==> exact_block(#[trigger] items[i])) && 0 < byte_len(
                canonical(contract_blocks(items)->0),
            ) <= 262_144
        },
        message_blocks(text) matches Ok(blocks) ==> (parsed(text) matches Some(
            JsonTree::Array(items),
        ) && contract_blocks(items) == Some(blocks)),
        message_blocks(text) == message_verdict(byte_len(text), message_read(text), parsed(text)),
        parsed(text) is None ==> document_blocks(parsed(text)) is Err,
{
}

/// What SQLite reads of a message is visible exactly if it is an array of at least one element, each
/// of which is `null` or an object without a label or with that of a block, and no key at any depth is
/// a hidden name.
pub proof fn law_visible_message_hides_nothing(facts: FactsView)
    ensures
        visible_check(None) is Err,
        visible_check(Some(facts)) is Ok <==> {
            &&& facts.kind == "array"@
            &&& facts.elements.len() > 0
            &&& forall|i: int|
                0 <= i < facts.elements.len() ==> match #[trigger] facts.elements[i] {
                    ElementView::Null => true,
                    ElementView::Malformed => false,
                    ElementView::Value(kind, label) => kind == "object"@ && (
                    label matches Some(label) ==> label == "text"@ || label == "tool_calls"@
                        || label == "tool_result"@),
                }
            &&& forall|i: int|
                0 <= i < facts.keys.len() ==> (#[trigger] facts.keys[i] matches Some(key)
                    ==> !hidden_name(key))
        },
{
    lemma_elements(facts.elements);
}

proof fn lemma_elements(elements: Seq<ElementView>)
    ensures
        elements_check(elements) is Ok <==> forall|i: int|
            0 <= i < elements.len() ==> match #[trigger] elements[i] {
                ElementView::Null => true,
                ElementView::Malformed => false,
                ElementView::Value(kind, label) => kind == "object"@ && (label matches Some(label)
                    ==> label == "text"@ || label == "tool_calls"@ || label == "tool_result"@),
            },
    decreases elements.len(),
{
    if elements.len() > 0 {
        let rest = elements.drop_first();
        lemma_elements(rest);
        assert forall|i: int| 0 < i < elements.len() implies #[trigger] elements[i] == rest[i - 1] by {}
        if elements_check(elements) is Ok {
            assert forall|i: int| 0 <= i < elements.len() implies match #[trigger] elements[i] {
                ElementView::Null => true,
                ElementView::Malformed => false,
                ElementView::Value(kind, label) => kind == "object"@ && (label matches Some(label)
                    ==> label == "text"@ || label == "tool_calls"@ || label == "tool_result"@),
            } by {
                if i > 0 {
                    assert(elements[i] == rest[i - 1]);
                }
            }
        } else if element_check(elements[0]) is Ok {
            let k = choose|k: int|
                0 <= k < rest.len() && !(match #[trigger] rest[k] {
                    ElementView::Null => true,
                    ElementView::Malformed => false,
                    ElementView::Value(kind, label) => kind == "object"@ && (
                    label matches Some(label) ==> label == "text"@ || label == "tool_calls"@
                        || label == "tool_result"@),
                });
            assert(elements[k + 1] == rest[k]);
        }
    }
}

/// A name is hidden exactly if it is, but for the case of its letters, one of ten.
pub proof fn law_hidden_names_ignore_case(name: Seq<char>)
    ensures
        hidden_name(name) <==> {
            ||| lowered(name) == "hidden_reasoning"@
            ||| lowered(name) == "reasoning_content"@
            ||| lowered(name) == "raw_provider_delta"@
            ||| lowered(name) == "provider_delta"@
            ||| lowered(name) == "rows"@
            ||| lowered(name) == "result_rows"@
            ||| lowered(name) == "full_result"@
            ||| lowered(name) == "api_key"@
            ||| lowered(name) == "apikey"@
            ||| lowered(name) == "authorization"@
        },
        hidden_name(lowered(name)) <==> hidden_name(name),
        block_kind(name) <==> name == "text"@ || name == "tool_calls"@ || name == "tool_result"@,
{
    crate::text::law_lowered_text_has_no_capital(name);
    assert(lowered(lowered(name)) =~= lowered(name));
}

/// A message in its canonical form holds its blocks, their canonical text and the length of that text.
pub proof fn law_normalized_message_holds_its_blocks(
    message: NormalizedMessage,
    blocks: Seq<ContentView>,
)
    ensures
        normalized_as(message, blocks) <==> {
            &&& message.blocks@.len() == blocks.len()
            &&& forall|i: int| 0 <= i < blocks.len() ==> (#[trigger] message.blocks@[i])@ == blocks[i]
            &&& message.content_json@ == canonical(blocks)
            &&& message.content_bytes == byte_len(canonical(blocks))
        },
{
    let views = block_views(message.blocks@);
    if normalized_as(message, blocks) {
        assert forall|i: int| 0 <= i < blocks.len() implies (#[trigger] message.blocks@[i])@
            == blocks[i] by {
            assert(views[i] == message.blocks@[i]@);
        }
    }
    if message.blocks@.len() == blocks.len() && (forall|i: int|
        0 <= i < blocks.len() ==> (#[trigger] message.blocks@[i])@ == blocks[i]) {
        assert(views =~= blocks);
    }
}

} // verus!
