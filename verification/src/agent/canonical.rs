//! The canonical text of a message: the compact JSON text of a document, which reads back as it was.

use vstd::prelude::*;

use crate::agent::content::{
    block_text, block_texts, block_views, call_text, call_texts, canonical, contract_block,
    contract_blocks, contract_call, contract_calls, document_blocks, exact_block, flag_text,
    message_blocks, message_fits, normalizes, reads_as, width, ContentView, NormalizedMessage,
    ToolCallView, MAX_AGENT_MESSAGE_BYTES,
};
use crate::agent::visibility::{block_like, hidden_name, labelled, plain_message};
use crate::error::StorageError;
use crate::json::{
    escaped, member, named, parsed, quoted, regular, rendered, rendered_items, rendered_members,
    same_document, JsonTree,
};
use crate::text::{byte_len, lowered};

verus! {

/// The document of a tool call.
pub open spec fn call_tree(call: ToolCallView) -> JsonTree {
    JsonTree::Object(
        seq![
            ("id"@, JsonTree::Text(call.id)),
            ("name"@, JsonTree::Text(call.name)),
            ("argumentsJson"@, JsonTree::Text(call.arguments_json)),
        ],
    )
}

/// The documents of tool calls.
pub open spec fn call_trees(calls: Seq<ToolCallView>) -> Seq<JsonTree> {
    Seq::new(calls.len(), |i: int| call_tree(calls[i]))
}

/// The document of the output of a tool.
pub open spec fn output_tree(content: Seq<char>, truncated: bool) -> JsonTree {
    JsonTree::Object(
        seq![
            ("type"@, JsonTree::Text("text"@)),
            ("content"@, JsonTree::Text(content)),
            ("truncated"@, JsonTree::Bool(truncated)),
        ],
    )
}

/// The document of a block.
pub open spec fn block_tree(block: ContentView) -> JsonTree {
    match block {
        ContentView::Text(text) => JsonTree::Object(
            seq![("type"@, JsonTree::Text("text"@)), ("text"@, JsonTree::Text(text))],
        ),
        ContentView::ToolCalls(calls) => JsonTree::Object(
            seq![
                ("type"@, JsonTree::Text("tool_calls"@)),
                ("calls"@, JsonTree::Array(call_trees(calls))),
            ],
        ),
        ContentView::ToolResult(id, name, content, truncated) => JsonTree::Object(
            seq![
                ("type"@, JsonTree::Text("tool_result"@)),
                ("toolCallId"@, JsonTree::Text(id)),
                ("name"@, JsonTree::Text(name)),
                ("output"@, output_tree(content, truncated)),
            ],
        ),
    }
}

/// The documents of blocks.
pub open spec fn block_trees(blocks: Seq<ContentView>) -> Seq<JsonTree> {
    Seq::new(blocks.len(), |i: int| block_tree(blocks[i]))
}

/// The document of a message.
pub open spec fn message_tree(blocks: Seq<ContentView>) -> JsonTree {
    JsonTree::Array(block_trees(blocks))
}

/// A text without quotes, backslashes and control characters needs no escapes.
proof fn lemma_plain(text: Seq<char>)
    requires
        forall|i: int|
            0 <= i < text.len() ==> #[trigger] text[i] as nat >= 32 && text[i] != '"' && text[i]
                != '\\',
    ensures
        escaped(text) == text,
    decreases text.len(),
{
    if text.len() > 0 {
        lemma_plain(text.drop_last());
        assert(text =~= text.drop_last() + seq![text.last()]);
    }
}

/// The names of members and the labels of blocks need no escapes.
pub proof fn lemma_plain_names()
    ensures
        escaped("type"@) == "type"@,
        escaped("text"@) == "text"@,
        escaped("calls"@) == "calls"@,
        escaped("id"@) == "id"@,
        escaped("name"@) == "name"@,
        escaped("argumentsJson"@) == "argumentsJson"@,
        escaped("toolCallId"@) == "toolCallId"@,
        escaped("output"@) == "output"@,
        escaped("content"@) == "content"@,
        escaped("truncated"@) == "truncated"@,
        escaped("tool_calls"@) == "tool_calls"@,
        escaped("tool_result"@) == "tool_result"@,
{
    reveal_strlit("type");
    reveal_strlit("text");
    reveal_strlit("calls");
    reveal_strlit("id");
    reveal_strlit("name");
    reveal_strlit("argumentsJson");
    reveal_strlit("toolCallId");
    reveal_strlit("output");
    reveal_strlit("content");
    reveal_strlit("truncated");
    reveal_strlit("tool_calls");
    reveal_strlit("tool_result");
    lemma_plain("type"@);
    lemma_plain("text"@);
    lemma_plain("calls"@);
    lemma_plain("id"@);
    lemma_plain("name"@);
    lemma_plain("argumentsJson"@);
    lemma_plain("toolCallId"@);
    lemma_plain("output"@);
    lemma_plain("content"@);
    lemma_plain("truncated"@);
    lemma_plain("tool_calls"@);
    lemma_plain("tool_result"@);
}

/// The names of the members of one object differ.
proof fn lemma_distinct_names()
    ensures
        "type"@ != "text"@,
        "type"@ != "calls"@,
        "id"@ != "name"@,
        "id"@ != "argumentsJson"@,
        "name"@ != "argumentsJson"@,
        "type"@ != "toolCallId"@,
        "type"@ != "name"@,
        "type"@ != "output"@,
        "toolCallId"@ != "name"@,
        "toolCallId"@ != "output"@,
        "name"@ != "output"@,
        "type"@ != "content"@,
        "type"@ != "truncated"@,
        "content"@ != "truncated"@,
        "text"@ != "tool_calls"@,
        "text"@ != "tool_result"@,
        "tool_calls"@ != "tool_result"@,
{
    reveal_strlit("type");
    reveal_strlit("text");
    reveal_strlit("calls");
    reveal_strlit("id");
    reveal_strlit("name");
    reveal_strlit("argumentsJson");
    reveal_strlit("toolCallId");
    reveal_strlit("output");
    reveal_strlit("content");
    reveal_strlit("truncated");
    reveal_strlit("tool_calls");
    reveal_strlit("tool_result");
    assert("type"@.len() == 4);
    assert("text"@.len() == 4);
    assert("calls"@.len() == 5);
    assert("id"@.len() == 2);
    assert("name"@.len() == 4);
    assert("argumentsJson"@.len() == 13);
    assert("toolCallId"@.len() == 10);
    assert("output"@.len() == 6);
    assert("content"@.len() == 7);
    assert("truncated"@.len() == 9);
    assert("tool_calls"@.len() == 10);
    assert("tool_result"@.len() == 11);
    assert("type"@[1] != "text"@[1]);
    assert("type"@[0] != "name"@[0]);
    assert("toolCallId"@[4] != "tool_calls"@[4]);
}

/// The compact text of an object with two members.
proof fn lemma_two_members(first: (Seq<char>, JsonTree), second: (Seq<char>, JsonTree))
    ensures
        rendered(JsonTree::Object(seq![first, second])) == seq!['{'] + quoted(first.0) + seq![':']
            + rendered(first.1) + seq![','] + quoted(second.0) + seq![':'] + rendered(second.1)
            + seq!['}'],
{
    let one = seq![first];
    assert(rendered_members(one) == quoted(first.0) + seq![':'] + rendered(first.1));
    let two = seq![first, second];
    assert(two.subrange(0, 1) =~= one);
    assert(rendered_members(two) == rendered_members(one) + seq![','] + (quoted(second.0) + seq![':']
        + rendered(second.1)));
    assert(rendered(JsonTree::Object(two)) == seq!['{'] + rendered_members(two) + seq!['}']);
    assert(rendered(JsonTree::Object(two)) =~= seq!['{'] + quoted(first.0) + seq![':']
        + rendered(first.1) + seq![','] + quoted(second.0) + seq![':'] + rendered(second.1)
        + seq!['}']);
}

/// The compact text of an object with three members.
proof fn lemma_three_members(
    first: (Seq<char>, JsonTree),
    second: (Seq<char>, JsonTree),
    third: (Seq<char>, JsonTree),
)
    ensures
        rendered(JsonTree::Object(seq![first, second, third])) == seq!['{'] + quoted(first.0)
            + seq![':'] + rendered(first.1) + seq![','] + quoted(second.0) + seq![':'] + rendered(
            second.1,
        ) + seq![','] + quoted(third.0) + seq![':'] + rendered(third.1) + seq!['}'],
{
    let one = seq![first];
    assert(rendered_members(one) == quoted(first.0) + seq![':'] + rendered(first.1));
    let two = seq![first, second];
    assert(two.subrange(0, 1) =~= one);
    assert(rendered_members(two) == rendered_members(one) + seq![','] + (quoted(second.0) + seq![':']
        + rendered(second.1)));
    let three = seq![first, second, third];
    assert(three.subrange(0, 2) =~= two);
    assert(rendered_members(three) == rendered_members(two) + seq![','] + (quoted(third.0) + seq![':']
        + rendered(third.1)));
    assert(rendered(JsonTree::Object(three)) == seq!['{'] + rendered_members(three) + seq!['}']);
    assert(rendered(JsonTree::Object(three)) =~= seq!['{'] + quoted(first.0) + seq![':']
        + rendered(first.1) + seq![','] + quoted(second.0) + seq![':'] + rendered(second.1)
        + seq![','] + quoted(third.0) + seq![':'] + rendered(third.1) + seq!['}']);
}

/// The compact text of an object with four members.
proof fn lemma_four_members(
    first: (Seq<char>, JsonTree),
    second: (Seq<char>, JsonTree),
    third: (Seq<char>, JsonTree),
    fourth: (Seq<char>, JsonTree),
)
    ensures
        rendered(JsonTree::Object(seq![first, second, third, fourth])) == seq!['{'] + quoted(
            first.0,
        ) + seq![':'] + rendered(first.1) + seq![','] + quoted(second.0) + seq![':'] + rendered(
            second.1,
        ) + seq![','] + quoted(third.0) + seq![':'] + rendered(third.1) + seq![','] + quoted(
            fourth.0,
        ) + seq![':'] + rendered(fourth.1) + seq!['}'],
{
    let one = seq![first];
    assert(rendered_members(one) == quoted(first.0) + seq![':'] + rendered(first.1));
    let two = seq![first, second];
    assert(two.subrange(0, 1) =~= one);
    assert(rendered_members(two) == rendered_members(one) + seq![','] + (quoted(second.0) + seq![':']
        + rendered(second.1)));
    let three = seq![first, second, third];
    assert(three.subrange(0, 2) =~= two);
    assert(rendered_members(three) == rendered_members(two) + seq![','] + (quoted(third.0) + seq![':']
        + rendered(third.1)));
    let four = seq![first, second, third, fourth];
    assert(four.subrange(0, 3) =~= three);
    assert(rendered_members(four) == rendered_members(three) + seq![','] + (quoted(fourth.0) + seq![':']
        + rendered(fourth.1)));
    assert(rendered(JsonTree::Object(four)) == seq!['{'] + rendered_members(four) + seq!['}']);
    assert(rendered(JsonTree::Object(four)) =~= seq!['{'] + quoted(first.0) + seq![':']
        + rendered(first.1) + seq![','] + quoted(second.0) + seq![':'] + rendered(second.1)
        + seq![','] + quoted(third.0) + seq![':'] + rendered(third.1) + seq![','] + quoted(
        fourth.0,
    ) + seq![':'] + rendered(fourth.1) + seq!['}']);
}

/// A tool call is written as the compact text of its document.
proof fn lemma_call_text(call: ToolCallView)
    ensures
        call_text(call) == rendered(call_tree(call)),
{
    lemma_plain_names();
    lemma_three_members(
        ("id"@, JsonTree::Text(call.id)),
        ("name"@, JsonTree::Text(call.name)),
        ("argumentsJson"@, JsonTree::Text(call.arguments_json)),
    );
    reveal_strlit("id");
    reveal_strlit("name");
    reveal_strlit("argumentsJson");
    reveal_strlit("{\"id\":");
    reveal_strlit(",\"name\":");
    reveal_strlit(",\"argumentsJson\":");
    reveal_strlit("}");
    assert("{\"id\":"@ =~= seq!['{'] + quoted("id"@) + seq![':']);
    assert(",\"name\":"@ =~= seq![','] + quoted("name"@) + seq![':']);
    assert(",\"argumentsJson\":"@ =~= seq![','] + quoted("argumentsJson"@) + seq![':']);
    assert("}"@ =~= seq!['}']);
    assert(call_text(call) =~= rendered(call_tree(call)));
}

/// Tool calls are written as the compact texts of their documents.
proof fn lemma_call_texts(calls: Seq<ToolCallView>)
    ensures
        call_texts(calls) == rendered_items(call_trees(calls)),
    decreases calls.len(),
{
    let trees = call_trees(calls);
    if calls.len() > 0 {
        lemma_call_text(calls.last());
        assert(trees[trees.len() - 1] == call_tree(calls.last()));
        if calls.len() > 1 {
            lemma_call_texts(calls.drop_last());
            assert(trees.subrange(0, trees.len() - 1) =~= call_trees(calls.drop_last()));
            reveal_strlit(",");
            assert(","@ =~= seq![',']);
        }
    }
}

/// A text block is written as the compact text of its document.
proof fn lemma_text_block_text(text: Seq<char>)
    ensures
        block_text(ContentView::Text(text)) == rendered(block_tree(ContentView::Text(text))),
{
    let block = ContentView::Text(text);
    lemma_plain_names();
    lemma_two_members(("type"@, JsonTree::Text("text"@)), ("text"@, JsonTree::Text(text)));
    reveal_strlit("type");
    reveal_strlit("text");
    reveal_strlit("{\"type\":\"text\",\"text\":");
    reveal_strlit("}");
    assert("{\"type\":\"text\",\"text\":"@ =~= seq!['{'] + quoted("type"@) + seq![':'] + quoted(
        "text"@,
    ) + seq![','] + quoted("text"@) + seq![':']);
    assert("}"@ =~= seq!['}']);
    assert(block_text(block) =~= rendered(block_tree(block)));
}

/// A tool-call block is written as the compact text of its document.
proof fn lemma_calls_block_text(calls: Seq<ToolCallView>)
    ensures
        block_text(ContentView::ToolCalls(calls)) == rendered(
            block_tree(ContentView::ToolCalls(calls)),
        ),
{
    let block = ContentView::ToolCalls(calls);
    let trees = call_trees(calls);
    lemma_plain_names();
    lemma_call_texts(calls);
    lemma_two_members(
        ("type"@, JsonTree::Text("tool_calls"@)),
        ("calls"@, JsonTree::Array(trees)),
    );
    assert(rendered(JsonTree::Array(trees)) == seq!['['] + rendered_items(trees) + seq![']']);
    reveal_strlit("type");
    reveal_strlit("tool_calls");
    reveal_strlit("calls");
    reveal_strlit("{\"type\":\"tool_calls\",\"calls\":[");
    reveal_strlit("]}");
    assert("{\"type\":\"tool_calls\",\"calls\":["@ =~= seq!['{'] + quoted("type"@) + seq![':']
        + quoted("tool_calls"@) + seq![','] + quoted("calls"@) + seq![':'] + seq!['[']);
    assert("]}"@ =~= seq![']'] + seq!['}']);
    assert(block_text(block) =~= rendered(block_tree(block)));
}

/// The output of a tool is written as the compact text of its document.
proof fn lemma_output_text(content: Seq<char>, truncated: bool)
    ensures
        rendered(output_tree(content, truncated)) == "{\"type\":\"text\",\"content\":"@ + quoted(content)
            + ",\"truncated\":"@ + flag_text(truncated) + "}"@,
{
    lemma_plain_names();
    lemma_three_members(
        ("type"@, JsonTree::Text("text"@)),
        ("content"@, JsonTree::Text(content)),
        ("truncated"@, JsonTree::Bool(truncated)),
    );
    reveal_strlit("type");
    reveal_strlit("text");
    reveal_strlit("content");
    reveal_strlit("truncated");
    reveal_strlit("{\"type\":\"text\",\"content\":");
    reveal_strlit(",\"truncated\":");
    reveal_strlit("}");
    assert("{\"type\":\"text\",\"content\":"@ =~= seq!['{'] + quoted("type"@) + seq![':'] + quoted(
        "text"@,
    ) + seq![','] + quoted("content"@) + seq![':']);
    assert(",\"truncated\":"@ =~= seq![','] + quoted("truncated"@) + seq![':']);
    assert("}"@ =~= seq!['}']);
    assert(rendered(output_tree(content, truncated)) =~= "{\"type\":\"text\",\"content\":"@ + quoted(
        content,
    ) + ",\"truncated\":"@ + flag_text(truncated) + "}"@);
}

/// A tool-result block is written as the compact text of its document.
proof fn lemma_result_block_text(
    id: Seq<char>,
    name: Seq<char>,
    content: Seq<char>,
    truncated: bool,
)
    ensures
        block_text(ContentView::ToolResult(id, name, content, truncated)) == rendered(
            block_tree(ContentView::ToolResult(id, name, content, truncated)),
        ),
{
    let block = ContentView::ToolResult(id, name, content, truncated);
    let output = output_tree(content, truncated);
    lemma_plain_names();
    lemma_output_text(content, truncated);
    lemma_four_members(
        ("type"@, JsonTree::Text("tool_result"@)),
        ("toolCallId"@, JsonTree::Text(id)),
        ("name"@, JsonTree::Text(name)),
        ("output"@, output),
    );
    reveal_strlit("type");
    reveal_strlit("tool_result");
    reveal_strlit("toolCallId");
    reveal_strlit("name");
    reveal_strlit("output");
    reveal_strlit("{\"type\":\"tool_result\",\"toolCallId\":");
    reveal_strlit(",\"name\":");
    reveal_strlit(",\"output\":{\"type\":\"text\",\"content\":");
    reveal_strlit("{\"type\":\"text\",\"content\":");
    reveal_strlit("}}");
    reveal_strlit("}");
    assert("{\"type\":\"tool_result\",\"toolCallId\":"@ =~= seq!['{'] + quoted("type"@) + seq![':']
        + quoted("tool_result"@) + seq![','] + quoted("toolCallId"@) + seq![':']);
    assert(",\"name\":"@ =~= seq![','] + quoted("name"@) + seq![':']);
    assert(",\"output\":{\"type\":\"text\",\"content\":"@ =~= seq![','] + quoted("output"@)
        + seq![':'] + "{\"type\":\"text\",\"content\":"@);
    assert("}}"@ =~= "}"@ + seq!['}']);
    assert(block_text(block) =~= rendered(block_tree(block)));
}

/// A block is written as the compact text of its document.
proof fn lemma_block_text(block: ContentView)
    ensures
        block_text(block) == rendered(block_tree(block)),
{
    match block {
        ContentView::Text(text) => lemma_text_block_text(text),
        ContentView::ToolCalls(calls) => lemma_calls_block_text(calls),
        ContentView::ToolResult(id, name, content, truncated) => lemma_result_block_text(
            id,
            name,
            content,
            truncated,
        ),
    }
}

/// Blocks are written as the compact texts of their documents.
proof fn lemma_block_texts(blocks: Seq<ContentView>)
    ensures
        block_texts(blocks) == rendered_items(block_trees(blocks)),
    decreases blocks.len(),
{
    let trees = block_trees(blocks);
    if blocks.len() > 0 {
        lemma_block_text(blocks.last());
        assert(trees[trees.len() - 1] == block_tree(blocks.last()));
        if blocks.len() > 1 {
            lemma_block_texts(blocks.drop_last());
            assert(trees.subrange(0, trees.len() - 1) =~= block_trees(blocks.drop_last()));
            reveal_strlit(",");
            assert(","@ =~= seq![',']);
        }
    }
}

/// The canonical text of a message is the compact JSON text of its document.
pub proof fn law_canonical_text_is_compact_json(blocks: Seq<ContentView>)
    ensures
        canonical(blocks) == rendered(message_tree(blocks)),
{
    lemma_block_texts(blocks);
    reveal_strlit("[");
    reveal_strlit("]");
    assert("["@ =~= seq!['[']);
    assert("]"@ =~= seq![']']);
    assert(rendered(message_tree(blocks)) == seq!['['] + rendered_items(block_trees(blocks))
        + seq![']']);
}

/// The document of a tool call is regular.
proof fn lemma_regular_call(call: ToolCallView, levels: nat)
    requires
        levels > 0,
    ensures
        regular(call_tree(call), levels),
{
    reveal_with_fuel(regular, 2);
    lemma_plain_names();
    lemma_distinct_names();
}

/// The document of a block is regular.
proof fn lemma_regular_block(block: ContentView, levels: nat)
    requires
        levels > 2,
    ensures
        regular(block_tree(block), levels),
{
    reveal_with_fuel(regular, 2);
    lemma_plain_names();
    lemma_distinct_names();
    match block {
        ContentView::Text(_) => {},
        ContentView::ToolCalls(calls) => {
            let trees = call_trees(calls);
            assert forall|i: int| 0 <= i < trees.len() implies regular(
                #[trigger] trees[i],
                (levels - 2) as nat,
            ) by {
                lemma_regular_call(calls[i], (levels - 2) as nat);
            }
            assert(regular(JsonTree::Array(trees), (levels - 1) as nat));
        },
        ContentView::ToolResult(_, _, content, truncated) => {
            assert(regular(output_tree(content, truncated), (levels - 1) as nat));
        },
    }
}

/// The document of a block carries the label of its kind.
proof fn lemma_block_label(block: ContentView)
    ensures
        block_tree(block) matches JsonTree::Object(members) && labelled(members),
{
    let members = block_tree(block)->Object_0;
    assert(members[0].0 == "type"@);
    assert(member(members, "type"@) == Some(members[0].1));
}

/// The names of the members of blocks.
spec fn block_name(name: Seq<char>) -> bool {
    ||| name == "type"@
    ||| name == "text"@
    ||| name == "calls"@
    ||| name == "id"@
    ||| name == "name"@
    ||| name == "argumentsJson"@
    ||| name == "toolCallId"@
    ||| name == "output"@
    ||| name == "content"@
    ||| name == "truncated"@
}

/// The names of the members of blocks are not hidden ones.
proof fn lemma_block_name_is_shown(name: Seq<char>)
    requires
        block_name(name),
    ensures
        !hidden_name(name),
{
    reveal_strlit("type");
    reveal_strlit("text");
    reveal_strlit("calls");
    reveal_strlit("id");
    reveal_strlit("name");
    reveal_strlit("argumentsJson");
    reveal_strlit("toolCallId");
    reveal_strlit("output");
    reveal_strlit("content");
    reveal_strlit("truncated");
    reveal_strlit("hidden_reasoning");
    reveal_strlit("reasoning_content");
    reveal_strlit("raw_provider_delta");
    reveal_strlit("provider_delta");
    reveal_strlit("rows");
    reveal_strlit("result_rows");
    reveal_strlit("full_result");
    reveal_strlit("api_key");
    reveal_strlit("apikey");
    reveal_strlit("authorization");
    let small = lowered(name);
    assert(small.len() == name.len());
    assert(small[0] == name[0]);
    assert(small[1] == name[1]);
}

/// The members in the document of a block have the names of members of blocks.
proof fn lemma_block_names(block: ContentView, name: Seq<char>)
    requires
        named(block_tree(block), name),
    ensures
        block_name(name),
{
    let members = block_tree(block)->Object_0;
    let i = choose|i: int|
        0 <= i < members.len() && ((#[trigger] members[i]).0 == name || named(members[i].1, name));
    if members[i].0 != name {
        match block {
            ContentView::Text(_) => {},
            ContentView::ToolCalls(calls) => {
                let trees = call_trees(calls);
                let k = choose|k: int| 0 <= k < trees.len() && named(#[trigger] trees[k], name);
                let inner = call_tree(calls[k])->Object_0;
                let j = choose|j: int|
                    0 <= j < inner.len() && ((#[trigger] inner[j]).0 == name || named(
                        inner[j].1,
                        name,
                    ));
                assert(inner[j].0 == name);
            },
            ContentView::ToolResult(_, _, content, truncated) => {
                let inner = output_tree(content, truncated)->Object_0;
                let j = choose|j: int|
                    0 <= j < inner.len() && ((#[trigger] inner[j]).0 == name || named(
                        inner[j].1,
                        name,
                    ));
                assert(inner[j].0 == name);
            },
        }
    }
}

/// The document of a message is a regular array of blocks that hides nothing.
pub proof fn lemma_plain_message(blocks: Seq<ContentView>)
    requires
        blocks.len() > 0,
    ensures
        plain_message(block_trees(blocks)),
{
    let trees = block_trees(blocks);
    assert forall|i: int| 0 <= i < trees.len() implies regular(#[trigger] trees[i], 126) by {
        lemma_regular_block(blocks[i], 126);
    }
    assert forall|i: int| 0 <= i < trees.len() implies block_like(#[trigger] trees[i]) by {
        lemma_block_label(blocks[i]);
    }
    assert forall|name: Seq<char>| #[trigger]
        named(JsonTree::Array(trees), name) implies !hidden_name(name) by {
        let i = choose|i: int| 0 <= i < trees.len() && named(#[trigger] trees[i], name);
        lemma_block_names(blocks[i], name);
        lemma_block_name_is_shown(name);
    }
}

/// A document that is the same as that of a tool call reads as the call.
proof fn lemma_read_call(found: JsonTree, call: ToolCallView)
    requires
        same_document(found, call_tree(call)),
    ensures
        contract_call(found) == Some(call),
        width(found) == 3,
{
    reveal_with_fuel(same_document, 2);
    let members = call_tree(call)->Object_0;
    assert(members[0].0 == "id"@);
    assert(members[1].0 == "name"@);
    assert(members[2].0 == "argumentsJson"@);
}

/// A document that is the same as that of a block reads as the block.
proof fn lemma_read_block(found: JsonTree, block: ContentView)
    requires
        same_document(found, block_tree(block)),
    ensures
        contract_block(found) == Some(block),
        exact_block(found),
{
    reveal_with_fuel(same_document, 3);
    let members = block_tree(block)->Object_0;
    lemma_distinct_names();
    assert(members[0].0 == "type"@);
    match block {
        ContentView::Text(_) => {
            assert(members[1].0 == "text"@);
        },
        ContentView::ToolCalls(calls) => {
            assert(members[1].0 == "calls"@);
            let trees = call_trees(calls);
            let read = member(found->Object_0, "calls"@)->0;
            let items = read->Array_0;
            assert forall|i: int| 0 <= i < items.len() implies contract_call(#[trigger] items[i])
                == Some(calls[i]) && width(items[i]) == 3 by {
                assert(same_document(items[i], trees[i]));
                lemma_read_call(items[i], calls[i]);
            }
            assert(contract_calls(items)->0 =~= calls);
        },
        ContentView::ToolResult(_, _, content, truncated) => {
            assert(members[1].0 == "toolCallId"@);
            assert(members[2].0 == "name"@);
            assert(members[3].0 == "output"@);
            let inner = output_tree(content, truncated)->Object_0;
            assert(inner[0].0 == "type"@);
            assert(inner[1].0 == "content"@);
            assert(inner[2].0 == "truncated"@);
        },
    }
}

/// A document that is the same as that of a message reads as the message.
pub proof fn lemma_read_message(found: JsonTree, blocks: Seq<ContentView>)
    requires
        blocks.len() > 0,
        same_document(found, message_tree(blocks)),
        message_fits(byte_len(canonical(blocks))),
    ensures
        document_blocks(Some(found)) == Ok::<Seq<ContentView>, StorageError>(blocks),
{
    let trees = block_trees(blocks);
    let items = found->Array_0;
    assert forall|i: int| 0 <= i < items.len() implies contract_block(#[trigger] items[i]) == Some(
        blocks[i],
    ) && exact_block(items[i]) by {
        assert(same_document(items[i], trees[i]));
        lemma_read_block(items[i], blocks[i]);
    }
    assert(contract_blocks(items)->0 =~= blocks);
}

/// A document that reads as a tool call and has no further members is that of the call.
proof fn lemma_call_document(found: JsonTree, call: ToolCallView)
    requires
        contract_call(found) == Some(call),
        width(found) == 3,
    ensures
        same_document(found, call_tree(call)),
{
    reveal_with_fuel(same_document, 2);
}

/// A document that reads as a block and has no further members is that of the block.
proof fn lemma_block_document(found: JsonTree, block: ContentView)
    requires
        contract_block(found) == Some(block),
        exact_block(found),
    ensures
        same_document(found, block_tree(block)),
{
    reveal_with_fuel(same_document, 2);
    lemma_distinct_names();
    match block {
        ContentView::Text(_) => {},
        ContentView::ToolCalls(calls) => {
            let trees = call_trees(calls);
            let items = member(found->Object_0, "calls"@)->0->Array_0;
            assert forall|i: int| 0 <= i < trees.len() implies same_document(
                items[i],
                #[trigger] trees[i],
            ) by {
                assert(contract_call(items[i]) == Some(calls[i]));
                assert(width(items[i]) == 3);
                lemma_call_document(items[i], calls[i]);
            }
            assert(same_document(JsonTree::Array(items), JsonTree::Array(trees)));
        },
        ContentView::ToolResult(_, _, content, truncated) => {
            let output = member(found->Object_0, "output"@)->0;
            assert(same_document(output, output_tree(content, truncated)));
        },
    }
}

/// A message that is accepted keeps its document: its canonical text is the compact JSON text of the
/// same document, up to the order of members.
pub proof fn law_accepted_message_keeps_its_document(found: JsonTree, blocks: Seq<ContentView>)
    requires
        document_blocks(Some(found)) == Ok::<Seq<ContentView>, StorageError>(blocks),
    ensures
        blocks.len() > 0,
        same_document(found, message_tree(blocks)),
        canonical(blocks) == rendered(message_tree(blocks)),
        message_fits(byte_len(canonical(blocks))),
{
    law_canonical_text_is_compact_json(blocks);
    let trees = block_trees(blocks);
    let items = found->Array_0;
    assert forall|i: int| 0 <= i < trees.len() implies same_document(
        items[i],
        #[trigger] trees[i],
    ) by {
        assert(contract_block(items[i]) == Some(blocks[i]));
        assert(exact_block(items[i]));
        lemma_block_document(items[i], blocks[i]);
    }
}

/// Normalising is done once: what it returns for a text is a text within the bounds, with its length,
/// that reads as the document of the first one, up to the order of members, and that comes back
/// unchanged when it is normalised again.
pub proof fn law_normalizing_twice_changes_nothing(
    text: Seq<char>,
    first: NormalizedMessage,
    again: Result<NormalizedMessage, StorageError>,
)
    requires
        normalizes(text, Ok(first)),
        normalizes(first.content_json@, again),
    ensures
        first.blocks@.len() > 0,
        first.content_bytes == byte_len(first.content_json@),
        0 < first.content_bytes <= MAX_AGENT_MESSAGE_BYTES,
        reads_as(text, block_views(first.blocks@)),
        reads_as(first.content_json@, block_views(first.blocks@)),
        again matches Ok(second) && second.content_json@ == first.content_json@
            && second.content_bytes == first.content_bytes && block_views(second.blocks@)
            == block_views(first.blocks@),
{
    let blocks = block_views(first.blocks@);
    assert(message_blocks(text) == Ok::<Seq<ContentView>, StorageError>(blocks));
    law_accepted_message_keeps_its_document(parsed(text)->0, blocks);
    assert(first.content_json@ == canonical(blocks));
}

} // verus!
