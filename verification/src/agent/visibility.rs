use vstd::prelude::*;

use crate::agent::canonical::lemma_plain_names;
use crate::error::StorageError;
use crate::json::{
    digits, lemma_element_text_is_shorter, lemma_regular_within, member, named, regular,
    regular_text, rendered, rendered_items, JsonTree,
};
use crate::sqlite::{
    json_each, json_extract, json_tree, json_type, json_valid, optional_text, optional_texts,
    place, sqlite_elements, sqlite_extract, sqlite_keys, sqlite_type, sqlite_valid,
    MAX_SQLITE_TEXT_BYTES,
};
use crate::text::{byte_len, lemma_chars_within_bytes, lowered, same_text, to_ascii_lower};

verus! {

/// One element of the array that a message is, as SQLite reads it.
pub enum MessageElement {
    /// `null`.
    Null,
    /// A string that is not JSON itself.
    Malformed,
    /// A value, or a string that is the JSON text of one.
    Value {
        /// Kind of the value.
        kind: String,
        /// Text of its first `type` member, if it has one that is not `null`.
        label: Option<String>,
    },
}

/// A message as SQLite reads it.
pub struct MessageFacts {
    /// Kind of the whole value.
    pub kind: String,
    /// Its elements, in order.
    pub elements: Vec<MessageElement>,
    /// The keys of all values in it, at any depth: names of members and places in arrays.
    pub keys: Vec<Option<String>>,
}

/// An element as a value.
pub enum ElementView {
    /// `null`.
    Null,
    /// A string that is not JSON itself.
    Malformed,
    /// A value: its kind and its label.
    Value(Seq<char>, Option<Seq<char>>),
}

/// What SQLite reads of a message, as a value.
pub struct FactsView {
    /// Kind of the whole value.
    pub kind: Seq<char>,
    /// Its elements.
    pub elements: Seq<ElementView>,
    /// The keys of all values in it.
    pub keys: Seq<Option<Seq<char>>>,
}

impl View for MessageElement {
    type V = ElementView;

    open spec fn view(&self) -> ElementView {
        match *self {
            MessageElement::Null => ElementView::Null,
            MessageElement::Malformed => ElementView::Malformed,
            MessageElement::Value { kind, label } => ElementView::Value(kind@, optional_text(label)),
        }
    }
}

/// The elements as values.
pub open spec fn element_views(elements: Seq<MessageElement>) -> Seq<ElementView> {
    elements.map_values(|element: MessageElement| element@)
}

impl View for MessageFacts {
    type V = FactsView;

    open spec fn view(&self) -> FactsView {
        FactsView {
            kind: self.kind@,
            elements: element_views(self.elements@),
            keys: optional_texts(self.keys@),
        }
    }
}

/// The facts as a value, if there are any.
pub open spec fn facts_view(facts: Option<MessageFacts>) -> Option<FactsView> {
    match facts {
        Some(facts) => Some(facts@),
        None => None,
    }
}

/// Member names that carry hidden reasoning, raw provider traffic, full results or credentials.
pub open spec fn hidden_name(name: Seq<char>) -> bool {
    let small = lowered(name);
    ||| small == "hidden_reasoning"@
    ||| small == "reasoning_content"@
    ||| small == "raw_provider_delta"@
    ||| small == "provider_delta"@
    ||| small == "rows"@
    ||| small == "result_rows"@
    ||| small == "full_result"@
    ||| small == "api_key"@
    ||| small == "apikey"@
    ||| small == "authorization"@
}

/// The names of the block kinds.
pub open spec fn block_kind(kind: Seq<char>) -> bool {
    kind == "text"@ || kind == "tool_calls"@ || kind == "tool_result"@
}

/// The failure of a message that is no strict JSON, no array of blocks, or hides something.
pub open spec fn not_visible() -> StorageError {
    StorageError::InvalidAgent(
        "message must be a strict visible JSON array without hidden reasoning or raw deltas",
    )
}

/// An object may be a block unless its label is that of no block; `null` says nothing.
pub open spec fn element_check(element: ElementView) -> Result<(), StorageError> {
    match element {
        ElementView::Null => Ok(()),
        ElementView::Malformed => Err(StorageError::Sqlite("malformed JSON")),
        ElementView::Value(kind, label) => if kind == "object"@ && (label matches Some(label)
            ==> block_kind(label)) {
            Ok(())
        } else {
            Err(not_visible())
        },
    }
}

/// The first element that fails decides the failure.
pub open spec fn elements_check(elements: Seq<ElementView>) -> Result<(), StorageError>
    decreases elements.len(),
{
    if elements.len() == 0 {
        Ok(())
    } else if element_check(elements[0]) is Err {
        element_check(elements[0])
    } else {
        elements_check(elements.drop_first())
    }
}

/// Whether a key is a hidden name.
pub open spec fn hides(keys: Seq<Option<Seq<char>>>) -> bool {
    exists|i: int| 0 <= i < keys.len() && (#[trigger] keys[i] matches Some(key) && hidden_name(key))
}

/// A visible message is a non-empty array of elements that may be blocks, and hides nothing.
pub open spec fn visible_check(facts: Option<FactsView>) -> Result<(), StorageError> {
    match facts {
        None => Err(not_visible()),
        Some(facts) => if facts.kind != "array"@ || facts.elements.len() == 0 {
            Err(not_visible())
        } else if elements_check(facts.elements) is Err {
            elements_check(facts.elements)
        } else if hides(facts.keys) {
            Err(not_visible())
        } else {
            Ok(())
        },
    }
}

/// The members of a block: one of them is its label.
pub open spec fn labelled(members: Seq<(Seq<char>, JsonTree)>) -> bool {
    member(members, "type"@) matches Some(JsonTree::Text(label)) && block_kind(label)
}

/// A regular document that is a block as far as its label tells.
pub open spec fn block_like(tree: JsonTree) -> bool {
    tree matches JsonTree::Object(members) && labelled(members)
}

/// A regular array of blocks that hides nothing.
pub open spec fn plain_message(items: Seq<JsonTree>) -> bool {
    &&& items.len() > 0
    &&& regular(JsonTree::Array(items), 127)
    &&& forall|i: int| 0 <= i < items.len() ==> block_like(#[trigger] items[i])
    &&& forall|name: Seq<char>| #[trigger]
        named(JsonTree::Array(items), name) ==> !hidden_name(name)
}

/// What SQLite reads of an element.
pub open spec fn element_read(text: Option<Seq<char>>) -> ElementView {
    match text {
        None => ElementView::Null,
        Some(text) => match sqlite_type(text) {
            None => ElementView::Malformed,
            Some(kind) => ElementView::Value(kind, sqlite_extract(text, "$.type"@)),
        },
    }
}

/// What SQLite reads of a message, or nothing if the text is not strict JSON.
pub open spec fn message_read(text: Seq<char>) -> Option<FactsView> {
    if !sqlite_valid(text) {
        None
    } else {
        match sqlite_type(text) {
            None => None,
            Some(kind) => Some(
                FactsView {
                    kind,
                    elements: sqlite_elements(text).map_values(
                        |element: Option<Seq<char>>| element_read(element),
                    ),
                    keys: sqlite_keys(text),
                },
            ),
        }
    }
}

/// Tests whether a key is a hidden name.
pub fn is_hidden_name(name: &str) -> (result: bool)
    ensures
        result == hidden_name(name@),
{
    let small = to_ascii_lower(name);
    let small = small.as_str();
    same_text(small, "hidden_reasoning") || same_text(small, "reasoning_content") || same_text(
        small,
        "raw_provider_delta",
    ) || same_text(small, "provider_delta") || same_text(small, "rows") || same_text(
        small,
        "result_rows",
    ) || same_text(small, "full_result") || same_text(small, "api_key") || same_text(
        small,
        "apikey",
    ) || same_text(small, "authorization")
}

/// Checks that an element may be a block.
pub fn validate_element(element: &MessageElement) -> (result: Result<(), StorageError>)
    ensures
        result == element_check(element@),
{
    match element {
        MessageElement::Null => Ok(()),
        MessageElement::Malformed => Err(StorageError::Sqlite("malformed JSON")),
        MessageElement::Value { kind, label } => {
            let known: bool = match label {
                Some(label) => {
                    let label = label.as_str();
                    same_text(label, "text") || same_text(label, "tool_calls") || same_text(
                        label,
                        "tool_result",
                    )
                },
                None => true,
            };
            if same_text(kind.as_str(), "object") && known {
                Ok(())
            } else {
                Err(
                    StorageError::InvalidAgent(
                        "message must be a strict visible JSON array without hidden reasoning or raw deltas",
                    ),
                )
            }
        },
    }
}

/// Checks that a message is visible.
pub fn validate_visible(facts: &Option<MessageFacts>) -> (result: Result<(), StorageError>)
    ensures
        result == visible_check(facts_view(*facts)),
{
    let found = match facts {
        Some(found) => found,
        None => return Err(
            StorageError::InvalidAgent(
                "message must be a strict visible JSON array without hidden reasoning or raw deltas",
            ),
        ),
    };
    let ghost elements = element_views(found.elements@);
    let ghost keys = optional_texts(found.keys@);
    if !same_text(found.kind.as_str(), "array") || found.elements.len() == 0 {
        return Err(
            StorageError::InvalidAgent(
                "message must be a strict visible JSON array without hidden reasoning or raw deltas",
            ),
        );
    }
    let mut i: usize = 0;
    assert(elements.skip(0) =~= elements);
    while i < found.elements.len()
        invariant
            i <= found.elements.len(),
            elements == element_views(found.elements@),
            elements.len() > 0,
            facts_view(*facts) == Some(found@),
            found.kind@ == "array"@,
            elements_check(elements) == elements_check(elements.skip(i as int)),
        decreases found.elements.len() - i,
    {
        assert(elements.skip(i as int)[0] == found.elements@[i as int]@);
        assert(elements.skip(i as int).drop_first() =~= elements.skip(i as int + 1));
        validate_element(&found.elements[i])?;
        i = i + 1;
    }
    let mut j: usize = 0;
    while j < found.keys.len()
        invariant
            j <= found.keys.len(),
            keys == optional_texts(found.keys@),
            elements == element_views(found.elements@),
            elements.len() > 0,
            facts_view(*facts) == Some(found@),
            found.kind@ == "array"@,
            elements_check(elements) is Ok,
            forall|k: int| 0 <= k < j ==> !(#[trigger] keys[k] matches Some(key) && hidden_name(
                key,
            )),
        decreases found.keys.len() - j,
    {
        assert(keys[j as int] == optional_text(found.keys@[j as int]));
        if let Some(key) = &found.keys[j] {
            if is_hidden_name(key.as_str()) {
                assert(hides(keys));
                return Err(
                    StorageError::InvalidAgent(
                        "message must be a strict visible JSON array without hidden reasoning or raw deltas",
                    ),
                );
            }
        }
        j = j + 1;
    }
    assert(!hides(keys));
    Ok(())
}

/// A place in an array is not a hidden name.
proof fn lemma_place_is_shown(key: Seq<char>)
    requires
        place(key),
    ensures
        !hidden_name(key),
{
    let index = choose|index: nat| key == #[trigger] digits(index);
    lemma_digits_start(index);
    reveal_strlit("hidden_reasoning");
    reveal_strlit("reasoning_content");
    reveal_strlit("raw_provider_delta");
    reveal_strlit("provider_delta");
    reveal_strlit("rows");
    reveal_strlit("result_rows");
    reveal_strlit("full_result");
    reveal_strlit("api_key");
    reveal_strlit("apikey");
    reveal_strlit("authorization");
    assert(lowered(key)[0] == key[0]);
}

/// A number in decimal starts with a digit.
proof fn lemma_digits_start(value: nat)
    ensures
        digits(value).len() > 0,
        '0' <= digits(value)[0] <= '9',
    decreases value,
{
    if value >= 10 {
        lemma_digits_start(value / 10);
    }
}

/// Elements that pass one by one pass together.
proof fn lemma_elements_pass(elements: Seq<ElementView>)
    requires
        forall|i: int| 0 <= i < elements.len() ==> element_check(#[trigger] elements[i]) is Ok,
    ensures
        elements_check(elements) is Ok,
    decreases elements.len(),
{
    if elements.len() > 0 {
        let rest = elements.drop_first();
        assert forall|i: int| 0 <= i < rest.len() implies element_check(#[trigger] rest[i]) is Ok by {
            assert(rest[i] == elements[i + 1]);
        }
        lemma_elements_pass(rest);
    }
}

/// The compact text of a regular block, as far as its label tells.
pub open spec fn block_like_text(text: Option<Seq<char>>) -> bool {
    exists|members: Seq<(Seq<char>, JsonTree)>|
        text is Some && #[trigger] regular_text(text->0, JsonTree::Object(members)) && labelled(
            members,
        )
}

/// Reads an element of a message.
fn read_element(text: &Option<String>) -> (result: MessageElement)
    ensures
        result@ == element_read(optional_text(*text)),
        block_like_text(optional_text(*text)) ==> element_check(result@) is Ok,
{
    proof {
        lemma_plain_names();
        reveal_strlit("$.type");
        reveal_strlit("type");
        assert("$.type"@.skip(2) =~= "type"@);
    }
    match text {
        None => MessageElement::Null,
        Some(text) => match json_type(text.as_str()) {
            None => MessageElement::Malformed,
            Some(kind) => {
                let label = json_extract(text.as_str(), "$.type");
                MessageElement::Value { kind, label }
            },
        },
    }
}

/// Reads a message with SQLite's JSON functions.
pub fn read_message(text: &str) -> (result: Option<MessageFacts>)
    requires
        byte_len(text@) <= MAX_SQLITE_TEXT_BYTES,
    ensures
        facts_view(result) == message_read(text@),
        forall|items: Seq<JsonTree>| #[trigger]
            plain_message(items) && text@ == rendered(JsonTree::Array(items)) ==> visible_check(
                facts_view(result),
            ) is Ok,
{
    proof {
        lemma_chars_within_bytes(text@);
        assert forall|items: Seq<JsonTree>| #[trigger]
            plain_message(items) && text@ == rendered(JsonTree::Array(items)) implies regular_text(
            text@,
            JsonTree::Array(items),
        ) by {}
    }
    if !json_valid(text) {
        return None;
    }
    let kind = match json_type(text) {
        Some(kind) => kind,
        None => return None,
    };
    let texts = json_each(text);
    let ghost listed = optional_texts(texts@);
    let mut elements: Vec<MessageElement> = Vec::new();
    let mut i: usize = 0;
    while i < texts.len()
        invariant
            i <= texts.len(),
            i == elements.len(),
            listed == optional_texts(texts@),
            forall|j: int|
                0 <= j < i ==> (#[trigger] elements@[j])@ == element_read(listed[j]) && (
                block_like_text(listed[j]) ==> element_check(elements@[j]@) is Ok),
        decreases texts.len() - i,
    {
        assert(listed[i as int] == optional_text(texts@[i as int]));
        elements.push(read_element(&texts[i]));
        i = i + 1;
    }
    let keys = json_tree(text);
    let facts = MessageFacts { kind, elements, keys };
    assert(facts@.elements =~= message_read(text@)->0.elements);
    proof {
        assert forall|items: Seq<JsonTree>| #[trigger]
            plain_message(items) && text@ == rendered(JsonTree::Array(items)) implies visible_check(
            Some(facts@),
        ) is Ok by {
            assert(regular_text(text@, JsonTree::Array(items)));
            assert forall|i: int| 0 <= i < items.len() implies #[trigger] items[i] is Object by {
                assert(block_like(items[i]));
            }
            assert(listed == Seq::new(items.len(), |i: int| Some(rendered(items[i]))));
            assert forall|i: int| 0 <= i < facts@.elements.len() implies element_check(
                #[trigger] facts@.elements[i],
            ) is Ok by {
                assert(facts@.elements[i] == elements@[i]@);
                assert(listed[i] == Some(rendered(items[i])));
                assert(block_like(items[i]));
                lemma_regular_within(items[i], 126, 127);
                lemma_element_text_is_shorter(items, i);
                assert(rendered(JsonTree::Array(items)) == seq!['['] + rendered_items(items)
                    + seq![']']);
                assert(regular_text(listed[i]->0, JsonTree::Object(items[i]->Object_0)));
                assert(block_like_text(listed[i]));
            }
            lemma_elements_pass(facts@.elements);
            assert forall|i: int| 0 <= i < facts@.keys.len() implies !(
            #[trigger] facts@.keys[i] matches Some(key) && hidden_name(key)) by {
                if let Some(key) = facts@.keys[i] {
                    if !named(JsonTree::Array(items), key) {
                        lemma_place_is_shown(key);
                    }
                }
            }
            assert(!hides(facts@.keys));
        }
    }
    Some(facts)
}

} // verus!
