use serde_json::Value;
use vstd::prelude::*;

use crate::text::same_text;

verus! {

/// A JSON document. An object is the sequence of its members, each a name and a value.
pub enum JsonTree {
    /// `null`.
    Null,
    /// `true` or `false`.
    Bool(bool),
    /// A number, as it is written.
    Number(Seq<char>),
    /// A string.
    Text(Seq<char>),
    /// An array.
    Array(Seq<JsonTree>),
    /// An object.
    Object(Seq<(Seq<char>, JsonTree)>),
}

/// `serde_json::Value`, a parsed document.
#[verifier::external_type_specification]
#[verifier::external_body]
pub struct ExJsonValue(Value);

/// The document that a `serde_json::Value` holds.
pub uninterp spec fn document(value: Value) -> JsonTree;

/// The document that `serde_json` reads from a text, or nothing if the text is not JSON.
pub uninterp spec fn parsed(text: Seq<char>) -> Option<JsonTree>;

/// A decimal digit.
pub open spec fn digit(value: nat) -> char {
    (('0' as nat + value) as u8) as char
}

/// A hexadecimal digit.
pub open spec fn hex_digit(value: nat) -> char {
    if value < 10 {
        digit(value)
    } else {
        (('a' as nat + (value - 10)) as u8) as char
    }
}

/// How a character is written inside a JSON string.
pub open spec fn escape(c: char) -> Seq<char> {
    if c == '"' {
        seq!['\\', '"']
    } else if c == '\\' {
        seq!['\\', '\\']
    } else if c == '\u{8}' {
        seq!['\\', 'b']
    } else if c == '\u{9}' {
        seq!['\\', 't']
    } else if c == '\u{a}' {
        seq!['\\', 'n']
    } else if c == '\u{c}' {
        seq!['\\', 'f']
    } else if c == '\u{d}' {
        seq!['\\', 'r']
    } else if 32 > c as nat {
        seq!['\\', 'u', '0', '0', hex_digit(c as nat / 16), hex_digit(c as nat % 16)]
    } else {
        seq![c]
    }
}

/// How a text is written inside a JSON string.
pub open spec fn escaped(text: Seq<char>) -> Seq<char>
    decreases text.len(),
{
    if text.len() == 0 {
        Seq::empty()
    } else {
        escaped(text.drop_last()) + escape(text.last())
    }
}

/// The JSON string of a text.
pub open spec fn quoted(text: Seq<char>) -> Seq<char> {
    seq!['"'] + escaped(text) + seq!['"']
}

/// The compact JSON text of a document.
pub open spec fn rendered(tree: JsonTree) -> Seq<char>
    decreases tree,
{
    match tree {
        JsonTree::Null => "null"@,
        JsonTree::Bool(true) => "true"@,
        JsonTree::Bool(false) => "false"@,
        JsonTree::Number(text) => text,
        JsonTree::Text(text) => quoted(text),
        JsonTree::Array(items) => seq!['['] + rendered_items(items) + seq![']'],
        JsonTree::Object(members) => seq!['{'] + rendered_members(members) + seq!['}'],
    }
}

/// The compact JSON texts of documents, separated by commas.
pub open spec fn rendered_items(items: Seq<JsonTree>) -> Seq<char>
    decreases items,
{
    if items.len() == 0 {
        Seq::empty()
    } else {
        let last = rendered(items[items.len() - 1]);
        if items.len() == 1 {
            last
        } else {
            rendered_items(items.subrange(0, items.len() - 1)) + seq![','] + last
        }
    }
}

/// The compact JSON texts of members, separated by commas.
pub open spec fn rendered_members(members: Seq<(Seq<char>, JsonTree)>) -> Seq<char>
    decreases members,
{
    if members.len() == 0 {
        Seq::empty()
    } else {
        let last = quoted(members[members.len() - 1].0) + seq![':'] + rendered(
            members[members.len() - 1].1,
        );
        if members.len() == 1 {
            last
        } else {
            rendered_members(members.subrange(0, members.len() - 1)) + seq![','] + last
        }
    }
}

/// A document whose numbers are all integers, and whose arrays and objects are nested at most so
/// many levels deep.
pub open spec fn integral_within(tree: JsonTree, levels: nat) -> bool
    decreases tree,
{
    match tree {
        JsonTree::Number(text) => !text.contains('.') && !text.contains('e'),
        JsonTree::Array(items) => levels > 0 && forall|i: int|
            0 <= i < items.len() ==> integral_within(#[trigger] items[i], (levels - 1) as nat),
        JsonTree::Object(members) => levels > 0 && forall|i: int|
            0 <= i < members.len() ==> integral_within(
                (#[trigger] members[i]).1,
                (levels - 1) as nat,
            ),
        _ => true,
    }
}

/// A document that `serde_json` reads back from the text that it writes: it reads at most 127 levels.
/// Fractions are left out, because the one that is read may differ in its last digit from the one
/// that was written.
pub open spec fn reads_back(tree: JsonTree) -> bool {
    integral_within(tree, 127)
}

/// One layer of a parsed document.
pub enum JsonNode<'a> {
    /// `null`.
    Null,
    /// `true` or `false`.
    Bool(bool),
    /// A number, as it is written.
    Number(String),
    /// A string.
    Text(&'a str),
    /// An array.
    Array(&'a [Value]),
    /// An object.
    Object(Vec<(&'a str, &'a Value)>),
}

/// The document of a value, if there is one.
pub open spec fn optional_document(value: Option<Value>) -> Option<JsonTree> {
    match value {
        Some(value) => Some(document(value)),
        None => None,
    }
}

/// The documents of a sequence of values.
pub open spec fn documents(items: Seq<Value>) -> Seq<JsonTree> {
    items.map_values(|item: Value| document(item))
}

/// The members of an object, name by name.
pub open spec fn member_trees(members: Seq<(&str, &Value)>) -> Seq<(Seq<char>, JsonTree)> {
    members.map_values(|member: (&str, &Value)| (member.0@, document(*member.1)))
}

impl<'a> JsonNode<'a> {
    /// The document that the layer belongs to.
    pub open spec fn tree(self) -> JsonTree {
        match self {
            JsonNode::Null => JsonTree::Null,
            JsonNode::Bool(value) => JsonTree::Bool(value),
            JsonNode::Number(text) => JsonTree::Number(text@),
            JsonNode::Text(text) => JsonTree::Text(text@),
            JsonNode::Array(items) => JsonTree::Array(documents(items@)),
            JsonNode::Object(members) => JsonTree::Object(member_trees(members@)),
        }
    }
}

/// No two members have the same name.
pub open spec fn distinct_names(members: Seq<(Seq<char>, JsonTree)>) -> bool {
    forall|i: int, j: int|
        0 <= i < j < members.len() ==> (#[trigger] members[i]).0 != (#[trigger] members[j]).0
}

/// A document without numbers, whose members have distinct names that are written as they are, and
/// whose arrays and objects are nested at most so many levels deep.
pub open spec fn regular(tree: JsonTree, levels: nat) -> bool
    decreases tree,
{
    match tree {
        JsonTree::Number(_) => false,
        JsonTree::Array(items) => levels > 0 && forall|i: int|
            0 <= i < items.len() ==> regular(#[trigger] items[i], (levels - 1) as nat),
        JsonTree::Object(members) => levels > 0 && distinct_names(members) && forall|i: int|
            0 <= i < members.len() ==> escaped((#[trigger] members[i]).0) == members[i].0
                && regular(members[i].1, (levels - 1) as nat),
        _ => true,
    }
}

/// A regular document stays regular if more levels are allowed.
pub proof fn lemma_regular_within(tree: JsonTree, levels: nat, more: nat)
    requires
        regular(tree, levels),
        levels <= more,
    ensures
        regular(tree, more),
    decreases tree,
{
    match tree {
        JsonTree::Array(items) => {
            assert forall|i: int| 0 <= i < items.len() implies regular(
                #[trigger] items[i],
                (more - 1) as nat,
            ) by {
                assert(decreases_to!(tree => tree->Array_0));
                assert(decreases_to!(items => items[i]));
                lemma_regular_within(items[i], (levels - 1) as nat, (more - 1) as nat);
            }
        },
        JsonTree::Object(members) => {
            assert forall|i: int| 0 <= i < members.len() implies escaped(
                (#[trigger] members[i]).0,
            ) == members[i].0 && regular(members[i].1, (more - 1) as nat) by {
                assert(decreases_to!(tree => tree->Object_0));
                assert(decreases_to!(members => members[i]));
                assert(decreases_to!(members[i] => members[i].1));
                lemma_regular_within(members[i].1, (levels - 1) as nat, (more - 1) as nat);
            }
        },
        _ => {},
    }
}

/// Two documents that are the same but for the order of the members of objects.
pub open spec fn same_document(left: JsonTree, right: JsonTree) -> bool
    decreases right,
{
    match (left, right) {
        (JsonTree::Array(found), JsonTree::Array(items)) => found.len() == items.len() && forall|
            i: int,
        |
            0 <= i < items.len() ==> same_document(found[i], #[trigger] items[i]),
        (JsonTree::Object(found), JsonTree::Object(members)) => found.len() == members.len()
            && forall|i: int|
            0 <= i < members.len() ==> (member(found, (#[trigger] members[i]).0) matches Some(value)
                && same_document(value, members[i].1)),
        (JsonTree::Array(_), _) | (JsonTree::Object(_), _) => false,
        _ => left == right,
    }
}

/// Whether a member at any depth has the name.
pub open spec fn named(tree: JsonTree, name: Seq<char>) -> bool
    decreases tree,
{
    match tree {
        JsonTree::Array(items) => exists|i: int|
            0 <= i < items.len() && named(#[trigger] items[i], name),
        JsonTree::Object(members) => exists|i: int|
            0 <= i < members.len() && ((#[trigger] members[i]).0 == name || named(
                members[i].1,
                name,
            )),
        _ => false,
    }
}

/// The compact text, of at most a million characters, of a regular document of at most 127 levels.
pub open spec fn regular_text(text: Seq<char>, tree: JsonTree) -> bool {
    text == rendered(tree) && text.len() <= 1_000_000 && regular(tree, 127)
}

/// The text of an element is no longer than that of all elements together.
pub proof fn lemma_element_text_is_shorter(items: Seq<JsonTree>, i: int)
    requires
        0 <= i < items.len(),
    ensures
        rendered(items[i]).len() <= rendered_items(items).len(),
    decreases items.len(),
{
    if i < items.len() - 1 {
        let earlier = items.subrange(0, items.len() - 1);
        assert(earlier[i] == items[i]);
        lemma_element_text_is_shorter(earlier, i);
    }
}

/// The value read from the compact text of a regular document holds that document.
pub open spec fn reads_regular(text: Seq<char>, value: Option<Value>) -> bool {
    forall|tree: JsonTree| #[trigger]
        regular_text(text, tree) ==> (value matches Some(read) && same_document(
            document(read),
            tree,
        ))
}

/// `serde_json::from_str` reads a document from the text alone, or refuses the text. From the
/// compact text of a regular document of at most 127 levels it reads that document, with the members
/// of objects in an order of its own.
#[verifier::external_body]
pub(crate) fn parse_json(text: &str) -> (result: Option<Value>)
    ensures
        match result {
            Some(value) => parsed(text@) == Some(document(value)),
            None => parsed(text@) is None,
        },
        reads_regular(text@, result),
{
    serde_json::from_str::<Value>(text).ok()
}

/// The variants of `serde_json::Value` tell the kinds of documents apart; an object is walked
/// with `serde_json::Map::iter`.
#[verifier::external_body]
pub(crate) fn json_node<'a>(value: &'a Value) -> (result: JsonNode<'a>)
    ensures
        result.tree() == document(*value),
{
    match value {
        Value::Null => JsonNode::Null,
        Value::Bool(flag) => JsonNode::Bool(*flag),
        Value::Number(number) => JsonNode::Number(number.to_string()),
        Value::String(text) => JsonNode::Text(text.as_str()),
        Value::Array(items) => JsonNode::Array(items.as_slice()),
        Value::Object(members) => JsonNode::Object(
            members.iter().map(|(name, member)| (name.as_str(), member)).collect(),
        ),
    }
}

/// `serde_json::to_string` writes a string as its JSON text: in quotes, with a backslash before a
/// quote or a backslash, and control characters escaped. On a string it does not fail.
#[verifier::external_body]
pub(crate) fn quote_json(text: &str) -> (result: Option<String>)
    ensures
        result is Some,
        result->0@ == quoted(text@),
{
    serde_json::to_string(text).ok()
}

/// `serde_json::to_string` writes a parsed document as its compact JSON text; on a `Value`, whose names
/// are all strings, it does not fail. `serde_json::from_str` reads the same document back from the text,
/// if it has no fractions and is not nested too deep.
#[verifier::external_body]
pub(crate) fn json_text(value: &Value) -> (result: Option<String>)
    ensures
        result is Some,
        result->0@ == rendered(document(*value)),
        reads_back(document(*value)) ==> parsed(result->0@) == Some(document(*value)),
{
    serde_json::to_string(value).ok()
}

/// A number in decimal digits.
pub open spec fn digits(value: nat) -> Seq<char>
    decreases value,
{
    if value < 10 {
        seq![digit(value)]
    } else {
        digits(value / 10).push(digit(value % 10))
    }
}

/// A number in decimal, with a minus sign if it is negative.
pub open spec fn decimal(value: int) -> Seq<char> {
    if value < 0 {
        seq!['-'] + digits((-value) as nat)
    } else {
        digits(value as nat)
    }
}

/// Numbers in decimal, with commas between them.
pub open spec fn comma_separated(ids: Seq<i64>) -> Seq<char>
    decreases ids.len(),
{
    if ids.len() == 0 {
        Seq::empty()
    } else if ids.len() == 1 {
        decimal(ids[0] as int)
    } else {
        comma_separated(ids.drop_last()) + seq![','] + decimal(ids.last() as int)
    }
}

/// The JSON array of numbers.
pub open spec fn id_list(ids: Seq<i64>) -> Seq<char> {
    seq!['['] + comma_separated(ids) + seq![']']
}

/// The numbers that `serde_json` reads from a text as an array of 64-bit integers, or nothing if
/// it refuses the text.
pub uninterp spec fn ids_read(text: Seq<char>) -> Option<Seq<i64>>;

/// `serde_json::to_string` writes 64-bit integers as a JSON array without white space, and does not
/// fail on them; `serde_json::from_str` reads the same integers back.
#[verifier::external_body]
pub(crate) fn ids_text(ids: &Vec<i64>) -> (result: Option<String>)
    ensures
        result is Some,
        result->0@ == id_list(ids@),
        ids_read(result->0@) == Some(ids@),
{
    serde_json::to_string(ids).ok()
}

/// `serde_json::from_str` reads an array of 64-bit integers from the text alone, or refuses the
/// text.
#[verifier::external_body]
pub(crate) fn parse_ids(text: &str) -> (result: Option<Vec<i64>>)
    ensures
        match result {
            Some(ids) => ids_read(text@) == Some(ids@),
            None => ids_read(text@) is None,
        },
{
    serde_json::from_str::<Vec<i64>>(text).ok()
}

/// The value of the first member with a name.
pub open spec fn member(members: Seq<(Seq<char>, JsonTree)>, name: Seq<char>) -> Option<JsonTree>
    decreases members.len(),
{
    if members.len() == 0 {
        None
    } else if members[0].0 == name {
        Some(members[0].1)
    } else {
        member(members.drop_first(), name)
    }
}

/// Finds the first member with a name.
pub fn find_member<'a>(members: &Vec<(&'a str, &'a Value)>, name: &str) -> (result: Option<
    &'a Value,
>)
    ensures
        match result {
            Some(value) => member(member_trees(members@), name@) == Some(document(*value)),
            None => member(member_trees(members@), name@) is None,
        },
{
    let ghost trees = member_trees(members@);
    let mut i: usize = 0;
    assert(trees.skip(0) =~= trees);
    while i < members.len()
        invariant
            i <= members.len(),
            trees == member_trees(members@),
            member(trees, name@) == member(trees.skip(i as int), name@),
        decreases members.len() - i,
    {
        assert(trees.skip(i as int)[0] == trees[i as int]);
        assert(trees.skip(i as int).drop_first() =~= trees.skip(i as int + 1));
        if same_text(members[i].0, name) {
            return Some(members[i].1);
        }
        i = i + 1;
    }
    None
}

/// The string that a member holds.
pub open spec fn text_member(members: Seq<(Seq<char>, JsonTree)>, name: Seq<char>) -> Option<
    Seq<char>,
> {
    match member(members, name) {
        Some(JsonTree::Text(text)) => Some(text),
        _ => None,
    }
}

/// Reads the string that a member holds.
pub fn find_text<'a>(members: &Vec<(&'a str, &'a Value)>, name: &str) -> (result: Option<&'a str>)
    ensures
        match result {
            Some(text) => text_member(member_trees(members@), name@) == Some(text@),
            None => text_member(member_trees(members@), name@) is None,
        },
{
    match find_member(members, name) {
        Some(value) => match json_node(value) {
            JsonNode::Text(text) => Some(text),
            _ => None,
        },
        None => None,
    }
}

/// Whether a text is JSON and its document an object.
pub open spec fn object_text(text: Seq<char>) -> bool {
    parsed(text) matches Some(JsonTree::Object(_))
}

/// Tests whether a text is a JSON object.
pub fn is_json_object(text: &str) -> (result: bool)
    ensures
        result == object_text(text@),
{
    match parse_json(text) {
        Some(value) => match json_node(&value) {
            JsonNode::Object(_) => true,
            _ => false,
        },
        None => false,
    }
}

/// A member is found by its name, the first one of that name; a name that no member has finds
/// nothing.
pub proof fn law_first_member_is_found(
    members: Seq<(Seq<char>, JsonTree)>,
    name: Seq<char>,
    value: JsonTree,
    other: Seq<char>,
)
    ensures
        member(Seq::empty(), name) is None,
        member(seq![(name, value)] + members, name) == Some(value),
        other != name ==> member(seq![(other, value)] + members, name) == member(members, name),
        text_member(members, name) matches Some(text) ==> member(members, name) == Some(
            JsonTree::Text(text),
        ),
        (member(members, name) matches Some(JsonTree::Text(text)) && text_member(members, name)
            == Some(text)) || text_member(members, name) is None,
        member(members, name) is Some && member(members, name)->0 is Text ==> text_member(
            members,
            name,
        ) is Some,
{
    assert((seq![(name, value)] + members).drop_first() =~= members);
    assert((seq![(other, value)] + members).drop_first() =~= members);
}

} // verus!
