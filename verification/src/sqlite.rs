//! What SQLite's JSON functions tell of a text.

use rusqlite::Connection;
use vstd::prelude::*;

use crate::json::{digits, escaped, member, named, regular_text, rendered, JsonTree};
use crate::text::byte_len;

verus! {

/// Texts of at most so many bytes are well within the limits of SQLite.
pub const MAX_SQLITE_TEXT_BYTES: u64 = 1_000_000;

/// Optional texts as values.
pub open spec fn optional_texts(texts: Seq<Option<String>>) -> Seq<Option<Seq<char>>> {
    texts.map_values(|text: Option<String>| optional_text(text))
}

/// An optional text as a value.
pub open spec fn optional_text(text: Option<String>) -> Option<Seq<char>> {
    match text {
        Some(text) => Some(text@),
        None => None,
    }
}

/// The path of a member of the whole document, whose name is made of ASCII letters.
pub open spec fn plain_path(path: Seq<char>) -> bool {
    &&& path.len() > 2
    &&& path[0] == '$'
    &&& path[1] == '.'
    &&& forall|i: int| 2 <= i < path.len() ==> 'a' <= #[trigger] path[i] <= 'z'
}

/// SQLite's word for the kind of a document without numbers.
pub open spec fn kind_name(tree: JsonTree) -> Seq<char> {
    match tree {
        JsonTree::Null => "null"@,
        JsonTree::Bool(true) => "true"@,
        JsonTree::Bool(false) => "false"@,
        JsonTree::Array(_) => "array"@,
        JsonTree::Object(_) => "object"@,
        _ => "text"@,
    }
}

/// The compact text of a regular document is strict JSON.
pub open spec fn regular_validity(text: Seq<char>, valid: bool) -> bool {
    forall|tree: JsonTree| #[trigger] regular_text(text, tree) ==> valid
}

/// The kind named for the compact text of a regular document is the kind of the document.
pub open spec fn regular_kind(text: Seq<char>, kind: Option<Seq<char>>) -> bool {
    forall|tree: JsonTree| #[trigger] regular_text(text, tree) ==> kind == Some(kind_name(tree))
}

/// The elements listed for the compact text of an array of objects are the compact texts of the
/// objects.
pub open spec fn regular_elements(text: Seq<char>, elements: Seq<Option<Seq<char>>>) -> bool {
    forall|items: Seq<JsonTree>| #[trigger]
        regular_text(text, JsonTree::Array(items)) && (forall|i: int|
            0 <= i < items.len() ==> #[trigger] items[i] is Object) ==> elements == Seq::new(
            items.len(),
            |i: int| Some(rendered(items[i])),
        )
}

/// A string that needs no escapes is found as it is in the compact text of an object.
pub open spec fn regular_member(
    text: Seq<char>,
    name: Seq<char>,
    found: Option<Seq<char>>,
) -> bool {
    forall|members: Seq<(Seq<char>, JsonTree)>| #[trigger]
        regular_text(text, JsonTree::Object(members)) ==> (member(members, name) matches Some(
            JsonTree::Text(held),
        ) ==> escaped(held) == held ==> found == Some(held))
}

/// The place of an element in its array, in decimal.
pub open spec fn place(key: Seq<char>) -> bool {
    exists|index: nat| key == #[trigger] digits(index)
}

/// The keys listed for the compact text of a regular document are places and names of members.
pub open spec fn regular_keys(text: Seq<char>, keys: Seq<Option<Seq<char>>>) -> bool {
    forall|tree: JsonTree| #[trigger]
        regular_text(text, tree) ==> forall|i: int|
            0 <= i < keys.len() ==> (#[trigger] keys[i] matches Some(key) ==> named(tree, key)
                || place(key))
}

/// Whether SQLite takes a text for strict JSON.
pub uninterp spec fn sqlite_valid(text: Seq<char>) -> bool;

/// The kind of the JSON value that SQLite reads from a text, or nothing if it cannot read the text.
pub uninterp spec fn sqlite_type(text: Seq<char>) -> Option<Seq<char>>;

/// The elements that SQLite finds in the JSON text of an array, each as text.
pub uninterp spec fn sqlite_elements(text: Seq<char>) -> Seq<Option<Seq<char>>>;

/// What SQLite finds at a path in a JSON text, as text.
pub uninterp spec fn sqlite_extract(text: Seq<char>, path: Seq<char>) -> Option<Seq<char>>;

/// The keys of all values that SQLite finds in a JSON text, at any depth.
pub uninterp spec fn sqlite_keys(text: Seq<char>) -> Seq<Option<Seq<char>>>;

/// SQLite's `json_valid`, asked over `rusqlite` on a database in memory, tells by the text alone
/// whether it is strict JSON, which the compact text of a document is. The call fails only where
/// memory runs out.
#[verifier::external_body]
pub(crate) fn json_valid(text: &str) -> (result: bool)
    requires
        byte_len(text@) <= MAX_SQLITE_TEXT_BYTES,
    ensures
        result == sqlite_valid(text@),
        regular_validity(text@, result),
{
    let connection = Connection::open_in_memory().expect("SQLite opens in memory");
    connection
        .query_row("SELECT json_valid(?1)", [text], |row| row.get(0))
        .expect("SQLite tests a text")
}

/// SQLite's `json_type`, asked over `rusqlite` on a database in memory, names the kind of the value
/// that a text holds, by the text alone, and refuses a text that it cannot read, or that is beyond
/// its limits. Of the compact text of a document it names the kind of the document. Memory is taken
/// not to run out.
#[verifier::external_body]
pub(crate) fn json_type(text: &str) -> (result: Option<String>)
    ensures
        optional_text(result) == sqlite_type(text@),
        regular_kind(text@, optional_text(result)),
{
    let connection = Connection::open_in_memory().expect("SQLite opens in memory");
    connection.query_row("SELECT json_type(?1)", [text], |row| row.get(0)).ok()
}

/// SQLite's `json_each`, asked over `rusqlite` on a database in memory, lists the elements of an
/// array (of an object the values, and of anything else the value itself), by the text alone:
/// strings as they are, numbers in decimal, truth values as `1` or `0`, arrays and objects as their
/// JSON text, and `null` as nothing. Of the compact text of an array of objects it lists the compact
/// texts of the objects. Bytes that are not UTF-8, which SQLite makes of lone surrogates, are
/// replaced. The call fails only where memory runs out.
#[verifier::external_body]
pub(crate) fn json_each(text: &str) -> (result: Vec<Option<String>>)
    requires
        byte_len(text@) <= MAX_SQLITE_TEXT_BYTES,
        sqlite_type(text@) is Some,
    ensures
        optional_texts(result@) == sqlite_elements(text@),
        regular_elements(text@, optional_texts(result@)),
{
    let connection = Connection::open_in_memory().expect("SQLite opens in memory");
    let mut statement = connection
        .prepare("SELECT CAST(CAST(value AS TEXT) AS BLOB) FROM json_each(?1)")
        .expect("SQLite knows json_each");
    let rows = statement
        .query_map([text], |row| row.get::<_, Option<Vec<u8>>>(0))
        .expect("SQLite lists elements");
    rows.map(|row| row.expect("SQLite reads an element"))
        .map(|value| value.map(|bytes| String::from_utf8_lossy(&bytes).into_owned()))
        .collect()
}

/// SQLite's `json_extract`, asked over `rusqlite` on a database in memory, looks up the first member
/// with the name that follows `$.`, by the text and the path alone, and gives its value in the way
/// of `json_each`, or nothing if there is no such member, it is `null`, or SQLite cannot read the
/// text. In the compact text of an object it finds a string that needs no escapes as it is. Bytes
/// that are not UTF-8 are replaced. Memory is taken not to run out.
#[verifier::external_body]
pub(crate) fn json_extract(text: &str, path: &str) -> (result: Option<String>)
    requires
        plain_path(path@),
    ensures
        optional_text(result) == sqlite_extract(text@, path@),
        regular_member(text@, path@.skip(2), optional_text(result)),
{
    let connection = Connection::open_in_memory().expect("SQLite opens in memory");
    let found: Result<Option<Vec<u8>>, rusqlite::Error> = connection.query_row(
        "SELECT CAST(CAST(json_extract(?1, ?2) AS TEXT) AS BLOB)",
        [text, path],
        |row| row.get(0),
    );
    found.ok().flatten().map(|bytes| String::from_utf8_lossy(&bytes).into_owned())
}

/// SQLite's `json_tree`, asked over `rusqlite` on a database in memory, lists the keys of all values
/// of a document, by the text alone: the whole has none, an element its place in decimal, a member
/// its name. Of the compact text of a document the keys are places and names of its members. Bytes
/// that are not UTF-8 are replaced. The call fails only where memory runs out.
#[verifier::external_body]
pub(crate) fn json_tree(text: &str) -> (result: Vec<Option<String>>)
    requires
        byte_len(text@) <= MAX_SQLITE_TEXT_BYTES,
        sqlite_type(text@) is Some,
    ensures
        optional_texts(result@) == sqlite_keys(text@),
        regular_keys(text@, optional_texts(result@)),
{
    let connection = Connection::open_in_memory().expect("SQLite opens in memory");
    let mut statement = connection
        .prepare("SELECT CAST(CAST(key AS TEXT) AS BLOB) FROM json_tree(?1)")
        .expect("SQLite knows json_tree");
    let rows = statement
        .query_map([text], |row| row.get::<_, Option<Vec<u8>>>(0))
        .expect("SQLite lists keys");
    rows.map(|row| row.expect("SQLite reads a key"))
        .map(|key| key.map(|bytes| String::from_utf8_lossy(&bytes).into_owned()))
        .collect()
}

} // verus!
