use uuid::Uuid;
use vstd::prelude::*;

verus! {

/// The UUID that a text denotes, written in small letters with hyphens, or nothing if
/// `Uuid::parse_str` refuses the text.
pub uninterp spec fn uuid_text(text: Seq<char>) -> Option<Seq<char>>;

/// A text that is the canonical form of the UUID that it denotes.
pub open spec fn canonical_uuid(text: Seq<char>) -> bool {
    uuid_text(text) == Some(text)
}

/// 36 characters: hyphens that part eight, four, four, four and twelve hexadecimal digits, in small
/// letters.
pub open spec fn hyphenated(text: Seq<char>) -> bool {
    &&& text.len() == 36
    &&& forall|i: int|
        0 <= i < 36 ==> if i == 8 || i == 13 || i == 18 || i == 23 {
            #[trigger] text[i] == '-'
        } else {
            '0' <= text[i] <= '9' || 'a' <= text[i] <= 'f'
        }
}

/// `Uuid::parse_str` reads a UUID from the text alone, and `Uuid::hyphenated` writes it in the
/// form that `Uuid::parse_str` reads back as the same UUID.
#[verifier::external_body]
pub(crate) fn parse_uuid(text: &str) -> (result: Option<String>)
    ensures
        match result {
            Some(canonical) => {
                &&& uuid_text(text@) == Some(canonical@)
                &&& canonical_uuid(canonical@)
                &&& hyphenated(canonical@)
            },
            None => uuid_text(text@) is None,
        },
{
    Uuid::parse_str(text).ok().map(|uuid| uuid.hyphenated().to_string())
}

/// `Uuid::new_v4` draws a random UUID; its text is the canonical form, whatever was drawn.
#[verifier::external_body]
fn random_uuid() -> (result: String)
    ensures
        canonical_uuid(result@),
        hyphenated(result@),
{
    Uuid::new_v4().to_string()
}

/// Draws the id of a new record.
pub fn fresh_id() -> (result: String)
    ensures
        canonical_uuid(result@),
        hyphenated(result@),
{
    random_uuid()
}

/// Draws the ids of several new records.
pub fn fresh_ids(count: usize) -> (result: Vec<String>)
    ensures
        result@.len() == count,
        forall|i: int| 0 <= i < count ==> canonical_uuid((#[trigger] result@[i])@),
        forall|i: int| 0 <= i < count ==> hyphenated((#[trigger] result@[i])@),
{
    let mut ids: Vec<String> = Vec::new();
    let mut i: usize = 0;
    while i < count
        invariant
            i <= count,
            ids@.len() == i,
            forall|j: int| 0 <= j < i ==> canonical_uuid((#[trigger] ids@[j])@),
            forall|j: int| 0 <= j < i ==> hyphenated((#[trigger] ids@[j])@),
        decreases count - i,
    {
        ids.push(fresh_id());
        i = i + 1;
    }
    ids
}

} // verus!
