//! What list queries have in common.

use vstd::prelude::*;

use crate::text::{
    blank, byte_len, contains_key, law_occurrence_ignores_ascii_case,
    law_trim_removes_white_space_at_the_ends, like_pattern, occurrence_pattern, occurs,
    optional_holds, same_text, text_len, trim, trimmed, white_space,
};

verus! {

/// An optional text is longer than its bound.
pub open spec fn too_long(text: Option<String>, maximum: usize) -> bool {
    text matches Some(value) && byte_len(value@) > maximum
}

/// A text has the wanted value, if one is wanted.
pub open spec fn is_wanted(text: Option<String>, wanted: Option<String>) -> bool {
    wanted matches Some(value) ==> (text matches Some(found) && found@ == value@)
}

/// The key occurs in an optional text.
pub open spec fn occurs_in(key: Seq<char>, text: Option<String>) -> bool {
    match text {
        Some(value) => occurs(key, value@),
        None => occurs(key, Seq::empty()),
    }
}

/// The key that is searched for, without white space at its ends.
pub open spec fn wanted_key(search_key: Option<String>) -> Option<Seq<char>> {
    match search_key {
        Some(key) => if trimmed(key@).len() == 0 {
            None
        } else {
            Some(trimmed(key@))
        },
        None => None,
    }
}

/// Where a page begins.
pub open spec fn page_offset(page_no: u32, page_size: u32) -> int {
    (page_no - 1) * page_size
}

/// Tests whether an optional text is longer than its bound.
pub fn is_too_long(text: &Option<String>, maximum: usize) -> (result: bool)
    ensures
        result == too_long(*text, maximum),
{
    match text {
        Some(value) => text_len(value.as_str()) > maximum,
        None => false,
    }
}

/// Tests whether a text has the wanted value.
pub fn has_value(text: &Option<String>, wanted: &Option<String>) -> (result: bool)
    ensures
        result == is_wanted(*text, *wanted),
{
    match (wanted, text) {
        (None, _) => true,
        (Some(value), Some(found)) => same_text(found.as_str(), value.as_str()),
        (Some(_), None) => false,
    }
}

/// Tests whether a key occurs in an optional text.
pub fn holds_key(key: &str, text: &Option<String>) -> (result: bool)
    ensures
        result == occurs_in(key@, *text),
{
    match text {
        Some(value) => contains_key(value.as_str(), key),
        None => {
            proof {
                reveal_strlit("");
                assert(""@ =~= Seq::<char>::empty());
            }
            contains_key("", key)
        },
    }
}

/// Returns the key that is searched for.
pub fn trimmed_key(search_key: &Option<String>) -> (result: Option<&str>)
    ensures
        match result {
            Some(key) => wanted_key(*search_key) == Some(key@),
            None => wanted_key(*search_key) is None,
        },
{
    match search_key {
        Some(key) => {
            let key = trim(key.as_str());
            if key.is_empty() {
                None
            } else {
                Some(key)
            }
        },
        None => None,
    }
}

/// Returns the `LIKE` pattern by which the database can search for the key of a query.
pub fn search_pattern(search_key: &Option<String>) -> (result: Option<String>)
    ensures
        match result {
            Some(pattern) => wanted_key(*search_key) is Some && pattern@ == occurrence_pattern(
                wanted_key(*search_key)->0,
            ),
            None => wanted_key(*search_key) is None,
        },
{
    match trimmed_key(search_key) {
        Some(key) => Some(like_pattern(key)),
        None => None,
    }
}

/// Returns where a page begins.
pub fn first_of_page(page_no: u32, page_size: u32) -> (result: u64)
    requires
        page_no > 0,
    ensures
        result == page_offset(page_no, page_size),
{
    proof {
        assert((page_no - 1) * page_size <= 0xffff_ffff * 0xffff_ffff) by (nonlinear_arith)
            requires
                0 < page_no <= 0xffff_ffff,
                0 <= page_size <= 0xffff_ffff,
        ;
        assert((page_no - 1) * page_size >= 0) by (nonlinear_arith)
            requires
                0 < page_no,
                0 <= page_size,
        ;
    }
    (page_no - 1) as u64 * page_size as u64
}

/// What is searched for is the text of the search key between the white space at its ends; a key of
/// white space alone, like no key, searches for nothing.
pub proof fn law_search_key_is_trimmed(
    before: Seq<char>,
    key: Seq<char>,
    after: Seq<char>,
    search_key: Option<String>,
)
    requires
        blank(before),
        blank(after),
        key.len() > 0 ==> !white_space(key[0]) && !white_space(key.last()),
    ensures
        search_key is None ==> wanted_key(search_key) is None,
        search_key matches Some(text) ==> (text@ == before + key + after ==> wanted_key(search_key)
            == (if key.len() == 0 {
            None::<Seq<char>>
        } else {
            Some(key)
        })),
{
    law_trim_removes_white_space_at_the_ends(before, key, after);
}

/// The first page begins with the first record, and each page begins where the one before it ends.
pub proof fn law_pages_begin_where_others_end(page_no: u32, page_size: u32)
    ensures
        page_offset(1, page_size) == 0,
        0 < page_no < u32::MAX ==> page_offset((page_no + 1) as u32, page_size) == page_offset(
            page_no,
            page_size,
        ) + page_size,
{
    assert(0 * page_size == 0);
    if 0 < page_no < u32::MAX {
        assert(page_no * page_size == (page_no - 1) * page_size + page_size) by (nonlinear_arith);
    }
}

/// A key of one character or more occurs in an optional text exactly if there is a text that holds
/// it somewhere, but for the case of ASCII letters.
pub proof fn law_occurrence_needs_a_text(key: Seq<char>, text: Option<String>)
    requires
        key.len() > 0,
    ensures
        occurs_in(key, text) <==> optional_holds(text, key),
{
    match text {
        Some(value) => law_occurrence_ignores_ascii_case(key, value@),
        None => law_occurrence_ignores_ascii_case(key, Seq::empty()),
    }
}

/// Records that are kept by a test, in their order: one more record is kept at the end exactly if
/// it passes.
pub proof fn lemma_filter_of_longer<T>(records: Seq<T>, record: T, test: spec_fn(T) -> bool)
    ensures
        records.push(record).filter(test) == (if test(record) {
            records.filter(test).push(record)
        } else {
            records.filter(test)
        }),
        Seq::<T>::empty().filter(test).len() == 0,
{
    reveal(Seq::filter);
    assert(records.push(record).drop_last() =~= records);
}

} // verus!
