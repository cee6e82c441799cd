use vstd::prelude::*;
use vstd::utf8::encode_utf8;

verus! {

/// Whether a character has Unicode's `White_Space` property.
pub open spec fn white_space(c: char) -> bool {
    ||| '\u{9}' <= c <= '\u{d}'
    ||| c == ' '
    ||| c == '\u{85}'
    ||| c == '\u{a0}'
    ||| c == '\u{1680}'
    ||| '\u{2000}' <= c <= '\u{200a}'
    ||| c == '\u{2028}'
    ||| c == '\u{2029}'
    ||| c == '\u{202f}'
    ||| c == '\u{205f}'
    ||| c == '\u{3000}'
}

/// `char::is_whitespace` tells whether a character has the `White_Space` property of the Unicode
/// Character Database, whose twenty-five characters are the ones listed.
pub assume_specification[ char::is_whitespace ](c: char) -> (result: bool)
    ensures
        result == white_space(c),
;

/// Length in UTF-8 bytes.
pub open spec fn byte_len(text: Seq<char>) -> nat {
    encode_utf8(text).len()
}

/// A text has no more characters than bytes.
pub proof fn lemma_chars_within_bytes(text: Seq<char>)
    ensures
        text.len() <= byte_len(text),
    decreases text.len(),
{
    if text.len() > 0 {
        lemma_chars_within_bytes(text.drop_first());
    }
}

/// Whether nothing is left of the text once white space is trimmed.
pub open spec fn blank(text: Seq<char>) -> bool {
    forall|i: int| 0 <= i < text.len() ==> white_space(#[trigger] text[i])
}

/// Length in UTF-8 bytes of an optional text, zero when it is absent.
pub open spec fn optional_byte_len(text: Option<String>) -> nat {
    match text {
        Some(value) => byte_len(value@),
        None => 0,
    }
}

/// Length of a text in UTF-8 bytes.
pub fn text_len(text: &str) -> (result: usize)
    ensures
        result == byte_len(text@),
{
    text.as_bytes().len()
}

/// Tests whether `str::trim` would leave nothing of the text.
pub fn is_blank(text: &str) -> (result: bool)
    ensures
        result == blank(text@),
{
    for c in it: text.chars()
        invariant
            it.seq() == text@,
            forall|i: int| 0 <= i < it.index() ==> white_space(#[trigger] text@[i]),
    {
        if !c.is_whitespace() {
            return false;
        }
    }
    true
}

/// Tests whether a character occurs in the text.
pub fn contains_char(text: &str, wanted: char) -> (result: bool)
    ensures
        result == text@.contains(wanted),
{
    for c in it: text.chars()
        invariant
            it.seq() == text@,
            forall|i: int| 0 <= i < it.index() ==> #[trigger] text@[i] != wanted,
    {
        if c == wanted {
            assert(text@[it.index() as int] == wanted);
            return true;
        }
    }
    false
}

/// Tests whether two texts are the same.
pub fn same_text(left: &str, right: &str) -> (result: bool)
    ensures
        result == (left@ == right@),
{
    let a = left.as_bytes();
    let b = right.as_bytes();
    proof {
        vstd::utf8::encode_utf8_decode_utf8(left@);
        vstd::utf8::encode_utf8_decode_utf8(right@);
    }
    if a.len() != b.len() {
        return false;
    }
    let mut i: usize = 0;
    while i < a.len()
        invariant
            a@ == encode_utf8(left@),
            b@ == encode_utf8(right@),
            a@.len() == b@.len(),
            i <= a@.len(),
            forall|j: int| 0 <= j < i ==> a@[j] == b@[j],
        decreases a@.len() - i,
    {
        if a[i] != b[i] {
            return false;
        }
        i = i + 1;
    }
    assert(a@ =~= b@);
    true
}

/// Tests whether two optional texts are the same.
pub fn same_optional_text(left: &Option<String>, right: &Option<String>) -> (result: bool)
    ensures
        result == same_optional(*left, *right),
{
    match (left, right) {
        (None, None) => true,
        (Some(a), Some(b)) => same_text(a.as_str(), b.as_str()),
        _ => false,
    }
}

/// Both absent, or both present with the same characters.
pub open spec fn same_optional(left: Option<String>, right: Option<String>) -> bool {
    match (left, right) {
        (None, None) => true,
        (Some(a), Some(b)) => a@ == b@,
        _ => false,
    }
}

/// `String::push` appends one character.
pub assume_specification[ String::push ](text: &mut String, c: char)
    ensures
        final(text)@ == old(text)@.push(c),
;

/// An ASCII capital becomes the small letter; every other character stays.
pub open spec fn ascii_lower(c: char) -> char {
    if 'A' <= c && c <= 'Z' {
        ((c as u8 + 32) as u8) as char
    } else {
        c
    }
}

/// The text with its ASCII capitals made small.
pub open spec fn lowered(text: Seq<char>) -> Seq<char> {
    text.map_values(|c: char| ascii_lower(c))
}

/// Makes the ASCII capitals of a text small.
pub fn to_ascii_lower(text: &str) -> (result: String)
    ensures
        result@ == lowered(text@),
{
    let mut lower = String::new();
    for c in it: text.chars()
        invariant
            it.seq() == text@,
            lower@ == lowered(text@.take(it.index() as int)),
    {
        assert(text@.take(it.index() as int + 1) =~= text@.take(it.index() as int).push(c));
        assert(lowered(text@.take(it.index() as int + 1)) =~= lowered(
            text@.take(it.index() as int),
        ).push(ascii_lower(c)));
        let small: char = if 'A' <= c && c <= 'Z' {
            (c as u8 + 32) as char
        } else {
            c
        };
        lower.push(small);
    }
    assert(text@.take(text@.len() as int) =~= text@);
    lower
}

/// What follows a prefix.
pub fn strip_prefix<'a>(text: &'a str, prefix: &str) -> (result: Option<&'a str>)
    ensures
        match result {
            Some(rest) => prefix@.is_prefix_of(text@) && rest@ == text@.skip(prefix@.len() as int),
            None => !prefix@.is_prefix_of(text@),
        },
{
    let whole: usize = text.unicode_len();
    let length: usize = prefix.unicode_len();
    if whole < length {
        return None;
    }
    let head = text.substring_char(0, length);
    assert(head@ =~= text@.take(length as int));
    if !same_text(head, prefix) {
        return None;
    }
    let rest = text.substring_char(length, whole);
    assert(rest@ =~= text@.skip(length as int));
    Some(rest)
}

/// What precedes a suffix.
pub fn strip_suffix<'a>(text: &'a str, suffix: &str) -> (result: Option<&'a str>)
    ensures
        match result {
            Some(stem) => text@ == stem@ + suffix@,
            None => !suffix@.is_suffix_of(text@),
        },
{
    let whole: usize = text.unicode_len();
    let length: usize = suffix.unicode_len();
    if whole < length {
        return None;
    }
    let tail = text.substring_char(whole - length, whole);
    if !same_text(tail, suffix) {
        return None;
    }
    let stem = text.substring_char(0, whole - length);
    assert(text@ =~= stem@ + suffix@);
    Some(stem)
}

/// The text before the first occurrence of a character, or all of it.
pub open spec fn until(text: Seq<char>, stop: char) -> Seq<char>
    decreases text.len(),
{
    if text.len() == 0 || text[0] == stop {
        Seq::empty()
    } else {
        seq![text[0]] + until(text.drop_first(), stop)
    }
}

/// Copies the text before the first occurrence of a character.
pub fn take_until(text: &str, stop: char) -> (result: String)
    ensures
        result@ == until(text@, stop),
{
    let mut head = String::new();
    proof {
        assert(text@.skip(0) =~= text@);
        assert(head@ + until(text@, stop) =~= until(text@, stop));
    }
    for c in it: text.chars()
        invariant
            it.seq() == text@,
            until(text@, stop) == head@ + until(text@.skip(it.index() as int), stop),
    {
        let ghost rest = text@.skip(it.index() as int);
        proof {
            assert(rest[0] == c);
            assert(rest.drop_first() =~= text@.skip(it.index() as int + 1));
        }
        if c == stop {
            assert(head@ + until(rest, stop) =~= head@);
            return head;
        }
        let ghost before = head@;
        head.push(c);
        proof {
            assert(before + (seq![c] + until(rest.drop_first(), stop)) =~= head@ + until(
                rest.drop_first(),
                stop,
            ));
        }
    }
    proof {
        assert(text@.skip(text@.len() as int) =~= Seq::empty());
        assert(head@ + until(Seq::empty(), stop) =~= head@);
    }
    head
}

/// The last characters of a text, all of it if it has fewer.
pub open spec fn tail(text: Seq<char>, count: int) -> Seq<char> {
    if text.len() <= count {
        text
    } else {
        text.skip(text.len() - count)
    }
}

/// Copies the last characters of a text.
pub fn take_tail(text: &str, count: usize) -> (result: String)
    ensures
        result@ == tail(text@, count as int),
{
    let whole: usize = text.unicode_len();
    if whole <= count {
        return text.to_owned();
    }
    let end = text.substring_char(whole - count, whole);
    assert(end@ =~= text@.skip(whole - count));
    end.to_owned()
}

/// The text without the white space at both of its ends, as `str::trim` leaves it.
pub open spec fn trimmed(text: Seq<char>) -> Seq<char>
    decreases text.len(),
{
    if text.len() == 0 {
        text
    } else if white_space(text[0]) {
        trimmed(text.drop_first())
    } else if white_space(text.last()) {
        trimmed(text.drop_last())
    } else {
        text
    }
}

proof fn lemma_trimmed(text: Seq<char>, from: int, to: int)
    requires
        0 <= from <= to <= text.len(),
        forall|i: int| 0 <= i < from ==> white_space(#[trigger] text[i]),
        forall|i: int| to <= i < text.len() ==> white_space(#[trigger] text[i]),
        from < to ==> !white_space(text[from]) && !white_space(text[to - 1]),
        from == to ==> to == text.len(),
    ensures
        trimmed(text) == text.subrange(from, to),
    decreases text.len(),
{
    if from > 0 {
        let rest = text.drop_first();
        assert(white_space(text[0]));
        assert forall|i: int| 0 <= i < from - 1 implies white_space(#[trigger] rest[i]) by {
            assert(rest[i] == text[i + 1]);
        }
        assert forall|i: int| to - 1 <= i < rest.len() implies white_space(#[trigger] rest[i]) by {
            assert(rest[i] == text[i + 1]);
        }
        lemma_trimmed(rest, from - 1, to - 1);
        assert(rest.subrange(from - 1, to - 1) =~= text.subrange(from, to));
    } else if to < text.len() {
        let rest = text.drop_last();
        assert(white_space(text[text.len() - 1]));
        assert forall|i: int| to <= i < rest.len() implies white_space(#[trigger] rest[i]) by {
            assert(rest[i] == text[i]);
        }
        lemma_trimmed(rest, from, to);
        assert(rest.subrange(from, to) =~= text.subrange(from, to));
    } else {
        assert(text.subrange(from, to) =~= text);
    }
}

/// Trims the white space at both ends of a text.
pub fn trim(text: &str) -> (result: &str)
    ensures
        result@ == trimmed(text@),
{
    let mut from: usize = 0;
    let mut to: usize = 0;
    let mut at: usize = 0;
    let mut inside: bool = false;
    let whole: usize = text.unicode_len();
    for c in it: text.chars()
        invariant
            it.seq() == text@,
            at == it.index(),
            whole == text@.len(),
            from <= to <= at,
            !inside ==> to == from == at,
            inside ==> from < to && !white_space(text@[from as int]) && !white_space(
                text@[to - 1],
            ),
            forall|i: int| 0 <= i < from ==> white_space(#[trigger] text@[i]),
            forall|i: int| to <= i < at ==> white_space(#[trigger] text@[i]),
    {
        if c.is_whitespace() {
            at = at + 1;
            if !inside {
                from = at;
                to = at;
            }
        } else {
            at = at + 1;
            inside = true;
            to = at;
        }
    }
    proof {
        lemma_trimmed(text@, from as int, to as int);
    }
    text.substring_char(from, to)
}

/// A character that `LIKE` does not take for itself.
pub open spec fn like_special(c: char) -> bool {
    c == '%' || c == '_' || c == '\\'
}

/// The text with the special characters of `LIKE` escaped by a backslash.
pub open spec fn like_escaped(text: Seq<char>) -> Seq<char>
    decreases text.len(),
{
    if text.len() == 0 {
        Seq::empty()
    } else if like_special(text.last()) {
        like_escaped(text.drop_last()).push('\\').push(text.last())
    } else {
        like_escaped(text.drop_last()).push(text.last())
    }
}

/// The `LIKE` pattern of the texts in which a key occurs.
pub open spec fn occurrence_pattern(key: Seq<char>) -> Seq<char> {
    seq!['%'] + like_escaped(key) + seq!['%']
}

/// What the database's `LIKE` with a backslash as escape character matches: `%` any characters,
/// `_` any one character, and every other character itself, ASCII capitals and small letters alike.
pub open spec fn like(pattern: Seq<char>, text: Seq<char>) -> bool
    decreases pattern.len(), text.len(),
{
    if pattern.len() == 0 {
        text.len() == 0
    } else if pattern[0] == '%' {
        like(pattern.drop_first(), text) || (text.len() > 0 && like(pattern, text.drop_first()))
    } else if pattern[0] == '_' {
        text.len() > 0 && like(pattern.drop_first(), text.drop_first())
    } else if pattern[0] == '\\' && pattern.len() > 1 {
        text.len() > 0 && ascii_lower(pattern[1]) == ascii_lower(text[0]) && like(
            pattern.skip(2),
            text.drop_first(),
        )
    } else {
        text.len() > 0 && ascii_lower(pattern[0]) == ascii_lower(text[0]) && like(
            pattern.drop_first(),
            text.drop_first(),
        )
    }
}

/// The key occurs in the text at a position.
pub open spec fn occurs_at(key: Seq<char>, text: Seq<char>, at: int) -> bool {
    0 <= at && at + key.len() <= text.len() && text.subrange(at, at + key.len()) == key
}

/// The key occurs in the text, ASCII capitals and small letters being alike.
pub open spec fn occurs(key: Seq<char>, text: Seq<char>) -> bool {
    exists|at: int| occurs_at(lowered(key), lowered(text), at)
}

/// Builds the `LIKE` pattern of the texts in which a key occurs.
pub fn like_pattern(value: &str) -> (result: String)
    ensures
        result@ == occurrence_pattern(value@),
{
    let mut pattern = String::new();
    pattern.push('%');
    for c in it: value.chars()
        invariant
            it.seq() == value@,
            pattern@ == seq!['%'] + like_escaped(value@.take(it.index() as int)),
    {
        let ghost before = value@.take(it.index() as int);
        assert(value@.take(it.index() as int + 1).drop_last() =~= before);
        if c == '%' || c == '_' || c == '\\' {
            pattern.push('\\');
        }
        pattern.push(c);
        assert(pattern@ =~= seq!['%'] + like_escaped(value@.take(it.index() as int + 1)));
    }
    assert(value@.take(value@.len() as int) =~= value@);
    pattern.push('%');
    assert(pattern@ =~= occurrence_pattern(value@));
    pattern
}

fn lower_chars(text: &str) -> (result: Vec<char>)
    ensures
        result@ == lowered(text@),
{
    let mut chars: Vec<char> = Vec::new();
    for c in it: text.chars()
        invariant
            it.seq() == text@,
            chars@ == lowered(text@.take(it.index() as int)),
    {
        assert(text@.take(it.index() as int + 1) =~= text@.take(it.index() as int).push(c));
        assert(lowered(text@.take(it.index() as int + 1)) =~= lowered(
            text@.take(it.index() as int),
        ).push(ascii_lower(c)));
        let small: char = if 'A' <= c && c <= 'Z' {
            (c as u8 + 32) as char
        } else {
            c
        };
        chars.push(small);
    }
    assert(text@.take(text@.len() as int) =~= text@);
    chars
}

fn is_at(key: &Vec<char>, text: &Vec<char>, at: usize) -> (result: bool)
    requires
        at + key@.len() <= text@.len(),
    ensures
        result == occurs_at(key@, text@, at as int),
{
    let whole: usize = text.len();
    let mut i: usize = 0;
    while i < key.len()
        invariant
            i <= key@.len(),
            whole == text@.len(),
            at + key@.len() <= whole,
            forall|j: int| 0 <= j < i ==> key@[j] == #[trigger] text@[at + j],
        decreases key@.len() - i,
    {
        if key[i] != text[at + i] {
            assert(text@.subrange(at as int, at + key@.len())[i as int] != key@[i as int]);
            return false;
        }
        i = i + 1;
    }
    assert forall|j: int| 0 <= j < key@.len() implies text@.subrange(
        at as int,
        at + key@.len(),
    )[j] == key@[j] by {
        assert(key@[j] == text@[at + j]);
    }
    assert(text@.subrange(at as int, at + key@.len()) =~= key@);
    true
}

/// Tests whether a key occurs in a text, ASCII capitals and small letters being alike.
pub fn contains_key(text: &str, key: &str) -> (result: bool)
    ensures
        result == occurs(key@, text@),
{
    let small_key = lower_chars(key);
    let small = lower_chars(text);
    if small_key.len() > small.len() {
        return false;
    }
    let last: usize = small.len() - small_key.len();
    let mut at: usize = 0;
    loop
        invariant
            small_key@ == lowered(key@),
            small@ == lowered(text@),
            last == small@.len() - small_key@.len(),
            at <= last,
            forall|j: int| 0 <= j < at ==> !occurs_at(small_key@, small@, j),
        decreases last - at,
    {
        if is_at(&small_key, &small, at) {
            return true;
        }
        if at == last {
            return false;
        }
        at = at + 1;
    }
}

proof fn lemma_like_rest(text: Seq<char>)
    ensures
        like(seq!['%'], text),
    decreases text.len(),
{
    let any = seq!['%'];
    assert(any.drop_first() =~= Seq::empty());
    if text.len() == 0 {
        assert(like(any.drop_first(), text));
    } else {
        lemma_like_rest(text.drop_first());
    }
}

/// The escaped text, taken from the front.
proof fn lemma_like_escaped_front(key: Seq<char>)
    requires
        key.len() > 0,
    ensures
        like_escaped(key) == (if like_special(key[0]) {
            seq!['\\', key[0]]
        } else {
            seq![key[0]]
        }) + like_escaped(key.drop_first()),
    decreases key.len(),
{
    let head = if like_special(key[0]) {
        seq!['\\', key[0]]
    } else {
        seq![key[0]]
    };
    if key.len() == 1 {
        assert(key.drop_last() =~= Seq::empty());
        assert(key.drop_first() =~= Seq::empty());
        assert(like_escaped(key) =~= head + like_escaped(key.drop_first()));
    } else {
        lemma_like_escaped_front(key.drop_last());
        assert(key.drop_last().drop_first() =~= key.drop_first().drop_last());
        assert(key.drop_first().last() == key.last());
        assert(like_escaped(key) =~= head + like_escaped(key.drop_first()));
    }
}

proof fn lemma_like_prefix(key: Seq<char>, text: Seq<char>)
    ensures
        like(like_escaped(key) + seq!['%'], text) == occurs_at(lowered(key), lowered(text), 0),
    decreases key.len(),
{
    let pattern = like_escaped(key) + seq!['%'];
    if key.len() == 0 {
        assert(pattern =~= seq!['%']);
        lemma_like_rest(text);
        assert(lowered(text).subrange(0, 0) =~= lowered(key));
    } else {
        let rest = key.drop_first();
        let tail = like_escaped(rest) + seq!['%'];
        lemma_like_escaped_front(key);
        if like_special(key[0]) {
            assert(pattern =~= seq!['\\', key[0]] + tail);
            assert(pattern.skip(2) =~= tail);
        } else {
            assert(pattern =~= seq![key[0]] + tail);
            assert(pattern.drop_first() =~= tail);
        }
        if text.len() > 0 {
            let after = text.drop_first();
            lemma_like_prefix(rest, after);
            let small_key = lowered(key);
            let small = lowered(text);
            if occurs_at(small_key, small, 0) {
                assert(small.subrange(0, small_key.len() as int)[0] == small_key[0]);
                assert(lowered(after).subrange(0, lowered(rest).len() as int) =~= lowered(rest))
                    by {
                    assert forall|i: int| 0 <= i < rest.len() implies lowered(after)[i] == lowered(
                        rest,
                    )[i] by {
                        assert(small.subrange(0, small_key.len() as int)[i + 1] == small_key[i + 1]);
                    }
                }
            }
            if ascii_lower(key[0]) == ascii_lower(text[0]) && occurs_at(
                lowered(rest),
                lowered(after),
                0,
            ) {
                assert forall|i: int| 0 <= i < key.len() implies small[i] == small_key[i] by {
                    if i > 0 {
                        assert(lowered(after).subrange(0, rest.len() as int)[i - 1] == lowered(
                            rest,
                        )[i - 1]);
                    }
                }
                assert(small.subrange(0, small_key.len() as int) =~= small_key);
            }
        }
    }
}

/// The pattern of a key matches exactly the texts in which the key occurs: nothing in the key
/// stands for anything but itself.
pub proof fn law_like_pattern_is_literal(key: Seq<char>, text: Seq<char>)
    ensures
        like(occurrence_pattern(key), text) == occurs(key, text),
    decreases text.len(),
{
    let pattern = occurrence_pattern(key);
    let after = like_escaped(key) + seq!['%'];
    assert(pattern.drop_first() =~= after);
    lemma_like_prefix(key, text);
    let small_key = lowered(key);
    let small = lowered(text);
    if text.len() > 0 {
        let rest = text.drop_first();
        law_like_pattern_is_literal(key, rest);
        assert(lowered(rest) =~= small.drop_first());
        if occurs(key, rest) {
            let at = choose|at: int| occurs_at(small_key, lowered(rest), at);
            assert(small.subrange(at + 1, at + 1 + small_key.len()) =~= lowered(rest).subrange(
                at,
                at + small_key.len(),
            ));
            assert(occurs_at(small_key, small, at + 1));
        }
        if occurs(key, text) && !occurs_at(small_key, small, 0) {
            let at = choose|at: int| occurs_at(small_key, small, at);
            assert(small.subrange(at, at + small_key.len()) =~= lowered(rest).subrange(
                at - 1,
                at - 1 + small_key.len(),
            ));
            assert(occurs_at(small_key, lowered(rest), at - 1));
        }
    } else if occurs(key, text) {
        let at = choose|at: int| occurs_at(small_key, small, at);
        assert(at == 0);
    }
}

/// A text stands before another one in the order of their characters.
pub open spec fn text_precedes(left: Seq<char>, right: Seq<char>) -> bool
    decreases left.len(),
{
    if right.len() == 0 {
        false
    } else if left.len() == 0 {
        true
    } else {
        left[0] < right[0] || (left[0] == right[0] && text_precedes(
            left.drop_first(),
            right.drop_first(),
        ))
    }
}

/// The order of texts is transitive.
pub proof fn lemma_text_order_is_transitive(a: Seq<char>, b: Seq<char>, c: Seq<char>)
    requires
        text_precedes(a, b),
        text_precedes(b, c),
    ensures
        text_precedes(a, c),
    decreases a.len(),
{
    if a.len() > 0 && a[0] == b[0] && b[0] == c[0] {
        lemma_text_order_is_transitive(a.drop_first(), b.drop_first(), c.drop_first());
    }
}

fn to_chars(text: &str) -> (result: Vec<char>)
    ensures
        result@ == text@,
{
    let mut chars: Vec<char> = Vec::new();
    for c in it: text.chars()
        invariant
            it.seq() == text@,
            chars@ == text@.take(it.index() as int),
    {
        assert(text@.take(it.index() as int + 1) =~= text@.take(it.index() as int).push(c));
        chars.push(c);
    }
    assert(text@.take(text@.len() as int) =~= text@);
    chars
}

/// Tests whether a text stands before another one.
pub fn is_text_before(left: &str, right: &str) -> (result: bool)
    ensures
        result == text_precedes(left@, right@),
{
    let a = to_chars(left);
    let b = to_chars(right);
    let mut i: usize = 0;
    proof {
        assert(a@.skip(0) =~= a@);
        assert(b@.skip(0) =~= b@);
    }
    loop
        invariant
            a@ == left@,
            b@ == right@,
            i <= a@.len(),
            i <= b@.len(),
            text_precedes(left@, right@) == text_precedes(a@.skip(i as int), b@.skip(i as int)),
        decreases a@.len() - i,
    {
        proof {
            assert(i < a@.len() ==> a@.skip(i as int).drop_first() =~= a@.skip(i + 1));
            assert(i < b@.len() ==> b@.skip(i as int).drop_first() =~= b@.skip(i + 1));
        }
        if i == b.len() {
            return false;
        }
        if i == a.len() {
            return true;
        }
        if a[i] != b[i] {
            return a[i] < b[i];
        }
        i = i + 1;
    }
}

/// Two characters are the same but for the case of an ASCII letter.
pub open spec fn alike(left: char, right: char) -> bool {
    ||| left == right
    ||| 'A' <= left <= 'Z' && right as int == left as int + 32
    ||| 'A' <= right <= 'Z' && left as int == right as int + 32
}

/// The text holds the key at a position, but for the case of ASCII letters.
pub open spec fn holds_at(text: Seq<char>, key: Seq<char>, at: int) -> bool {
    &&& 0 <= at
    &&& at + key.len() <= text.len()
    &&& forall|i: int| 0 <= i < key.len() ==> alike(#[trigger] key[i], text[at + i])
}

/// The text holds the key somewhere, but for the case of ASCII letters.
pub open spec fn text_holds(text: Seq<char>, key: Seq<char>) -> bool {
    exists|at: int| #[trigger] holds_at(text, key, at)
}

/// There is a text, and it holds the key somewhere, but for the case of ASCII letters.
pub open spec fn optional_holds(text: Option<String>, key: Seq<char>) -> bool {
    text matches Some(value) && text_holds(value@, key)
}

proof fn lemma_lower(c: char)
    ensures
        'A' <= c <= 'Z' ==> ascii_lower(c) as int == c as int + 32,
        !('A' <= c <= 'Z') ==> ascii_lower(c) == c,
{
    if 'A' <= c <= 'Z' {
        let code: u8 = c as u8;
        assert(code == c as int);
        assert(ascii_lower(c) as int == code + 32);
    }
}

proof fn lemma_alike(left: char, right: char)
    ensures
        alike(left, right) <==> ascii_lower(left) == ascii_lower(right),
{
    lemma_lower(left);
    lemma_lower(right);
    assert(ascii_lower(left) as int == ascii_lower(right) as int <==> ascii_lower(left)
        == ascii_lower(right));
}

/// A key occurs in a text exactly if the text holds it somewhere, but for the case of ASCII letters.
pub proof fn law_occurrence_ignores_ascii_case(key: Seq<char>, text: Seq<char>)
    ensures
        occurs(key, text) <==> text_holds(text, key),
{
    assert forall|at: int| #[trigger] holds_at(text, key, at) implies occurs(key, text) by {
        let part = lowered(text).subrange(at, at + key.len());
        assert forall|i: int| 0 <= i < key.len() implies part[i] == lowered(key)[i] by {
            assert(alike(key[i], text[at + i]));
            lemma_alike(key[i], text[at + i]);
        }
        assert(part =~= lowered(key));
        assert(occurs_at(lowered(key), lowered(text), at));
    }
    if occurs(key, text) {
        let at = choose|at: int| occurs_at(lowered(key), lowered(text), at);
        let part = lowered(text).subrange(at, at + key.len());
        assert forall|i: int| 0 <= i < key.len() implies alike(#[trigger] key[i], text[at + i]) by {
            assert(part[i] == lowered(text)[at + i]);
            assert(part[i] == lowered(key)[i]);
            lemma_alike(key[i], text[at + i]);
        }
        assert(holds_at(text, key, at));
    }
}

/// Making ASCII capitals small leaves every text alike and no capital in it.
pub proof fn law_lowered_text_has_no_capital(text: Seq<char>)
    ensures
        lowered(text).len() == text.len(),
        forall|i: int|
            0 <= i < text.len() ==> alike(#[trigger] lowered(text)[i], text[i]) && !('A'
                <= lowered(text)[i] <= 'Z'),
{
    assert forall|i: int| 0 <= i < text.len() implies alike(#[trigger] lowered(text)[i], text[i])
        && !('A' <= lowered(text)[i] <= 'Z') by {
        lemma_lower(text[i]);
    }
}

/// A text without white space at its ends is what trimming leaves of it between white space.
pub proof fn law_trim_removes_white_space_at_the_ends(
    before: Seq<char>,
    text: Seq<char>,
    after: Seq<char>,
)
    requires
        blank(before),
        blank(after),
        text.len() > 0 ==> !white_space(text[0]) && !white_space(text.last()),
    ensures
        trimmed(before + text + after) == text,
    decreases before.len() + after.len(),
{
    let whole = before + text + after;
    if before.len() > 0 {
        assert(white_space(before[0]));
        assert(whole[0] == before[0]);
        assert(whole.drop_first() =~= before.drop_first() + text + after);
        assert forall|i: int| 0 <= i < before.drop_first().len() implies white_space(
            #[trigger] before.drop_first()[i],
        ) by {
            assert(before.drop_first()[i] == before[i + 1]);
        }
        law_trim_removes_white_space_at_the_ends(before.drop_first(), text, after);
    } else if after.len() > 0 {
        if text.len() == 0 {
            assert(white_space(after[0]));
            assert(whole =~= after);
            assert(whole.drop_first() =~= before + text + after.drop_first());
            assert forall|i: int| 0 <= i < after.drop_first().len() implies white_space(
                #[trigger] after.drop_first()[i],
            ) by {
                assert(after.drop_first()[i] == after[i + 1]);
            }
            law_trim_removes_white_space_at_the_ends(before, text, after.drop_first());
        } else {
            assert(white_space(after[after.len() - 1]));
            assert(whole[0] == text[0]);
            assert(whole.last() == after[after.len() - 1]);
            assert(whole.drop_last() =~= before + text + after.drop_last());
            assert forall|i: int| 0 <= i < after.drop_last().len() implies white_space(
                #[trigger] after.drop_last()[i],
            ) by {
                assert(after.drop_last()[i] == after[i]);
            }
            law_trim_removes_white_space_at_the_ends(before, text, after.drop_last());
        }
    } else {
        assert(whole =~= text);
    }
}

/// The length of a text is the number of bytes of its UTF-8 form.
pub proof fn law_length_counts_utf8_bytes(text: Seq<char>)
    ensures
        byte_len(text) == encode_utf8(text).len(),
        blank(text) <==> forall|c: char| text.contains(c) ==> white_space(c),
{
    assert forall|c: char| blank(text) && text.contains(c) implies white_space(c) by {
        let i = choose|i: int| 0 <= i < text.len() && text[i] == c;
        assert(white_space(text[i]));
    }
    assert forall|i: int|
        (forall|c: char| text.contains(c) ==> white_space(c)) && 0 <= i
            < text.len() implies white_space(#[trigger] text[i]) by {
        assert(text.contains(text[i]));
    }
}

/// A text stands before another one exactly if it is a proper beginning of it, or if at the first
/// place where they differ its character is the lesser one.
pub proof fn law_text_order_is_lexicographic(left: Seq<char>, right: Seq<char>)
    ensures
        text_precedes(left, right) <==> exists|at: int|
            {
                &&& 0 <= at <= left.len()
                &&& at < right.len()
                &&& #[trigger] left.take(at) == right.take(at)
                &&& at == left.len() || left[at] < right[at]
            },
    decreases left.len(),
{
    if right.len() > 0 && left.len() > 0 {
        let l = left.drop_first();
        let r = right.drop_first();
        law_text_order_is_lexicographic(l, r);
        if left[0] < right[0] {
            assert(left.take(0) =~= right.take(0));
        } else if text_precedes(left, right) {
            let at = choose|at: int|
                {
                    &&& 0 <= at <= l.len()
                    &&& at < r.len()
                    &&& #[trigger] l.take(at) == r.take(at)
                    &&& at == l.len() || l[at] < r[at]
                };
            assert(left.take(at + 1) =~= seq![left[0]] + l.take(at));
            assert(right.take(at + 1) =~= seq![right[0]] + r.take(at));
        }
        assert forall|at: int|
            0 <= at <= left.len() && at < right.len() && #[trigger] left.take(at) == right.take(at)
                && (at == left.len() || left[at] < right[at]) implies text_precedes(left, right) by {
            if at > 0 {
                assert(left.take(at)[0] == right.take(at)[0]);
                assert(l.take(at - 1) =~= left.take(at).drop_first());
                assert(r.take(at - 1) =~= right.take(at).drop_first());
            }
        }
    } else if right.len() > 0 {
        assert(left.take(0) =~= right.take(0));
    }
}

/// The end of a text is its last characters, or all of it where it has no more than were asked for.
pub proof fn law_tail_is_the_end(text: Seq<char>, count: int)
    requires
        0 <= count,
    ensures
        text.len() <= count ==> tail(text, count) == text,
        text.len() > count ==> tail(text, count).len() == count && forall|i: int|
            0 <= i < count ==> #[trigger] tail(text, count)[i] == text[text.len() - count + i],
{
}

} // verus!
