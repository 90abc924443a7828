//! The places where `serde_json` does the work: splitting an object into its
//! members, reading a member's value as a string or as a list of strings, and
//! writing a string as a JSON literal.

use vstd::prelude::*;

verus! {

/// The lower-case hexadecimal digit for a value below sixteen.
pub open spec fn hex_digit(value: int) -> char {
    seq!['0', '1', '2', '3', '4', '5', '6', '7', '8', '9', 'a', 'b', 'c', 'd', 'e', 'f'][value]
}

/// How one character stands inside a JSON string literal: the quote, the
/// backslash and the control characters below U+0020 are escaped, the five
/// with a short escape by it and the others by their code; every other
/// character stands for itself.
pub open spec fn escape(c: char) -> Seq<char> {
    if c == '"' {
        seq!['\\', '"']
    } else if c == '\\' {
        seq!['\\', '\\']
    } else if c == '\u{8}' {
        seq!['\\', 'b']
    } else if c == '\u{c}' {
        seq!['\\', 'f']
    } else if c == '\n' {
        seq!['\\', 'n']
    } else if c == '\r' {
        seq!['\\', 'r']
    } else if c == '\t' {
        seq!['\\', 't']
    } else if (c as int) < 0x20 {
        seq!['\\', 'u', '0', '0', hex_digit(c as int / 16), hex_digit(c as int % 16)]
    } else {
        seq![c]
    }
}

/// The characters of a text, each as it stands inside a JSON string literal.
pub open spec fn escaped(text: Seq<char>) -> Seq<char>
    decreases text.len(),
{
    if text.len() == 0 {
        Seq::empty()
    } else {
        escape(text[0]) + escaped(text.drop_first())
    }
}

/// A text as a JSON string literal: its escaped characters between two
/// quotes.
pub open spec fn json_string_literal(text: Seq<char>) -> Seq<char> {
    seq!['"'] + escaped(text) + seq!['"']
}

/// Two texts that begin alike end alike, where taken together they are the
/// same text.
pub proof fn lemma_cancel_prefix(prefix: Seq<char>, first: Seq<char>, second: Seq<char>)
    requires
        prefix + first == prefix + second,
    ensures
        first == second,
{
    assert(first =~= (prefix + first).subrange(prefix.len() as int, (prefix + first).len() as int));
    assert(second =~= (prefix + second).subrange(
        prefix.len() as int,
        (prefix + second).len() as int,
    ));
}

/// Different values below sixteen have different hexadecimal digits.
proof fn lemma_hex_digits_differ(first: int, second: int)
    requires
        0 <= first < 16,
        0 <= second < 16,
        hex_digit(first) == hex_digit(second),
    ensures
        first == second,
{
}

/// An escape is read back from the front of a text: whatever follows, the
/// text tells which character was escaped and where its escape ends. No
/// escape begins with a quote.
pub proof fn lemma_escape_is_read_back(
    first: char,
    second: char,
    after_first: Seq<char>,
    after_second: Seq<char>,
)
    requires
        escape(first) + after_first == escape(second) + after_second,
    ensures
        first == second,
        after_first == after_second,
        escape(first).len() > 0,
        escape(first)[0] != '"',
{
    let one = escape(first);
    let two = escape(second);
    let whole = one + after_first;
    assert(whole == two + after_second);
    assert(whole[0] == one[0] && whole[0] == two[0]);
    if one.len() >= 2 {
        assert(whole[1] == one[1]);
    }
    if two.len() >= 2 {
        assert(whole[1] == two[1]);
    }
    if one.len() == 6 && two.len() == 6 {
        assert(whole[4] == one[4] && whole[4] == two[4]);
        assert(whole[5] == one[5] && whole[5] == two[5]);
        lemma_hex_digits_differ(first as int / 16, second as int / 16);
        lemma_hex_digits_differ(first as int % 16, second as int % 16);
        assert(first as int == second as int);
    }
    assert(first == second);
    lemma_cancel_prefix(one, after_first, after_second);
}

/// The escaped characters of a text end at the first quote: from a text that
/// holds them, a quote and anything after it, the characters and what comes
/// after the quote are read back.
pub proof fn lemma_escaped_is_read_back(
    first: Seq<char>,
    second: Seq<char>,
    after_first: Seq<char>,
    after_second: Seq<char>,
)
    requires
        escaped(first) + seq!['"'] + after_first == escaped(second) + seq!['"'] + after_second,
    ensures
        first == second,
        after_first == after_second,
    decreases first.len(),
{
    let quote = seq!['"'];
    let left = escaped(first) + quote + after_first;
    let right = escaped(second) + quote + after_second;
    if first.len() == 0 && second.len() == 0 {
        assert(first =~= second);
        assert(left =~= quote + after_first);
        assert(right =~= quote + after_second);
        lemma_cancel_prefix(quote, after_first, after_second);
    } else if first.len() == 0 {
        let tail = escaped(second.drop_first()) + quote + after_second;
        assert(right =~= escape(second[0]) + tail);
        lemma_escape_is_read_back(second[0], second[0], tail, tail);
        assert(left[0] == '"');
        assert(right[0] == escape(second[0])[0]);
    } else if second.len() == 0 {
        let tail = escaped(first.drop_first()) + quote + after_first;
        assert(left =~= escape(first[0]) + tail);
        lemma_escape_is_read_back(first[0], first[0], tail, tail);
        assert(right[0] == '"');
        assert(left[0] == escape(first[0])[0]);
    } else {
        let first_tail = escaped(first.drop_first()) + quote + after_first;
        let second_tail = escaped(second.drop_first()) + quote + after_second;
        assert(left =~= escape(first[0]) + first_tail);
        assert(right =~= escape(second[0]) + second_tail);
        lemma_escape_is_read_back(first[0], second[0], first_tail, second_tail);
        lemma_escaped_is_read_back(
            first.drop_first(),
            second.drop_first(),
            after_first,
            after_second,
        );
        assert(first =~= seq![first[0]] + first.drop_first());
        assert(second =~= seq![second[0]] + second.drop_first());
    }
}

/// A string literal is read back from the front of a text: whatever follows
/// it, the text tells which string was written and where its literal ends.
pub proof fn lemma_literal_is_read_back(
    first: Seq<char>,
    second: Seq<char>,
    after_first: Seq<char>,
    after_second: Seq<char>,
)
    requires
        json_string_literal(first) + after_first == json_string_literal(second) + after_second,
    ensures
        first == second,
        after_first == after_second,
{
    let quote = seq!['"'];
    let left = escaped(first) + quote + after_first;
    let right = escaped(second) + quote + after_second;
    assert(json_string_literal(first) + after_first =~= quote + left);
    assert(json_string_literal(second) + after_second =~= quote + right);
    lemma_cancel_prefix(quote, left, right);
    lemma_escaped_is_read_back(first, second, after_first, after_second);
}

/// What `serde_json::from_str` makes of a text read as an object of raw
/// members: each key with the text of its value as it stands in the
/// document, or the parser's description of why the text is no object. The
/// values are checked for their syntax only.
pub uninterp spec fn json_members(text: Seq<char>) -> Result<
    Seq<(Seq<char>, Seq<char>)>,
    Seq<char>,
>;

/// The members of an object as pairs of texts.
pub open spec fn raw_members_view(members: Seq<(String, String)>) -> Seq<(Seq<char>, Seq<char>)> {
    members.map_values(|m: (String, String)| (m.0@, m.1@))
}

/// The result of splitting as a mathematical value.
pub open spec fn split_view(split: Result<Vec<(String, String)>, String>) -> Result<
    Seq<(Seq<char>, Seq<char>)>,
    Seq<char>,
> {
    match split {
        Ok(members) => Ok(raw_members_view(members@)),
        Err(message) => Err(message@),
    }
}

/// Splits a JSON object into its members with `serde_json::from_str`, read as
/// a map from keys to `RawValue`s: each key comes with the text of its value,
/// which the parser has checked for syntax and not read; a text that is no
/// object gives the parser's own message. The outcome depends on the text
/// alone and is known to the proofs only under the name [`json_members`].
#[verifier::external_body]
pub(crate) fn split_members(text: &str) -> (split: Result<Vec<(String, String)>, String>)
    ensures
        split_view(split) == json_members(text@),
{
    match serde_json::from_str::<
        std::collections::BTreeMap<String, Box<serde_json::value::RawValue>>,
    >(text) {
        Ok(members) => Ok(members.into_iter().map(|(k, v)| (k, v.get().to_string())).collect()),
        Err(e) => Err(e.to_string()),
    }
}

/// What `serde_json::from_str` makes of a text read as a string: the string
/// that the text writes, or the parser's description of why it writes none.
pub uninterp spec fn json_text(text: Seq<char>) -> Result<Seq<char>, Seq<char>>;

/// What `serde_json::from_str` makes of a text read as a list of strings: the
/// strings in their order, or the parser's description of why the text is no
/// such list.
pub uninterp spec fn json_text_list(text: Seq<char>) -> Result<Seq<Seq<char>>, Seq<char>>;

/// The result of reading a string as a mathematical value.
pub open spec fn text_result_view(parsed: Result<String, String>) -> Result<Seq<char>, Seq<char>> {
    match parsed {
        Ok(text) => Ok(text@),
        Err(message) => Err(message@),
    }
}

/// The result of reading a list of strings as a mathematical value.
pub open spec fn list_result_view(parsed: Result<Vec<String>, String>) -> Result<
    Seq<Seq<char>>,
    Seq<char>,
> {
    match parsed {
        Ok(list) => Ok(list@.map_values(|s: String| s@)),
        Err(message) => Err(message@),
    }
}

/// Reads `text` as one JSON string with `serde_json::from_str::<String>`; any
/// other text gives the parser's own message. The outcome depends on the text
/// alone and is known to the proofs only under the name [`json_text`].
#[verifier::external_body]
pub(crate) fn parse_text(text: &str) -> (parsed: Result<String, String>)
    ensures
        text_result_view(parsed) == json_text(text@),
{
    match serde_json::from_str::<String>(text) {
        Ok(value) => Ok(value),
        Err(e) => Err(e.to_string()),
    }
}

/// Reads `text` as a JSON list of strings with
/// `serde_json::from_str::<Vec<String>>`; any other text gives the parser's
/// own message. The outcome depends on the text alone and is known to the
/// proofs only under the name [`json_text_list`].
#[verifier::external_body]
pub(crate) fn parse_text_list(text: &str) -> (parsed: Result<Vec<String>, String>)
    ensures
        list_result_view(parsed) == json_text_list(text@),
{
    match serde_json::from_str::<Vec<String>>(text) {
        Ok(value) => Ok(value),
        Err(e) => Err(e.to_string()),
    }
}

/// Writes `text` as a JSON string literal with `serde_json::to_string`. The
/// contract states what the serializer's compact formatter writes for a
/// string: a quote, each character as [`escape`] has it, and a quote. Writing
/// a string into memory cannot fail, so the fallback to an empty text is
/// never taken.
#[verifier::external_body]
pub(crate) fn quote(text: &str) -> (literal: String)
    ensures
        literal@ == json_string_literal(text@),
{
    serde_json::to_string(text).unwrap_or_default()
}

/// The value of the first member whose key is `key`.
pub open spec fn member(members: Seq<(Seq<char>, Seq<char>)>, key: Seq<char>) -> Option<Seq<char>>
    decreases members.len(),
{
    if members.len() == 0 {
        None
    } else if members[0].0 == key {
        Some(members[0].1)
    } else {
        member(members.drop_first(), key)
    }
}

/// Looks up the value of a member by its key.
pub fn find_member<'a>(members: &'a Vec<(String, String)>, key: &str) -> (found: Option<&'a str>)
    ensures
        match found {
            Some(value) => member(raw_members_view(members@), key@) == Some(value@),
            None => member(raw_members_view(members@), key@) is None,
        },
{
    let wanted = String::from_str(key);
    let ghost all = raw_members_view(members@);
    let mut i: usize = 0;
    assert(all.skip(0) =~= all);
    while i < members.len()
        invariant
            i <= members.len(),
            wanted@ == key@,
            all == raw_members_view(members@),
            member(all, key@) == member(all.skip(i as int), key@),
        decreases members.len() - i,
    {
        assert(all.skip(i as int)[0] == all[i as int]);
        if members[i].0 == wanted {
            return Some(members[i].1.as_str());
        }
        assert(all.skip(i as int).drop_first() =~= all.skip(i + 1));
        i = i + 1;
    }
    assert(all.skip(i as int).len() == 0);
    None
}

} // verus!
