//! Text primitives: what a cell's text is, and how it is cut.
//!
//! A cell's text is the concatenation of the text nodes below it. An
//! identifier is the last of the words of a label, and one field is stripped
//! of the whitespace around it.
//!
//! Whitespace is what the standard library takes for it. Which ASCII
//! characters that is stands here; for the others the library's answer is
//! taken as it comes.

use vstd::prelude::*;

verus! {

/// The view of each of a list of string slices.
pub open spec fn slice_views(parts: Seq<&str>) -> Seq<Seq<char>> {
    parts.map_values(|part: &str| part@)
}

/// The fragments laid end to end, in order, with nothing between them.
pub open spec fn joined(parts: Seq<Seq<char>>) -> Seq<char>
    decreases parts.len(),
{
    if parts.len() == 0 {
        Seq::empty()
    } else {
        joined(parts.drop_last()) + parts.last()
    }
}

/// Where the last word of a text begins: just behind its last space, or at
/// its start where it holds no space.
pub open spec fn token_start(text: Seq<char>) -> int
    decreases text.len(),
{
    if text.len() == 0 {
        0
    } else if text.last() == ' ' {
        text.len() as int
    } else {
        token_start(text.drop_last())
    }
}

/// What is left of a text behind its last space: the whole text where it holds
/// no space, nothing where it ends in one.
pub open spec fn last_token(text: Seq<char>) -> Seq<char> {
    text.subrange(token_start(text), text.len() as int)
}

/// What `char::is_whitespace` of the standard library answers for a
/// character: whether it has the Unicode property `White_Space`.
pub uninterp spec fn has_white_space_property(c: char) -> bool;

/// Whether an ASCII character is whitespace: the space, and the five
/// controls from the horizontal tab to the carriage return.
pub open spec fn is_ascii_white_space(c: char) -> bool {
    c == ' ' || '\t' <= c <= '\r'
}

/// Whether a character is whitespace. For an ASCII character the answer is
/// written out; beyond ASCII it is the standard library's.
pub open spec fn is_white_space(c: char) -> bool {
    if c <= '\x7f' {
        is_ascii_white_space(c)
    } else {
        has_white_space_property(c)
    }
}

/// `char::is_whitespace`: the answer depends on the character alone. Of the
/// ASCII characters it is true exactly for the space and for the controls
/// from the horizontal tab to the carriage return. Which characters beyond
/// ASCII are whitespace follows the Unicode database and is not stated.
pub assume_specification[ char::is_whitespace ](c: char) -> (b: bool)
    ensures
        b == has_white_space_property(c),
        c <= '\x7f' ==> b == is_ascii_white_space(c),
;

/// The number of whitespace characters at the start of a text.
pub open spec fn leading_space(text: Seq<char>) -> int
    decreases text.len(),
{
    if text.len() == 0 || !is_white_space(text.first()) {
        0
    } else {
        1 + leading_space(text.drop_first())
    }
}

/// The length of a text without the whitespace characters at its end.
pub open spec fn trimmed_end(text: Seq<char>) -> int
    decreases text.len(),
{
    if text.len() == 0 || !is_white_space(text.last()) {
        text.len() as int
    } else {
        trimmed_end(text.drop_last())
    }
}

/// A text without the whitespace before its first and behind its last
/// character that is none. A text of whitespace alone leaves nothing.
pub open spec fn trimmed(text: Seq<char>) -> Seq<char> {
    if leading_space(text) >= trimmed_end(text) {
        Seq::empty()
    } else {
        text.subrange(leading_space(text), trimmed_end(text))
    }
}

/// The last word starts inside the text, holds no space, and is preceded by
/// a space unless it is the whole text.
pub proof fn lemma_token_start(text: Seq<char>)
    ensures
        0 <= token_start(text) <= text.len(),
        forall|i: int| token_start(text) <= i < text.len() ==> text[i] != ' ',
        token_start(text) > 0 ==> text[token_start(text) - 1] == ' ',
    decreases text.len(),
{
    if text.len() > 0 && text.last() != ' ' {
        let front = text.drop_last();
        lemma_token_start(front);
        assert forall|i: int| token_start(text) <= i < text.len() implies text[i] != ' ' by {
            if i < front.len() {
                assert(text[i] == front[i]);
            }
        }
    }
}

/// A position behind which no space follows, and which is preceded by a
/// space or is the start, is where the last word begins.
pub proof fn lemma_token_start_is(text: Seq<char>, start: int)
    requires
        0 <= start <= text.len(),
        forall|i: int| start <= i < text.len() ==> text[i] != ' ',
        start > 0 ==> text[start - 1] == ' ',
    ensures
        token_start(text) == start,
    decreases text.len(),
{
    if text.len() > 0 && text.last() != ' ' {
        lemma_token_start_is(text.drop_last(), start);
    }
}

/// The first character that is no whitespace is where the leading
/// whitespace ends.
pub proof fn lemma_leading_space_is(text: Seq<char>, start: int)
    requires
        0 <= start <= text.len(),
        forall|i: int| 0 <= i < start ==> is_white_space(text[i]),
        start < text.len() ==> !is_white_space(text[start]),
    ensures
        leading_space(text) == start,
    decreases text.len(),
{
    if text.len() > 0 && is_white_space(text.first()) {
        let rest = text.drop_first();
        assert forall|i: int| 0 <= i < start - 1 implies is_white_space(rest[i]) by {
            assert(rest[i] == text[i + 1]);
        }
        lemma_leading_space_is(rest, start - 1);
    }
}

/// The last character that is no whitespace is where the trimmed text ends.
pub proof fn lemma_trimmed_end_is(text: Seq<char>, end: int)
    requires
        0 <= end <= text.len(),
        forall|i: int| end <= i < text.len() ==> is_white_space(text[i]),
        end > 0 ==> !is_white_space(text[end - 1]),
    ensures
        trimmed_end(text) == end,
    decreases text.len(),
{
    if text.len() > 0 && is_white_space(text.last()) {
        lemma_trimmed_end_is(text.drop_last(), end);
    }
}

/// The characters of a string slice, one element each.
pub fn chars_of(text: &str) -> (chars: Vec<char>)
    ensures
        chars@ == text@,
{
    let mut chars: Vec<char> = Vec::new();
    for c in it: text.chars()
        invariant
            chars@ == it.seq().subrange(0, it.index() as int),
            it.seq() == text@,
    {
        chars.push(c);
    }
    chars
}

/// The text of a cell: its fragments concatenated in order, with no
/// separator added and nothing stripped. No fragments give the empty text.
pub fn join_text(parts: &Vec<&str>) -> (text: String)
    ensures
        text@ == joined(slice_views(parts@)),
{
    let ghost all = slice_views(parts@);
    let mut text = String::new();
    let mut i: usize = 0;
    while i < parts.len()
        invariant
            i <= parts.len(),
            all == slice_views(parts@),
            text@ == joined(all.subrange(0, i as int)),
        decreases parts.len() - i,
    {
        text.append(parts[i]);
        proof {
            let next = all.subrange(0, i + 1);
            assert(next.drop_last() =~= all.subrange(0, i as int));
            assert(next.last() == parts@[i as int]@);
        }
        i += 1;
    }
    assert(all.subrange(0, parts.len() as int) =~= all);
    text
}

/// The last of the words that single spaces separate: `"Channel ID 1"`
/// gives `"1"`. A text without a space is its own last word.
pub fn split_last_token(text: &str) -> (token: &str)
    ensures
        token@ == last_token(text@),
{
    let chars = chars_of(text);
    let mut start: usize = 0;
    let mut i: usize = 0;
    while i < chars.len()
        invariant
            i <= chars.len(),
            start == token_start(chars@.subrange(0, i as int)),
            start <= i,
        decreases chars.len() - i,
    {
        if chars[i] == ' ' {
            start = i + 1;
        }
        proof {
            let next = chars@.subrange(0, i + 1);
            assert(next.drop_last() =~= chars@.subrange(0, i as int));
        }
        i += 1;
    }
    assert(chars@.subrange(0, chars.len() as int) =~= chars@);
    text.substring_char(start, chars.len())
}

/// The text without the whitespace around it.
pub fn trim_whitespace(text: &str) -> (inner: &str)
    ensures
        inner@ == trimmed(text@),
{
    let chars = chars_of(text);
    let mut start: usize = 0;
    while start < chars.len() && chars[start].is_whitespace()
        invariant
            start <= chars.len(),
            forall|i: int| 0 <= i < start ==> is_white_space(chars@[i]),
        decreases chars.len() - start,
    {
        start += 1;
    }
    let mut end: usize = chars.len();
    while end > start && chars[end - 1].is_whitespace()
        invariant
            start <= end <= chars.len(),
            forall|i: int| end <= i < chars.len() ==> is_white_space(chars@[i]),
        decreases end,
    {
        end -= 1;
    }
    proof {
        lemma_leading_space_is(text@, start as int);
        if start < chars.len() {
            lemma_trimmed_end_is(text@, end as int);
        } else {
            lemma_trimmed_end_is(text@, 0);
            assert(text@.subrange(start as int, end as int) =~= Seq::<char>::empty());
        }
    }
    text.substring_char(start, end)
}

} // verus!
