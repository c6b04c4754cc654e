//! Small helpers on text.

use vstd::prelude::*;
use vstd::string::StrSliceExecFns;

verus! {

/// What is left of `text` without `prefix`, or all of it where it has no such prefix.
pub open spec fn without_prefix(text: Seq<char>, prefix: Seq<char>) -> Seq<char> {
    if prefix.is_prefix_of(text) {
        text.skip(prefix.len() as int)
    } else {
        text
    }
}

/// The texts of a sequence of strings.
pub open spec fn texts(strings: Seq<String>) -> Seq<Seq<char>> {
    strings.map_values(|s: String| s@)
}

/// The text of an optional string.
pub open spec fn text_of(text: Option<String>) -> Option<Seq<char>> {
    match text {
        Some(t) => Some(t@),
        None => None,
    }
}

/// Whether two texts are equal.
pub fn same_text(a: &str, b: &str) -> (same: bool)
    ensures
        same == (a@ == b@),
{
    a.to_owned() == b.to_owned()
}

/// Whether two optional texts are equal.
pub fn same_optional_text(a: &Option<String>, b: &Option<String>) -> (same: bool)
    ensures
        same == (text_of(*a) == text_of(*b)),
{
    match (a, b) {
        (Some(x), Some(y)) => same_text(x.as_str(), y.as_str()),
        (None, None) => true,
        _ => false,
    }
}

/// Whether `text` begins with `prefix`.
pub fn begins_with(text: &str, prefix: &str) -> (begins: bool)
    ensures
        begins == prefix@.is_prefix_of(text@),
{
    let text_len: usize = text.unicode_len();
    let prefix_len: usize = prefix.unicode_len();
    if prefix_len > text_len {
        return false;
    }
    let head = text.substring_char(0, prefix_len);
    proof {
        assert(head@ == text@.take(prefix@.len() as int));
        assert(prefix@.is_prefix_of(text@) <==> prefix@ =~= text@.take(prefix@.len() as int));
    }
    same_text(head, prefix)
}

/// `text` without `prefix`, or all of it where it has no such prefix.
pub fn strip<'a>(text: &'a str, prefix: &str) -> (rest: &'a str)
    ensures
        rest@ == without_prefix(text@, prefix@),
{
    if begins_with(text, prefix) {
        let rest = text.substring_char(prefix.unicode_len(), text.unicode_len());
        assert(rest@ =~= text@.skip(prefix@.len() as int));
        rest
    } else {
        text
    }
}

/// Whether `c` occurs in `text`.
pub fn has_char(text: &str, c: char) -> (has: bool)
    ensures
        has == text@.contains(c),
{
    let len: usize = text.unicode_len();
    let mut i: usize = 0;
    while i < len
        invariant
            len == text@.len(),
            i <= len,
            forall|j: int| 0 <= j < i ==> text@[j] != c,
        decreases len - i,
    {
        if text.get_char(i) == c {
            return true;
        }
        i += 1;
    }
    false
}

/// A prefix is taken off a text that begins with it, once, and a text that does not is left as it
/// is.
pub proof fn prefix_is_taken_off_once(text: Seq<char>, prefix: Seq<char>, rest: Seq<char>)
    ensures
        without_prefix(prefix + rest, prefix) == rest,
        without_prefix(text, prefix) == text || text == prefix + without_prefix(text, prefix),
        (forall|r: Seq<char>| text != #[trigger] (prefix + r)) ==> without_prefix(text, prefix)
            == text,
{
    assert(prefix =~= (prefix + rest).take(prefix.len() as int));
    assert((prefix + rest).skip(prefix.len() as int) =~= rest);
    if prefix.is_prefix_of(text) {
        assert(text =~= prefix + text.skip(prefix.len() as int));
    }
}

/// The texts of strings are as many as the strings, each at the place of its string.
pub proof fn each_string_has_its_text(strings: Seq<String>, text: Option<String>)
    ensures
        texts(strings).len() == strings.len(),
        forall|i: int| 0 <= i < strings.len() ==> #[trigger] texts(strings)[i] == strings[i]@,
        text_of(text) is Some <==> text is Some,
        text is Some ==> text_of(text)->0 == text->0@,
{
}

} // verus!
