//! Text as sequences of characters.
//!
//! The contracts of this crate speak of text through its view, a `Seq<char>`.

use vstd::prelude::*;

verus! {

/// `String::push`: the character stands behind what the string held before.
pub assume_specification[ String::push ](text: &mut String, c: char)
    ensures
        final(text)@ == old(text)@.push(c),
;

/// The texts of a list of strings.
pub open spec fn texts(list: Seq<String>) -> Seq<Seq<char>> {
    list.map_values(|s: String| s@)
}

/// The text that an optional string holds.
pub open spec fn opt_text(s: Option<String>) -> Option<Seq<char>> {
    match s {
        Some(s) => Some(s@),
        None => None,
    }
}

/// What is behind the first character of a text is in the text.
pub proof fn lemma_rest_is_contained(text: Seq<char>)
    requires
        text.len() > 0,
    ensures
        text.contains(text[0]),
        forall|c: char| #[trigger] text.skip(1).contains(c) ==> text.contains(c),
{
    assert forall|c: char| #[trigger] text.skip(1).contains(c) implies text.contains(c) by {
        let i = choose|i: int| 0 <= i < text.skip(1).len() && text.skip(1)[i] == c;
        assert(text[i + 1] == c);
    }
}

/// A text without a character stays without it when another is put behind.
pub proof fn lemma_push_other(text: Seq<char>, other: char, c: char)
    requires
        !text.contains(c),
        other != c,
    ensures
        !text.push(other).contains(c),
{
    assert forall|i: int| 0 <= i < text.len() + 1 implies text.push(other)[i] != c by {
        assert(i < text.len() ==> text.contains(text[i]));
    }
}

/// The characters of a text, in order.
pub fn chars_of(text: &str) -> (chars: Vec<char>)
    ensures
        chars@ == text@,
{
    let mut chars: Vec<char> = Vec::new();
    for c in it: text.chars()
        invariant
            it.seq() == text@,
            chars@ == text@.take(it.index()),
    {
        chars.push(c);
        assert(text@.take(it.index() + 1) =~= text@.take(it.index()).push(c));
    }
    assert(text@.take(text@.len() as int) =~= text@);
    chars
}

/// Put a text behind another.
pub fn append(text: &mut String, more: &str)
    ensures
        final(text)@ == old(text)@ + more@,
{
    let chars = chars_of(more);
    assert(old(text)@ + more@.take(0) =~= old(text)@);
    for i in 0..chars.len()
        invariant
            chars@ == more@,
            text@ == old(text)@ + more@.take(i as int),
    {
        text.push(chars[i]);
        assert(text@ =~= old(text)@ + more@.take(i + 1));
    }
    assert(more@.take(more@.len() as int) =~= more@);
}

/// Whether two texts are the same.
pub fn same_text(a: &str, b: &str) -> (same: bool)
    ensures
        same == (a@ == b@),
{
    let left = chars_of(a);
    let right = chars_of(b);
    if left.len() != right.len() {
        return false;
    }
    for i in 0..left.len()
        invariant
            left@ == a@,
            right@ == b@,
            left.len() == right.len(),
            a@.take(i as int) == b@.take(i as int),
    {
        if left[i] != right[i] {
            return false;
        }
        assert(a@.take(i + 1) =~= a@.take(i as int).push(a@[i as int]));
        assert(b@.take(i + 1) =~= b@.take(i as int).push(b@[i as int]));
    }
    assert(a@.take(a@.len() as int) =~= a@);
    assert(b@.take(b@.len() as int) =~= b@);
    true
}

/// Whether a text is a given part of a list of characters.
pub fn part_is(chars: &Vec<char>, start: usize, end: usize, text: &str) -> (same: bool)
    requires
        start <= end <= chars.len(),
    ensures
        same == (chars@.subrange(start as int, end as int) == text@),
{
    let other = chars_of(text);
    let ghost part = chars@.subrange(start as int, end as int);
    if other.len() != end - start {
        return false;
    }
    for i in 0..other.len()
        invariant
            other@ == text@,
            start <= end <= chars.len(),
            part == chars@.subrange(start as int, end as int),
            other.len() == end - start,
            forall|j: int| 0 <= j < i ==> #[trigger] part[j] == other@[j],
    {
        if chars[start + i] != other[i] {
            assert(part[i as int] != other@[i as int]);
            return false;
        }
        assert(part[i as int] == other@[i as int]);
    }
    assert(part =~= other@);
    true
}

/// Whether two lists hold the same texts in the same order.
pub fn same_texts(a: &Vec<String>, b: &Vec<String>) -> (same: bool)
    ensures
        same == (texts(a@) == texts(b@)),
{
    if a.len() != b.len() {
        assert(texts(a@).len() != texts(b@).len());
        return false;
    }
    for i in 0..a.len()
        invariant
            a.len() == b.len(),
            forall|j: int| 0 <= j < i ==> #[trigger] texts(a@)[j] == texts(b@)[j],
    {
        if !same_text(a[i].as_str(), b[i].as_str()) {
            assert(texts(a@)[i as int] != texts(b@)[i as int]);
            return false;
        }
    }
    assert(texts(a@) =~= texts(b@));
    true
}

/// The texts of a list are those of its strings, all of them and in their order.
pub proof fn law_texts_are_all_there(list: Seq<String>)
    ensures
        texts(list).len() == list.len(),
        forall|i: int| 0 <= i < list.len() ==> #[trigger] texts(list)[i] == list[i]@,
{
}

/// An optional string has a text if and only if it is there, and then its own.
pub proof fn law_optional_text(s: Option<String>)
    ensures
        s is Some <==> opt_text(s) is Some,
        s matches Some(string) ==> opt_text(s) == Some(string@),
{
}

/// Two lists are told to hold the same texts if and only if they do, one by one.
pub proof fn law_same_lists(a: &Vec<String>, b: &Vec<String>, same: bool)
    requires
        call_ensures(same_texts, (a, b), same),
    ensures
        same <==> a@.len() == b@.len() && forall|i: int|
            0 <= i < a@.len() ==> (#[trigger] a@[i])@ == b@[i]@,
{
    let left = texts(a@);
    let right = texts(b@);
    if same {
        assert(left.len() == a@.len() && right.len() == b@.len());
        assert forall|i: int| 0 <= i < a@.len() implies (#[trigger] a@[i])@ == b@[i]@ by {
            assert(left[i] == a@[i]@ && right[i] == b@[i]@);
        }
    } else if a@.len() == b@.len() && (forall|i: int|
        0 <= i < a@.len() ==> (#[trigger] a@[i])@ == b@[i]@) {
        assert forall|i: int| 0 <= i < left.len() implies left[i] == right[i] by {
            assert(left[i] == a@[i]@);
        }
        assert(left =~= right);
    }
}

} // verus!
