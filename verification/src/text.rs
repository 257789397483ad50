//! Text operations that the standard library provides and the verifier has no
//! specification for.

use vstd::prelude::*;

verus! {

/// `text` with every match of `from` replaced by `to`, matches taken from the
/// left and not overlapping.
pub open spec fn replaced(text: Seq<char>, from: Seq<char>, to: Seq<char>) -> Seq<char>
    decreases text.len(),
{
    if from.len() == 0 || text.len() < from.len() {
        text
    } else if text.subrange(0, from.len() as int) == from {
        to + replaced(text.subrange(from.len() as int, text.len() as int), from, to)
    } else {
        seq![text[0]] + replaced(text.subrange(1, text.len() as int), from, to)
    }
}

/// Whether `needle` occurs in `text`.
pub open spec fn occurs_in(text: Seq<char>, needle: Seq<char>) -> bool {
    exists|at: int|
        0 <= at && at + needle.len() <= text.len() && #[trigger] text.subrange(
            at,
            at + needle.len(),
        ) == needle
}

/// Replaces every match of `from` in `text` by `to` with `str::replace`.
///
/// Trusted: the result is `replaced`, which is how the standard library
/// describes it for a pattern that is not empty.
#[verifier::external_body]
pub(crate) fn replace_all(text: &str, from: &str, to: &str) -> (result: String)
    requires
        from@.len() > 0,
    ensures
        result@ == replaced(text@, from@, to@),
{
    text.replace(from, to)
}

/// Tests with `str::contains` whether `needle` occurs in `text`.
///
/// Trusted: the answer is `occurs_in`.
#[verifier::external_body]
pub(crate) fn contains_text(text: &str, needle: &str) -> (found: bool)
    ensures
        found == occurs_in(text@, needle@),
{
    text.contains(needle)
}

/// Whether a character is white space in the sense of the standard library,
/// which goes by Unicode's `White_Space` property.
pub uninterp spec fn is_white_space(c: char) -> bool;

/// A text without the white space at its start.
pub open spec fn without_leading_space(text: Seq<char>) -> Seq<char>
    decreases text.len(),
{
    if text.len() > 0 && is_white_space(text[0]) {
        without_leading_space(text.drop_first())
    } else {
        text
    }
}

/// A text without the white space at its end.
pub open spec fn without_trailing_space(text: Seq<char>) -> Seq<char>
    decreases text.len(),
{
    if text.len() > 0 && is_white_space(text.last()) {
        without_trailing_space(text.drop_last())
    } else {
        text
    }
}

/// A text without the white space at its two ends.
pub open spec fn trimmed(text: Seq<char>) -> Seq<char> {
    without_trailing_space(without_leading_space(text))
}

/// Strips the white space from both ends of `text` with `str::trim`.
///
/// Trusted: the result is the text without its leading and its trailing
/// white-space characters, so a result that is not empty starts and ends with
/// a character that is no white space. Which characters are white space is
/// left to `is_white_space`.
#[verifier::external_body]
pub(crate) fn trim_text(text: &str) -> (result: String)
    ensures
        result@ == trimmed(text@),
        result@.len() > 0 ==> !is_white_space(result@[0]) && !is_white_space(result@.last()),
{
    text.trim().to_owned()
}

/// Trimming takes characters away from the two ends only: what is left is a
/// stretch of the text, no longer than it, and trimming it again changes
/// nothing.
pub proof fn lemma_trimmed_is_a_stretch(text: Seq<char>)
    ensures
        exists|from: int, to: int|
            0 <= from <= to <= text.len() && trimmed(text) == #[trigger] text.subrange(from, to),
        trimmed(text).len() <= text.len(),
        trimmed(text).len() > 0 ==> !is_white_space(trimmed(text)[0]) && !is_white_space(
            trimmed(text).last(),
        ),
        trimmed(trimmed(text)) == trimmed(text),
{
    lemma_leading(text);
    let inner = without_leading_space(text);
    lemma_trailing(inner);
    let from = choose|from: int|
        0 <= from <= text.len() && inner == text.subrange(from, text.len() as int);
    let to = choose|to: int| 0 <= to <= inner.len() && trimmed(text) == inner.subrange(0, to);
    assert(trimmed(text) =~= text.subrange(from, from + to));
    let result = trimmed(text);
    if result.len() > 0 {
        assert(result[0] == inner[0]);
        assert(without_leading_space(result) == result);
    } else {
        assert(without_leading_space(result) == result);
    }
    lemma_trailing(result);
}

proof fn lemma_leading(text: Seq<char>)
    ensures
        exists|from: int|
            0 <= from <= text.len() && without_leading_space(text) == #[trigger] text.subrange(
                from,
                text.len() as int,
            ),
        without_leading_space(text).len() > 0 ==> !is_white_space(without_leading_space(text)[0]),
    decreases text.len(),
{
    if text.len() > 0 && is_white_space(text[0]) {
        let rest = text.drop_first();
        lemma_leading(rest);
        let from = choose|from: int|
            0 <= from <= rest.len() && without_leading_space(rest) == #[trigger] rest.subrange(
                from,
                rest.len() as int,
            );
        assert(rest.subrange(from, rest.len() as int) =~= text.subrange(
            from + 1,
            text.len() as int,
        ));
    } else {
        assert(text =~= text.subrange(0, text.len() as int));
    }
}

proof fn lemma_trailing(text: Seq<char>)
    ensures
        exists|to: int|
            0 <= to <= text.len() && without_trailing_space(text) == #[trigger] text.subrange(0, to),
        without_trailing_space(text).len() > 0 ==> !is_white_space(
            without_trailing_space(text).last(),
        ) && without_trailing_space(text)[0] == text[0],
        without_trailing_space(without_trailing_space(text)) == without_trailing_space(text),
    decreases text.len(),
{
    if text.len() > 0 && is_white_space(text.last()) {
        let rest = text.drop_last();
        lemma_trailing(rest);
        let to = choose|to: int|
            0 <= to <= rest.len() && without_trailing_space(rest) == #[trigger] rest.subrange(0, to);
        assert(rest.subrange(0, to) =~= text.subrange(0, to));
    } else {
        assert(text =~= text.subrange(0, text.len() as int));
    }
}

/// A text in lower case, as the standard library converts it.
pub uninterp spec fn lowercased(text: Seq<char>) -> Seq<char>;

/// Converts `text` to lower case with `str::to_lowercase`.
///
/// Trusted: the result depends on the text alone; `lowercased` names it.
#[verifier::external_body]
pub(crate) fn lowercase_text(text: &str) -> (result: String)
    ensures
        result@ == lowercased(text@),
{
    text.to_lowercase()
}

/// Whether two texts are the same.
pub fn same_text(a: &str, b: &str) -> (same: bool)
    ensures
        same == (a@ == b@),
{
    let left = a.to_owned();
    let right = b.to_owned();
    left == right
}

/// A copy of an optional text.
pub fn copy_text(text: &Option<String>) -> (copy: Option<String>)
    ensures
        copy == *text,
{
    match text {
        Some(s) => Some(s.clone()),
        None => None,
    }
}

/// Joins two texts.
pub fn joined(head: &str, tail: &str) -> (whole: String)
    ensures
        whole@ == head@ + tail@,
{
    let mut whole = head.to_owned();
    whole.append(tail);
    whole
}

} // verus!
