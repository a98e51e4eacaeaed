//! Text primitives the classifier is built on: substring search and the
//! normalisations applied to a message before it is matched.

use vstd::prelude::*;
use vstd::string::StringExecFns;

verus! {

/// `needle` occurs in `hay` starting at position `at`.
pub open spec fn occurs_at(needle: Seq<char>, hay: Seq<char>, at: int) -> bool {
    &&& 0 <= at
    &&& at + needle.len() <= hay.len()
    &&& hay.subrange(at, at + needle.len()) =~= needle
}

/// `needle` is a contiguous part of `hay`. The empty text occurs in every text.
pub open spec fn occurs_in(needle: Seq<char>, hay: Seq<char>) -> bool {
    exists|at: int| occurs_at(needle, hay, at)
}

/// The lowercase form of a text, as `str::to_lowercase` computes it from the
/// Unicode case mappings.
pub uninterp spec fn lowercase_of(text: Seq<char>) -> Seq<char>;

/// Whether a character has the Unicode property White_Space, which is what
/// `str::trim` takes for white space.
pub uninterp spec fn white_space(character: char) -> bool;

/// How many characters at the start of a text are white space.
pub open spec fn leading_space(text: Seq<char>) -> nat
    decreases text.len(),
{
    if text.len() > 0 && white_space(text[0]) {
        1 + leading_space(text.drop_first())
    } else {
        0
    }
}

/// How many characters at the end of a text are white space.
pub open spec fn trailing_space(text: Seq<char>) -> nat
    decreases text.len(),
{
    if text.len() > 0 && white_space(text.last()) {
        1 + trailing_space(text.drop_last())
    } else {
        0
    }
}

/// A text with the white space at both of its ends taken off: what stands
/// from its first character that is no white space to its last. Of a text
/// that is white space throughout, nothing is left.
pub open spec fn trimmed_of(text: Seq<char>) -> Seq<char> {
    if leading_space(text) == text.len() {
        Seq::empty()
    } else {
        text.subrange(leading_space(text) as int, text.len() - trailing_space(text))
    }
}

/// Calls `str::contains` with a string pattern. Trusted: the call answers
/// whether the pattern's characters stand somewhere in the text, one after the
/// other.
#[verifier::external_body]
pub(crate) fn contains(hay: &str, needle: &str) -> (found: bool)
    ensures
        found == occurs_in(needle@, hay@),
{
    hay.contains(needle)
}

/// Calls `str::to_lowercase`. Trusted: the result is the text's lowercase
/// form, which depends on the characters alone.
#[verifier::external_body]
pub(crate) fn to_lowercase(text: &str) -> (lowered: String)
    ensures
        lowered@ == lowercase_of(text@),
{
    text.to_lowercase()
}

/// Calls `str::trim`. Trusted: the result is the part of the text that is
/// left when the characters with the property White_Space are taken off its
/// start and its end, and nothing else is; so what is left neither starts
/// nor ends in such a character.
#[verifier::external_body]
pub(crate) fn trim(text: &str) -> (trimmed: &str)
    ensures
        trimmed@ == trimmed_of(text@),
        trimmed@.len() > 0 ==> !white_space(trimmed@[0]) && !white_space(trimmed@.last()),
{
    text.trim()
}

/// The white space at the start of a text stops within the text, and what
/// follows it, if anything does, is no white space.
pub proof fn lemma_leading_space(text: Seq<char>)
    ensures
        leading_space(text) <= text.len(),
        forall|i: int| 0 <= i < leading_space(text) ==> white_space(#[trigger] text[i]),
        leading_space(text) < text.len() ==> !white_space(text[leading_space(text) as int]),
    decreases text.len(),
{
    if text.len() > 0 && white_space(text[0]) {
        let rest = text.drop_first();
        lemma_leading_space(rest);
        assert forall|i: int| 0 <= i < leading_space(text) implies white_space(
            #[trigger] text[i],
        ) by {
            if i > 0 {
                assert(text[i] == rest[i - 1]);
            }
        }
        if leading_space(text) < text.len() {
            assert(text[leading_space(text) as int] == rest[leading_space(rest) as int]);
        }
    }
}

/// The white space at the end of a text starts within the text, and what
/// stands before it, if anything does, is no white space.
pub proof fn lemma_trailing_space(text: Seq<char>)
    ensures
        trailing_space(text) <= text.len(),
        forall|i: int|
            text.len() - trailing_space(text) <= i < text.len() ==> white_space(
                #[trigger] text[i],
            ),
        trailing_space(text) < text.len() ==> !white_space(
            text[text.len() - trailing_space(text) - 1],
        ),
    decreases text.len(),
{
    if text.len() > 0 && white_space(text.last()) {
        let rest = text.drop_last();
        lemma_trailing_space(rest);
        assert forall|i: int|
            text.len() - trailing_space(text) <= i < text.len() implies white_space(
            #[trigger] text[i],
        ) by {
            if i < text.len() - 1 {
                assert(text[i] == rest[i]);
            }
        }
        if trailing_space(text) < text.len() {
            assert(text[text.len() - trailing_space(text) - 1] == rest[rest.len()
                - trailing_space(rest) - 1]);
        }
    }
}

/// The trimmed text is a part of the text: it starts after the white space
/// at the text's start and ends before the white space at its end, it
/// neither starts nor ends in white space, and only white space was dropped.
pub proof fn lemma_trimmed_is_part(text: Seq<char>)
    ensures
        leading_space(text) + trimmed_of(text).len() + (if leading_space(text) == text.len() {
            0
        } else {
            trailing_space(text)
        }) == text.len(),
        occurs_at(trimmed_of(text), text, leading_space(text) as int),
        trimmed_of(text).len() > 0 ==> !white_space(trimmed_of(text)[0]) && !white_space(
            trimmed_of(text).last(),
        ),
        forall|i: int|
            0 <= i < text.len() && !(leading_space(text) <= i < leading_space(text) + trimmed_of(
                text,
            ).len()) ==> white_space(#[trigger] text[i]),
{
    lemma_leading_space(text);
    lemma_trailing_space(text);
    let start = leading_space(text) as int;
    if start < text.len() {
        let end = text.len() - trailing_space(text);
        if end <= start {
            assert(white_space(text[start]));
        }
        assert(trimmed_of(text)[0] == text[start]);
        assert(trimmed_of(text).last() == text[end - 1]);
    } else {
        assert(text.subrange(start, start) =~= Seq::<char>::empty());
    }
}

/// What is found in the trimmed text is found in the text.
pub proof fn lemma_found_in_trimmed(needle: Seq<char>, text: Seq<char>)
    requires
        occurs_in(needle, trimmed_of(text)),
    ensures
        occurs_in(needle, text),
{
    lemma_trimmed_is_part(text);
    let at = choose|at: int| occurs_at(needle, trimmed_of(text), at);
    let start = leading_space(text) as int;
    let part = trimmed_of(text);
    let whole = text.subrange(start, start + part.len());
    assert(whole == part);
    assert(text.subrange(start + at, start + at + needle.len()) =~= whole.subrange(
        at,
        at + needle.len(),
    ));
    assert(occurs_at(needle, text, start + at));
}

/// An optional text as contracts see it.
pub open spec fn text_of(value: Option<String>) -> Option<Seq<char>> {
    match value {
        Some(text) => Some(text@),
        None => None,
    }
}

/// The character that writes a digit.
pub open spec fn digit_char(digit: nat) -> char {
    if digit == 0 {
        '0'
    } else if digit == 1 {
        '1'
    } else if digit == 2 {
        '2'
    } else if digit == 3 {
        '3'
    } else if digit == 4 {
        '4'
    } else if digit == 5 {
        '5'
    } else if digit == 6 {
        '6'
    } else if digit == 7 {
        '7'
    } else if digit == 8 {
        '8'
    } else {
        '9'
    }
}

/// A number written in decimal, without sign or leading zeros.
pub open spec fn decimal(number: nat) -> Seq<char>
    decreases number,
{
    if number < 10 {
        seq![digit_char(number)]
    } else {
        decimal(number / 10).push(digit_char(number % 10))
    }
}

/// The text of one digit.
fn digit_text(digit: u128) -> (text: &'static str)
    requires
        digit < 10,
    ensures
        text@ == seq![digit_char(digit as nat)],
{
    proof {
        reveal_strlit("0");
        reveal_strlit("1");
        reveal_strlit("2");
        reveal_strlit("3");
        reveal_strlit("4");
        reveal_strlit("5");
        reveal_strlit("6");
        reveal_strlit("7");
        reveal_strlit("8");
        reveal_strlit("9");
    }
    let text = if digit == 0 {
        "0"
    } else if digit == 1 {
        "1"
    } else if digit == 2 {
        "2"
    } else if digit == 3 {
        "3"
    } else if digit == 4 {
        "4"
    } else if digit == 5 {
        "5"
    } else if digit == 6 {
        "6"
    } else if digit == 7 {
        "7"
    } else if digit == 8 {
        "8"
    } else {
        "9"
    };
    assert(text@ =~= seq![digit_char(digit as nat)]);
    text
}

/// Writes a number in decimal.
pub fn decimal_text(number: u128) -> (text: String)
    ensures
        text@ == decimal(number as nat),
    decreases number,
{
    if number < 10 {
        String::from_str(digit_text(number))
    } else {
        let text = decimal_text(number / 10).concat(digit_text(number % 10));
        assert(text@ =~= decimal(number as nat));
        text
    }
}

/// The text of a truth value: `true` or `false`.
pub open spec fn truth(value: bool) -> Seq<char> {
    if value {
        "true"@
    } else {
        "false"@
    }
}

/// Writes a truth value.
pub fn truth_text(value: bool) -> (text: &'static str)
    ensures
        text@ == truth(value),
{
    if value {
        "true"
    } else {
        "false"
    }
}

} // verus!
