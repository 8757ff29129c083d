//! The string operations the rules lean on, taken from the standard library.

use vstd::prelude::*;

verus! {

/// A list of strings as the contracts see it.
pub open spec fn texts(strings: Seq<String>) -> Seq<Seq<char>> {
    strings.map_values(|string: String| string@)
}

/// Whether a character is whitespace: whether it has the Unicode property
/// `White_Space`, by which `str::trim` goes.
pub uninterp spec fn white_space(c: char) -> bool;

/// What `str::to_lowercase` makes of a text: its lowercase equivalent.
pub uninterp spec fn lowercased(text: Seq<char>) -> Seq<char>;

/// The number of whitespace characters that a text begins with.
pub open spec fn leading(text: Seq<char>) -> nat
    decreases text.len(),
{
    if text.len() > 0 && white_space(text.first()) {
        1 + leading(text.drop_first())
    } else {
        0
    }
}

/// The number of whitespace characters that a text ends with.
pub open spec fn trailing(text: Seq<char>) -> nat
    decreases text.len(),
{
    if text.len() > 0 && white_space(text.last()) {
        1 + trailing(text.drop_last())
    } else {
        0
    }
}

/// A text without the whitespace that it begins with and the whitespace
/// that it ends with.
pub open spec fn trimmed(text: Seq<char>) -> Seq<char> {
    let rest = text.subrange(leading(text) as int, text.len() as int);
    rest.subrange(0, rest.len() - trailing(rest))
}

/// The whitespace that a text begins with ends before the first character
/// that is none.
pub proof fn leading_ends_at_text(text: Seq<char>)
    ensures
        leading(text) <= text.len(),
        forall|k: int| 0 <= k < leading(text) ==> white_space(#[trigger] text[k]),
        leading(text) < text.len() ==> !white_space(text[leading(text) as int]),
    decreases text.len(),
{
    if text.len() > 0 && white_space(text.first()) {
        let rest = text.drop_first();
        leading_ends_at_text(rest);
        assert forall|k: int| 0 <= k < leading(text) implies white_space(#[trigger] text[k]) by {
            if k > 0 {
                assert(text[k] == rest[k - 1]);
            }
        }
        if leading(text) < text.len() {
            assert(text[leading(text) as int] == rest[leading(rest) as int]);
        }
    }
}

/// The whitespace that a text ends with begins after the last character
/// that is none.
pub proof fn trailing_begins_at_text(text: Seq<char>)
    ensures
        trailing(text) <= text.len(),
        forall|k: int| text.len() - trailing(text) <= k < text.len() ==> white_space(#[trigger] text[k]),
        trailing(text) < text.len() ==> !white_space(text[text.len() - trailing(text) - 1]),
    decreases text.len(),
{
    if text.len() > 0 && white_space(text.last()) {
        let rest = text.drop_last();
        trailing_begins_at_text(rest);
        assert forall|k: int| text.len() - trailing(text) <= k < text.len() implies white_space(
            #[trigger] text[k],
        ) by {
            if k < text.len() - 1 {
                assert(text[k] == rest[k]);
            }
        }
        if trailing(text) < text.len() {
            assert(text[text.len() - trailing(text) - 1] == rest[rest.len() - trailing(rest) - 1]);
        }
    }
}

/// A trimmed text neither begins nor ends with whitespace.
pub proof fn trimmed_has_no_margin(text: Seq<char>)
    ensures
        trimmed(text).len() <= text.len(),
        trimmed(text).len() > 0 ==> !white_space(trimmed(text).first()) && !white_space(
            trimmed(text).last(),
        ),
{
    leading_ends_at_text(text);
    let rest = text.subrange(leading(text) as int, text.len() as int);
    trailing_begins_at_text(rest);
    if rest.len() > 0 {
        assert(rest[0] == text[leading(text) as int]);
        if trailing(rest) == rest.len() {
            assert(white_space(rest[0]));
        }
    }
}

/// To trim a trimmed text changes nothing.
pub proof fn trimmed_twice_is_trimmed(text: Seq<char>)
    ensures
        trimmed(trimmed(text)) == trimmed(text),
{
    trimmed_has_no_margin(text);
    let once = trimmed(text);
    let rest = once.subrange(leading(once) as int, once.len() as int);
    assert(leading(once) == 0);
    assert(rest =~= once);
    assert(trailing(rest) == 0);
    assert(trimmed(once) =~= once);
}

/// Calls `str::trim` and copies the slice that it returns into a new
/// `String`. Trusted: the result is the text without its leading and
/// trailing whitespace, so that it neither begins nor ends with whitespace.
#[verifier::external_body]
pub(crate) fn trim(text: &str) -> (out: String)
    ensures
        out@ == trimmed(text@),
        out@.len() > 0 ==> !white_space(out@.first()) && !white_space(out@.last()),
{
    text.trim().into()
}

/// Calls `str::to_lowercase`. Trusted: the result is named `lowercased`,
/// nothing more is claimed of it.
#[verifier::external_body]
pub(crate) fn to_lowercase(text: &str) -> (out: String)
    ensures
        out@ == lowercased(text@),
{
    text.to_lowercase()
}

/// Compares two string slices with `==` of `str`. Trusted: two slices are
/// equal exactly when they hold the same characters.
#[verifier::external_body]
pub(crate) fn same_text(a: &str, b: &str) -> (same: bool)
    ensures
        same == (a@ == b@),
{
    a == b
}

} // verus!
