//! Text helpers: exact comparisons, prefixes and substrings, and the two
//! calls that leave the crate for their text.

use vstd::prelude::*;
use vstd::string::*;

verus! {

/// Shown wherever local playback is refused for want of a Premium plan.
pub const PREMIUM_NEEDED: &'static str = "Local playback needs Spotify Premium.";

/// An error of the streaming library, as it hands it out.
#[verifier::external_type_specification]
#[verifier::external_body]
pub struct ExAnyhowError(anyhow::Error);

/// `format!("{error:#}")` on an `anyhow::Error`: the message of the error and
/// those of its causes, with ": " between them. Nothing is claimed of the text:
/// the messages come from the error's own printing, which may ask the system
/// for its words.
#[verifier::external_body]
fn error_chain_text(error: &anyhow::Error) -> (text: String) {
    format!("{error:#}")
}

/// Whether `text` is what printing `error` in full gave. Two printings of one
/// error need not agree.
pub closed spec fn prints(error: &anyhow::Error, text: String) -> bool {
    call_ensures(error_chain_text, (error,), text)
}

/// An error printed in full.
pub fn error_text(error: &anyhow::Error) -> (text: String)
    ensures
        prints(error, text),
{
    let text = error_chain_text(error);
    assert(call_ensures(error_chain_text, (error,), text));
    text
}

/// What `str::to_lowercase` makes of a text.
pub uninterp spec fn lowercase(text: Seq<char>) -> Seq<char>;

/// `str::to_lowercase`. The contract claims only that the result is a function
/// of the text; the Unicode mapping itself is left open.
#[verifier::external_body]
fn to_lowercase(text: &str) -> (lower: String)
    ensures
        lower@ == lowercase(text@),
{
    text.to_lowercase()
}

/// Whether `part` stands somewhere in `text`.
pub open spec fn has_part(text: Seq<char>, part: Seq<char>) -> bool {
    exists|at: int|
        0 <= at <= text.len() - part.len() && #[trigger] text.subrange(at, at + part.len()) == part
}

/// The characters of a text.
fn chars_of(text: &str) -> (chars: Vec<char>)
    ensures
        chars@ == text@,
{
    let mut chars: Vec<char> = Vec::new();
    for c in it: text.chars()
        invariant
            it.seq() == text@,
            chars@ == text@.take(it.index()),
    {
        chars.push(c);
    }
    chars
}

/// Whether `part` stands in `text` at position `at`.
fn part_at(text: &Vec<char>, at: usize, part: &Vec<char>) -> (found: bool)
    requires
        at + part@.len() <= text@.len(),
    ensures
        found == (text@.subrange(at as int, at + part@.len()) == part@),
{
    let end: usize = text.len();
    let mut i: usize = 0;
    while i < part.len()
        invariant
            i <= part@.len(),
            at + part@.len() <= text@.len(),
            end == text@.len(),
            text@.subrange(at as int, at + i) == part@.take(i as int),
        decreases part@.len() - i,
    {
        if text[at + i] != part[i] {
            assert(text@.subrange(at as int, at + part@.len())[i as int] != part@[i as int]);
            return false;
        }
        assert(text@.subrange(at as int, at + i + 1) =~= text@.subrange(at as int, at + i).push(
            text@[at + i],
        ));
        assert(part@.take(i + 1) =~= part@.take(i as int).push(part@[i as int]));
        i += 1;
    }
    assert(part@.take(part@.len() as int) =~= part@);
    true
}

/// Whether `part` stands somewhere in `text`.
pub fn contains_part(text: &str, part: &str) -> (found: bool)
    ensures
        found == has_part(text@, part@),
{
    let whole = chars_of(text);
    let piece = chars_of(part);
    if piece.len() > whole.len() {
        return false;
    }
    let last: usize = whole.len() - piece.len();
    let mut at: usize = 0;
    while at <= last
        invariant
            whole@ == text@,
            piece@ == part@,
            last == whole@.len() - piece@.len(),
            at <= last + 1,
            forall|i: int|
                0 <= i < at ==> #[trigger] text@.subrange(i, i + part@.len()) != part@,
        decreases last + 1 - at,
    {
        if part_at(&whole, at, &piece) {
            return true;
        }
        if at == last {
            return false;
        }
        at += 1;
    }
    false
}

/// Whether two optional texts are equal: both absent, or both the same text.
pub fn same_text(left: &Option<String>, right: &Option<String>) -> (same: bool)
    ensures
        same == (left.deep_view() == right.deep_view()),
{
    match (left, right) {
        (None, None) => true,
        (Some(left), Some(right)) => *left == *right,
        _ => false,
    }
}

/// A copy of an optional text.
pub fn copy_text(text: &Option<String>) -> (copy: Option<String>)
    ensures
        copy == *text,
{
    match text {
        Some(text) => Some(text.clone()),
        None => None,
    }
}

/// A copy of a list of texts.
pub fn copy_texts(texts: &Vec<String>) -> (copy: Vec<String>)
    ensures
        copy@ == texts@,
{
    let copy = texts.clone();
    assert(copy@ =~= texts@);
    copy
}

/// Two texts, one after the other.
pub fn joined(first: &str, second: &str) -> (text: String)
    ensures
        text@ == first@ + second@,
{
    first.to_owned().concat(second)
}

/// What follows `prefix` in `text`, where `text` begins with it.
pub fn after_prefix(text: &str, prefix: &str) -> (rest: Option<String>)
    ensures
        rest is Some <==> prefix@.is_prefix_of(text@),
        rest matches Some(rest) ==> text@ == prefix@ + rest@,
{
    if begins_with(text, prefix) {
        let from: usize = prefix.unicode_len();
        let to: usize = text.unicode_len();
        let rest = text.substring_char(from, to).to_owned();
        assert(text@ =~= prefix@ + rest@);
        Some(rest)
    } else {
        None
    }
}

/// Whether `text` begins with `prefix`.
pub fn begins_with(text: &str, prefix: &str) -> (found: bool)
    ensures
        found == prefix@.is_prefix_of(text@),
{
    let whole = chars_of(text);
    let piece = chars_of(prefix);
    if piece.len() > whole.len() {
        return false;
    }
    part_at(&whole, 0, &piece)
}

/// What the listener is told when the streaming engine could not connect, for
/// the text of the error and the same text in lower case: known causes get a
/// plain sentence, an unreachable service keeps the cause, and anything else
/// is shown as it came.
pub open spec fn friendly_text(text: Seq<char>, lower: Seq<char>) -> Seq<char> {
    if has_part(lower, "badcredentials"@) || has_part(lower, "bad credentials"@) {
        "Spotify rejected the saved sign-in. Please sign in again."@
    } else if has_part(lower, "premium"@) {
        PREMIUM_NEEDED@
    } else if has_part(lower, "dns"@) || has_part(lower, "connect"@) || has_part(
        lower,
        "resolve"@,
    ) {
        "Couldn't reach Spotify: "@ + text
    } else {
        text
    }
}

/// What the listener is told for the text of a connection error, by the same
/// text in lower case.
pub fn friendly_connect_words(text: String, lower: &str) -> (shown: String)
    ensures
        shown@ == friendly_text(text@, lower@),
{
    if contains_part(lower, "badcredentials") || contains_part(lower, "bad credentials") {
        "Spotify rejected the saved sign-in. Please sign in again.".to_owned()
    } else if contains_part(lower, "premium") {
        PREMIUM_NEEDED.to_owned()
    } else if contains_part(lower, "dns") || contains_part(lower, "connect") || contains_part(
        lower,
        "resolve",
    ) {
        joined("Couldn't reach Spotify: ", text.as_str())
    } else {
        text
    }
}

/// What the listener is told for the text of a connection error.
pub fn friendly_connect_text(text: String) -> (shown: String)
    ensures
        shown@ == friendly_text(text@, lowercase(text@)),
{
    let lower = to_lowercase(text.as_str());
    friendly_connect_words(text, lower.as_str())
}

/// What the listener is told for a connection error: what
/// [`friendly_connect_text`] makes of the error printed in full.
pub fn friendly_connect_error(error: &anyhow::Error) -> (shown: String)
    ensures
        exists|text: String| #[trigger]
            prints(error, text) && shown@ == friendly_text(text@, lowercase(text@)),
{
    let text = error_text(error);
    let ghost printed = text;
    let shown = friendly_connect_text(text);
    assert(prints(error, printed));
    shown
}

}
