//! Small facts about characters and text that the rest of the library needs.
use vstd::prelude::*;

verus! {

/// Whether `c` has the Unicode `White_Space` property, as `char::is_whitespace` decides it.
pub open spec fn is_whitespace(c: char) -> bool {
    c == ' ' || ('\u{9}' <= c && c <= '\u{d}') || c == '\u{85}' || c == '\u{a0}' || c == '\u{1680}' || (
    '\u{2000}' <= c && c <= '\u{200a}') || c == '\u{2028}' || c == '\u{2029}' || c == '\u{202f}' || c
        == '\u{205f}' || c == '\u{3000}'
}

pub fn char_is_whitespace(c: char) -> (r: bool)
    ensures
        r == is_whitespace(c),
{
    c == ' ' || ('\u{9}' <= c && c <= '\u{d}') || c == '\u{85}' || c == '\u{a0}' || c == '\u{1680}' || (
    '\u{2000}' <= c && c <= '\u{200a}') || c == '\u{2028}' || c == '\u{2029}' || c == '\u{202f}' || c
        == '\u{205f}' || c == '\u{3000}'
}

/// Whether the text is empty once leading and trailing white space is trimmed.
pub open spec fn is_blank(s: Seq<char>) -> bool {
    forall|i: int| 0 <= i < s.len() ==> is_whitespace(#[trigger] s[i])
}

pub fn blank(s: &Vec<char>) -> (r: bool)
    ensures
        r == is_blank(s@),
{
    let mut i: usize = 0;
    while i < s.len()
        invariant
            i <= s@.len(),
            forall|k: int| 0 <= k < i ==> is_whitespace(#[trigger] s@[k]),
        decreases s@.len() - i,
    {
        if !char_is_whitespace(s[i]) {
            return false;
        }
        i = i + 1;
    }
    true
}

/// Relies on `String`'s `FromIterator<&char>`: the text holds the characters in order.
#[verifier::external_body]
pub(crate) fn string_from_chars(chars: &Vec<char>) -> (r: String)
    ensures
        r@ == chars@,
{
    chars.iter().collect()
}

/// Whether chrono represents this many seconds since the Unix epoch as a UTC date and time:
/// its dates run from the first day of year -262143 to the last day of year 262142.
pub open spec fn chrono_accepts_timestamp(secs: i64) -> bool {
    -8334601315200 <= secs <= 8210266876799
}

/// Relies on `chrono::DateTime::<Utc>::from_timestamp`: with nanoseconds 0 it returns `Some`
/// exactly when the day falls within `NaiveDate::MIN` to `NaiveDate::MAX`.
#[verifier::external_body]
fn chrono_timestamp_valid(secs: i64) -> (r: bool)
    ensures
        r == chrono_accepts_timestamp(secs),
{
    chrono::DateTime::<chrono::Utc>::from_timestamp(secs, 0).is_some()
}

/// Whether a timestamp that the server sent names a moment that chrono represents;
/// one beyond `i64::MAX` never does.
pub open spec fn timestamp_ok(secs: u64) -> bool {
    secs <= i64::MAX && chrono_accepts_timestamp(secs as i64)
}

pub fn server_timestamp_valid(secs: u64) -> (r: bool)
    ensures
        r == timestamp_ok(secs),
{
    if secs > i64::MAX as u64 {
        false
    } else {
        chrono_timestamp_valid(secs as i64)
    }
}

} // verus!
