//! The regular expression engine, as the `regex` crate provides it.

use regex::Regex;
use vstd::prelude::*;

verus! {

/// A compiled regular expression of the `regex` crate.
#[verifier::external_type_specification]
#[verifier::external_body]
pub struct ExRegex(regex::Regex);

/// The error with which the `regex` crate refuses a pattern.
#[verifier::external_type_specification]
#[verifier::external_body]
pub struct ExRegexError(regex::Error);

/// The pattern that a compiled expression stands for.
pub uninterp spec fn regex_pattern(re: Regex) -> Seq<char>;

/// The debug rendering of the error with which `Regex::new` refuses `pattern`, or `None` where it
/// accepts the pattern.
pub uninterp spec fn compile_failure(pattern: Seq<char>) -> Option<Seq<char>>;

/// The debug rendering of an error of the `regex` crate.
pub uninterp spec fn regex_error_text(error: regex::Error) -> Seq<char>;

/// The capture groups of the leftmost-first match of `pattern` in `value`, or `None` where there
/// is no match. The first group is the whole match. A group that took no part in the match is
/// `None`.
pub uninterp spec fn regex_captures(pattern: Seq<char>, value: Seq<char>) -> Option<
    Seq<Option<Seq<char>>>,
>;

/// The number of capture groups of `pattern`, the group of the whole match among them, as
/// `Regex::captures_len` counts them.
pub uninterp spec fn regex_group_count(pattern: Seq<char>) -> nat;

/// Whether `part` is a contiguous piece of `whole`.
pub open spec fn is_substring(part: Seq<char>, whole: Seq<char>) -> bool {
    exists|start: int, end: int|
        0 <= start <= end <= whole.len() && part == #[trigger] whole.subrange(start, end)
}

/// Calls `regex::Regex::new`.
///
/// Claims that whether the pattern is accepted, and how its error reads, depends on the pattern
/// alone, and that the expression that comes back stands for that pattern. Which patterns are
/// accepted is left to the crate's grammar and its size limit.
#[verifier::external_body]
pub(crate) fn compile(pattern: &str) -> (compiled: Result<Regex, regex::Error>)
    ensures
        match compiled {
            Ok(re) => compile_failure(pattern@) is None && regex_pattern(re) == pattern@,
            Err(error) => compile_failure(pattern@) == Some(regex_error_text(error)),
        },
{
    Regex::new(pattern)
}

/// Formats a `regex::Error` with its `Debug` impl.
///
/// Claims that the text depends on the error alone.
#[verifier::external_body]
pub(crate) fn error_text(error: &regex::Error) -> (text: String)
    ensures
        text@ == regex_error_text(*error),
{
    format!("{error:?}")
}

/// Calls `regex::Regex::captures` and copies out each group, in the order of `Captures::iter`.
///
/// Claims that the groups depend on the pattern and the searched text alone; that their number
/// depends on the pattern alone; that a match has at least the group of the whole match, which
/// took part; and that each group that took part holds a piece of the searched text.
#[verifier::external_body]
pub(crate) fn captures(re: &Regex, value: &str) -> (groups: Option<Vec<Option<String>>>)
    ensures
        groups.deep_view() == regex_captures(regex_pattern(*re), value@),
        groups matches Some(found) ==> found@.len() == regex_group_count(regex_pattern(*re)),
        groups matches Some(found) ==> found@.len() >= 1 && found@[0] is Some,
        groups matches Some(found) ==> forall|i: int|
            0 <= i < found@.len() ==> (#[trigger] found@[i] matches Some(text) ==> is_substring(
                text@,
                value@,
            )),
{
    re.captures(value).map(
        |groups| groups.iter().map(|group| group.map(|m| m.as_str().to_string())).collect(),
    )
}

} // verus!
