//! Patterns: how flags are written into them, and how they are compiled once and searched often.

use crate::engine::{captures, compile, error_text};
use crate::engine::{compile_failure, is_substring};
use crate::engine::{regex_captures, regex_group_count, regex_pattern};
use crate::error::{MatchError, MatchErrorView};
use regex::Regex;
use vstd::hash_map::StringHashMap;
use vstd::prelude::*;

verus! {

/// The pattern that the engine is given: the flag letters, where there are any, stand before the
/// pattern as an inline flag group. Flags without letters change nothing.
pub open spec fn complete(pattern: Seq<char>, flags: Option<Seq<char>>) -> Seq<char> {
    match flags {
        Some(letters) => if letters.len() > 0 {
            "(?"@ + letters + ")"@ + pattern
        } else {
            pattern
        },
        None => pattern,
    }
}

/// The pattern that the engine is given, or null where the pattern is null.
pub open spec fn completed(pattern: Option<Seq<char>>, flags: Option<Seq<char>>) -> Option<
    Seq<char>,
> {
    match pattern {
        Some(text) => Some(complete(text, flags)),
        None => None,
    }
}

/// Writes the flag letters, where there are any, before the pattern.
pub fn complete_pattern(pattern: &str, flags: Option<&str>) -> (whole: String)
    ensures
        whole@ == complete(pattern@, flags.deep_view()),
{
    match flags {
        Some(letters) => if letters.is_empty() {
            pattern.to_string()
        } else {
            let mut whole = "(?".to_string();
            whole.append(letters);
            whole.append(")");
            whole.append(pattern);
            whole
        },
        None => pattern.to_string(),
    }
}

/// The capture groups of a pattern in a text.
///
/// An empty pattern matches every text with the empty string, and has no group besides the
/// whole match. Postgres gives the same answer:
/// `SELECT regexp_match('foobarbequebaz', ''); = {""}`.
pub open spec fn pattern_groups(pattern: Seq<char>, value: Seq<char>) -> Option<
    Seq<Option<Seq<char>>>,
> {
    if pattern.len() == 0 {
        Some(seq![Some(Seq::<char>::empty())])
    } else {
        regex_captures(pattern, value)
    }
}

/// The engine's error for a pattern, where the engine refuses it. An empty pattern needs no
/// expression and is not handed to the engine.
pub open spec fn pattern_failure(pattern: Seq<char>) -> Option<Seq<char>> {
    if pattern.len() == 0 {
        None
    } else {
        compile_failure(pattern)
    }
}

/// The number of groups of a pattern, the group of the whole match among them.
pub open spec fn group_count(pattern: Seq<char>) -> nat {
    if pattern.len() == 0 {
        1
    } else {
        regex_group_count(pattern)
    }
}

/// Whether groups are such as a match of `pattern` in `value` can have: there is one for each
/// group of the pattern, the whole match is there, and every group that took part holds a piece
/// of the text.
pub open spec fn groups_within(
    groups: Seq<Option<Seq<char>>>,
    pattern: Seq<char>,
    value: Seq<char>,
) -> bool {
    &&& groups.len() == group_count(pattern)
    &&& groups.len() >= 1
    &&& groups[0] is Some
    &&& forall|i: int|
        0 <= i < groups.len() ==> (#[trigger] groups[i] matches Some(text) ==> is_substring(
            text,
            value,
        ))
}

/// The groups that an empty pattern finds in any text.
fn empty_pattern_groups() -> (groups: Vec<Option<String>>)
    ensures
        groups.deep_view() == seq![Some(Seq::<char>::empty())],
{
    let mut groups: Vec<Option<String>> = Vec::new();
    groups.push(Some(String::new()));
    assert(groups.deep_view() =~= seq![Some(Seq::<char>::empty())]);
    groups
}

/// A pattern together with the expression that it was compiled to. An empty pattern has none.
pub struct CompiledPattern {
    source: String,
    regex: Option<Regex>,
}

impl CompiledPattern {
    /// The expression is the one that the pattern compiles to.
    #[verifier::type_invariant]
    spec fn well_formed(self) -> bool {
        match self.regex {
            Some(regex) => self.source@.len() > 0 && regex_pattern(regex) == self.source@,
            None => self.source@.len() == 0,
        }
    }

    /// The pattern.
    pub closed spec fn pattern(self) -> Seq<char> {
        self.source@
    }

    /// Compiles a pattern.
    pub fn new(pattern: &str) -> (compiled: Result<CompiledPattern, MatchError>)
        ensures
            match compiled {
                Ok(it) => pattern_failure(pattern@) is None && it.pattern() == pattern@,
                Err(error) => pattern_failure(pattern@) matches Some(text) && error@
                    == MatchErrorView::InvalidPattern(text),
            },
    {
        if pattern.is_empty() {
            return Ok(CompiledPattern { source: pattern.to_string(), regex: None });
        }
        match compile(pattern) {
            Ok(regex) => Ok(CompiledPattern { source: pattern.to_string(), regex: Some(regex) }),
            Err(error) => Err(MatchError::InvalidPattern(error_text(&error))),
        }
    }

    /// Searches a text for the pattern.
    pub fn groups(&self, value: &str) -> (groups: Option<Vec<Option<String>>>)
        ensures
            groups.deep_view() == pattern_groups(self.pattern(), value@),
            groups matches Some(found) ==> groups_within(
                found.deep_view(),
                self.pattern(),
                value@,
            ),
    {
        proof {
            use_type_invariant(self);
        }
        match &self.regex {
            Some(regex) => captures(regex, value),
            None => {
                proof {
                    assert(value@.subrange(0, 0) =~= Seq::<char>::empty());
                    assert(is_substring(Seq::<char>::empty(), value@));
                }
                Some(empty_pattern_groups())
            },
        }
    }
}

/// The patterns that were compiled so far, each of them once.
pub struct PatternCache {
    compiled: StringHashMap<CompiledPattern>,
}

impl View for PatternCache {
    type V = Set<Seq<char>>;

    /// The patterns that the cache holds.
    closed spec fn view(&self) -> Set<Seq<char>> {
        self.compiled@.dom()
    }
}

impl PatternCache {
    /// Every pattern is kept with the expression that it compiles to.
    pub closed spec fn well_formed(self) -> bool {
        forall|pattern: Seq<char>| #[trigger]
            self.compiled@.contains_key(pattern) ==> pattern_failure(pattern) is None
                && self.compiled@[pattern].pattern() == pattern
    }

    /// A cache without patterns.
    pub fn new() -> (cache: PatternCache)
        ensures
            cache.well_formed(),
            cache@ == Set::<Seq<char>>::empty(),
    {
        let cache = PatternCache { compiled: StringHashMap::new() };
        assert(cache@ =~= Set::<Seq<char>>::empty());
        cache
    }

    /// Searches a text for a pattern, which is compiled where the cache does not hold it.
    ///
    /// What comes back does not depend on what the cache holds.
    pub fn groups(&mut self, pattern: &str, value: &str) -> (groups: Result<
        Option<Vec<Option<String>>>,
        MatchError,
    >)
        requires
            old(self).well_formed(),
        ensures
            final(self).well_formed(),
            match groups {
                Ok(found) => {
                    &&& pattern_failure(pattern@) is None
                    &&& found.deep_view() == pattern_groups(pattern@, value@)
                    &&& found matches Some(some) ==> groups_within(
                        some.deep_view(),
                        pattern@,
                        value@,
                    )
                    &&& final(self)@ == old(self)@.insert(pattern@)
                },
                Err(error) => {
                    &&& pattern_failure(pattern@) matches Some(text)
                    &&& error@ == MatchErrorView::InvalidPattern(text)
                    &&& final(self)@ == old(self)@
                },
            },
    {
        if !self.compiled.contains_key(pattern) {
            match CompiledPattern::new(pattern) {
                Ok(compiled) => self.compiled.insert(pattern.to_string(), compiled),
                Err(error) => return Err(error),
            }
        }
        assert(self@ =~= old(self)@.insert(pattern@));
        let compiled = self.compiled.get(pattern).unwrap();
        Ok(compiled.groups(value))
    }
}

} // verus!
