//! What holds of the matching of rows.

use crate::engine::{compile_failure, regex_captures, regex_group_count};
use crate::error::MatchErrorView;
use crate::groups::{selected, Selection};
use crate::laws::{law_fails_with_a_refused_pattern, law_first_refused_pattern_counts};
use crate::matching::{repeated, row_failure, row_lists, rows_outcome, scalar_outcome, zipped};
use crate::pattern::{complete, group_count, pattern_failure, pattern_groups};
use vstd::prelude::*;

verus! {

/// Flag letters stand before the pattern as an inline flag group, whatever the pattern is. Flags
/// without letters, and null flags, leave the pattern as it is.
pub proof fn law_flags_stand_before_the_pattern(pattern: Seq<char>, letters: Seq<char>)
    ensures
        letters.len() > 0 ==> complete(pattern, Some(letters)) == "(?"@ + letters + ")"@ + pattern,
        letters.len() == 0 ==> complete(pattern, Some(letters)) == pattern,
        complete(pattern, None) == pattern,
{
}

/// What is found of a pattern with characters, and whether it is accepted, is what the engine
/// says of that very pattern. A pattern without characters is accepted and finds the empty string.
pub proof fn law_patterns_are_the_engines(pattern: Seq<char>, value: Seq<char>)
    ensures
        pattern.len() > 0 ==> {
            &&& pattern_groups(pattern, value) == regex_captures(pattern, value)
            &&& pattern_failure(pattern) == compile_failure(pattern)
            &&& group_count(pattern) == regex_group_count(pattern)
        },
        pattern.len() == 0 ==> {
            &&& pattern_groups(pattern, value) == Some(seq![Some(Seq::<char>::empty())])
            &&& pattern_failure(pattern) is None
            &&& group_count(pattern) == 1
        },
{
}

/// Every group is taken, in order and without the whole match where there are others. One group
/// is taken by its number, and nothing where it is missing or took no part.
pub proof fn law_selection(groups: Seq<Option<Seq<char>>>, number: u32)
    ensures
        selected(None, Selection::All) is None,
        selected(None, Selection::Nth(number)) is None,
        selected(Some(groups), Selection::All) matches Some(list) && {
            &&& groups.len() <= 1 ==> list == groups
            &&& groups.len() > 1 ==> {
                &&& list.len() == groups.len() - 1
                &&& forall|n: int| 1 <= n < groups.len() ==> list[n - 1] == #[trigger] groups[n]
            }
        },
        number < groups.len() && groups[number as int] is Some ==> selected(
            Some(groups),
            Selection::Nth(number),
        ) == Some(seq![groups[number as int]]),
        number >= groups.len() || groups[number as int] is None ==> selected(
            Some(groups),
            Selection::Nth(number),
        ) is None,
{
}

/// The list of a row holds the groups that the engine found in the row's string of the row's
/// pattern, behind its flags. With an index it holds the group of that number alone.
pub proof fn law_row_holds_captures(
    values: Seq<Option<Seq<char>>>,
    patterns: Seq<Option<Seq<char>>>,
    flags: Option<Seq<Option<Seq<char>>>>,
    indices: Option<Seq<Option<u32>>>,
    lists: Seq<Option<Seq<Option<Seq<char>>>>>,
    row: int,
    value: Seq<char>,
    pattern: Seq<char>,
    whole: Seq<char>,
)
    requires
        rows_outcome(zipped(values, patterns, flags, indices)) == Ok::<_, MatchErrorView>(lists),
        0 <= row < lists.len(),
        values[row] == Some(value),
        patterns[row] == Some(pattern),
        whole == match (match flags {
            Some(all) => all[row],
            None => None,
        }) {
            Some(letters) if letters.len() > 0 => "(?"@ + letters + ")"@ + pattern,
            _ => pattern,
        },
    ensures
        indices is None && whole.len() == 0 ==> lists[row] == Some(
            seq![Some(Seq::<char>::empty())],
        ),
        indices is None && whole.len() > 0 ==> match regex_captures(whole, value) {
            Some(groups) => lists[row] matches Some(list) && {
                &&& groups.len() <= 1 ==> list == groups
                &&& groups.len() > 1 ==> {
                    &&& list.len() == groups.len() - 1
                    &&& forall|n: int| 1 <= n < groups.len() ==> list[n - 1] == #[trigger] groups[n]
                }
            },
            None => lists[row] is None,
        },
        indices matches Some(numbers) ==> (whole.len() == 0 ==> lists[row] == if numbers[row]
            == Some(0u32) {
            Some(seq![Some(Seq::<char>::empty())])
        } else {
            None
        }),
        indices matches Some(numbers) ==> (whole.len() > 0 ==> match (
            regex_captures(whole, value),
            numbers[row],
        ) {
            (Some(groups), Some(number)) => lists[row] == if number < groups.len()
                && groups[number as int] is Some {
                Some(seq![groups[number as int]])
            } else {
                None
            },
            _ => lists[row] is None,
        }),
{
}

/// A null string, pattern or index makes the list null.
pub proof fn law_row_with_null_is_null(
    values: Seq<Option<Seq<char>>>,
    patterns: Seq<Option<Seq<char>>>,
    flags: Option<Seq<Option<Seq<char>>>>,
    indices: Option<Seq<Option<u32>>>,
    lists: Seq<Option<Seq<Option<Seq<char>>>>>,
    row: int,
)
    requires
        rows_outcome(zipped(values, patterns, flags, indices)) == Ok::<_, MatchErrorView>(lists),
        0 <= row < lists.len(),
        values[row] is None || patterns[row] is None || (indices matches Some(numbers)
            && numbers[row] is None),
    ensures
        lists[row] is None,
{
}

/// Where the engine accepts the pattern of every row without a null, there is a list or a null
/// for each row that all columns have.
pub proof fn law_accepted_rows_succeed(
    values: Seq<Option<Seq<char>>>,
    patterns: Seq<Option<Seq<char>>>,
    flags: Option<Seq<Option<Seq<char>>>>,
    indices: Option<Seq<Option<u32>>>,
)
    requires
        forall|i: int|
            0 <= i < values.len() && i < patterns.len() && (flags matches Some(all) ==> i
                < all.len()) && (indices matches Some(numbers) ==> i < numbers.len()
                && numbers[i] is Some) && values[i] is Some ==> (#[trigger] patterns[i] matches Some(
                pattern,
            ) ==> ({
                let whole = match (match flags {
                    Some(all) => all[i],
                    None => None,
                }) {
                    Some(letters) if letters.len() > 0 => "(?"@ + letters + ")"@ + pattern,
                    _ => pattern,
                };
                whole.len() == 0 || compile_failure(whole) is None
            })),
    ensures
        rows_outcome(zipped(values, patterns, flags, indices)) matches Ok(lists) && {
            &&& lists.len() <= values.len()
            &&& lists.len() <= patterns.len()
            &&& flags matches Some(all) ==> lists.len() <= all.len()
            &&& indices matches Some(numbers) ==> lists.len() <= numbers.len()
            &&& lists.len() == values.len() || lists.len() == patterns.len() || (
            flags matches Some(all) && lists.len() == all.len()) || (indices matches Some(numbers)
                && lists.len() == numbers.len())
        },
{
    let rows = zipped(values, patterns, flags, indices);
    assert forall|i: int| 0 <= i < rows.len() implies row_failure(#[trigger] rows[i]) is None by {
        let pattern = patterns[i];
    }
    law_fails_with_a_refused_pattern(rows);
}

/// The first row without a null whose pattern the engine refuses fails the whole with the
/// engine's error for that pattern.
pub proof fn law_first_refused_row_fails(
    values: Seq<Option<Seq<char>>>,
    patterns: Seq<Option<Seq<char>>>,
    flags: Option<Seq<Option<Seq<char>>>>,
    indices: Option<Seq<Option<u32>>>,
    row: int,
    pattern: Seq<char>,
    whole: Seq<char>,
    text: Seq<char>,
)
    requires
        0 <= row < values.len(),
        row < patterns.len(),
        flags matches Some(all) ==> row < all.len(),
        indices matches Some(numbers) ==> row < numbers.len() && numbers[row] is Some,
        values[row] is Some,
        patterns[row] == Some(pattern),
        whole == match (match flags {
            Some(all) => all[row],
            None => None,
        }) {
            Some(letters) if letters.len() > 0 => "(?"@ + letters + ")"@ + pattern,
            _ => pattern,
        },
        whole.len() > 0,
        compile_failure(whole) == Some(text),
        forall|i: int|
            0 <= i < row && (indices matches Some(numbers) ==> numbers[i] is Some)
                && values[i] is Some ==> (#[trigger] patterns[i] matches Some(earlier) ==> ({
                let before = match (match flags {
                    Some(all) => all[i],
                    None => None,
                }) {
                    Some(letters) if letters.len() > 0 => "(?"@ + letters + ")"@ + earlier,
                    _ => earlier,
                };
                before.len() == 0 || compile_failure(before) is None
            })),
    ensures
        rows_outcome(zipped(values, patterns, flags, indices)) == Err::<
            Seq<Option<Seq<Option<Seq<char>>>>>,
            _,
        >(MatchErrorView::InvalidPattern(text)),
{
    let rows = zipped(values, patterns, flags, indices);
    assert forall|i: int| 0 <= i < row implies row_failure(#[trigger] rows[i]) is None by {
        let earlier = patterns[i];
    }
    law_first_refused_pattern_counts(rows, row);
}

/// Under one pattern, the list of each row holds the groups that the engine found of it in the
/// row's string.
pub proof fn law_repeated_pattern_holds_captures(
    values: Seq<Option<Seq<char>>>,
    pattern: Seq<char>,
    row: int,
)
    requires
        0 <= row < values.len(),
    ensures
        ({
            let lists = row_lists(repeated(values, Some(pattern)));
            &&& lists.len() == values.len()
            &&& values[row] is None ==> lists[row] is None
            &&& values[row] is Some && pattern.len() == 0 ==> lists[row] == Some(
                seq![Some(Seq::<char>::empty())],
            )
            &&& values[row] matches Some(value) ==> (pattern.len() > 0 ==> match regex_captures(
                pattern,
                value,
            ) {
                Some(groups) => lists[row] matches Some(list) && {
                    &&& groups.len() <= 1 ==> list == groups
                    &&& groups.len() > 1 ==> {
                        &&& list.len() == groups.len() - 1
                        &&& forall|n: int|
                            1 <= n < groups.len() ==> list[n - 1] == #[trigger] groups[n]
                    }
                },
                None => lists[row] is None,
            })
        }),
{
}

/// One pattern fails exactly where the engine refuses it. A null pattern makes every list null.
pub proof fn law_one_pattern_is_accepted_or_not(
    values: Seq<Option<Seq<char>>>,
    pattern: Seq<char>,
)
    ensures
        pattern.len() == 0 || compile_failure(pattern) is None ==> scalar_outcome(
            values,
            Some(pattern),
        ) == Ok::<_, MatchErrorView>(row_lists(repeated(values, Some(pattern)))),
        pattern.len() > 0 ==> (compile_failure(pattern) matches Some(text) ==> scalar_outcome(
            values,
            Some(pattern),
        ) == Err::<Seq<Option<Seq<Option<Seq<char>>>>>, _>(MatchErrorView::InvalidPattern(text))),
        scalar_outcome(values, None) matches Ok(lists) && lists.len() == values.len() && forall|
            i: int,
        |
            0 <= i < lists.len() ==> #[trigger] lists[i] is None,
{
}

} // verus!
