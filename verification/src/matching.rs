//! Matching rows of text against patterns.

use crate::error::{MatchError, MatchErrorView};
use crate::groups::{select_groups, selected, Selection};
use crate::pattern::{complete_pattern, CompiledPattern, PatternCache};
use crate::pattern::{completed, group_count, groups_within, pattern_failure, pattern_groups};
use vstd::prelude::*;

verus! {

/// What is known of one row: the text to search, the pattern with its flags written into it, and
/// what is taken from a match. Each of them can be null.
pub struct RowView {
    pub value: Option<Seq<char>>,
    pub pattern: Option<Seq<char>>,
    pub selection: Option<Selection>,
}

/// The engine's error for a row, where the row needs a pattern that the engine refuses.
///
/// A row with a null needs no pattern.
pub open spec fn row_failure(row: RowView) -> Option<Seq<char>> {
    match (row.value, row.pattern, row.selection) {
        (Some(_), Some(pattern), Some(_)) => pattern_failure(pattern),
        _ => None,
    }
}

/// The list of a row whose pattern the engine accepts, or `None` where the row's list is null.
pub open spec fn row_list(row: RowView) -> Option<Seq<Option<Seq<char>>>> {
    match (row.value, row.pattern, row.selection) {
        (Some(value), Some(pattern), Some(selection)) => selected(
            pattern_groups(pattern, value),
            selection,
        ),
        _ => None,
    }
}

/// The engine's error for the first row that has one.
pub open spec fn first_failure(rows: Seq<RowView>) -> Option<Seq<char>>
    decreases rows.len(),
{
    if rows.len() == 0 {
        None
    } else {
        match first_failure(rows.drop_last()) {
            Some(text) => Some(text),
            None => row_failure(rows.last()),
        }
    }
}

/// The lists of the rows, or the engine's error for the first row that has one.
pub open spec fn rows_outcome(rows: Seq<RowView>) -> Result<
    Seq<Option<Seq<Option<Seq<char>>>>>,
    MatchErrorView,
> {
    match first_failure(rows) {
        Some(text) => Err(MatchErrorView::InvalidPattern(text)),
        None => Ok(row_lists(rows)),
    }
}

/// The number of rows for which every given column has one.
pub open spec fn zipped_len(
    values: Seq<Option<Seq<char>>>,
    patterns: Seq<Option<Seq<char>>>,
    flags: Option<Seq<Option<Seq<char>>>>,
    indices: Option<Seq<Option<u32>>>,
) -> nat {
    let pairs = if values.len() <= patterns.len() {
        values.len()
    } else {
        patterns.len()
    };
    let flagged = match flags {
        Some(letters) if letters.len() < pairs => letters.len(),
        _ => pairs,
    };
    match indices {
        Some(numbers) if numbers.len() < flagged => numbers.len(),
        _ => flagged,
    }
}

/// The rows that the given columns make up. They end with the shortest column.
///
/// Without flags no pattern has any. Without indices every group is taken.
pub open spec fn zipped(
    values: Seq<Option<Seq<char>>>,
    patterns: Seq<Option<Seq<char>>>,
    flags: Option<Seq<Option<Seq<char>>>>,
    indices: Option<Seq<Option<u32>>>,
) -> Seq<RowView> {
    Seq::new(
        zipped_len(values, patterns, flags, indices),
        |i: int|
            RowView {
                value: values[i],
                pattern: completed(
                    patterns[i],
                    match flags {
                        Some(letters) => letters[i],
                        None => None,
                    },
                ),
                selection: match indices {
                    Some(numbers) => match numbers[i] {
                        Some(number) => Some(Selection::Nth(number)),
                        None => None,
                    },
                    None => Some(Selection::All),
                },
            },
    )
}

/// The rows that a column of strings makes up with one pattern, its flags written into it.
pub open spec fn repeated(values: Seq<Option<Seq<char>>>, pattern: Option<Seq<char>>) -> Seq<
    RowView,
> {
    Seq::new(
        values.len(),
        |i: int| RowView { value: values[i], pattern, selection: Some(Selection::All) },
    )
}

/// The lists of rows whose patterns the engine accepts.
pub open spec fn row_lists(rows: Seq<RowView>) -> Seq<Option<Seq<Option<Seq<char>>>>> {
    Seq::new(rows.len(), |i: int| row_list(rows[i]))
}

/// The lists of `values` under one pattern, its flags written into it. The pattern is compiled
/// whether or not a row needs it. A null pattern makes every list null.
pub open spec fn scalar_outcome(
    values: Seq<Option<Seq<char>>>,
    pattern: Option<Seq<char>>,
) -> Result<Seq<Option<Seq<Option<Seq<char>>>>>, MatchErrorView> {
    match pattern {
        Some(text) if pattern_failure(text) is Some => Err(
            MatchErrorView::InvalidPattern(pattern_failure(text)->0),
        ),
        _ => Ok(row_lists(repeated(values, pattern))),
    }
}

/// Whether a list follows the groups of its row's pattern.
///
/// Where every group is taken, the list of a match has one element for each group of the pattern:
/// the n'th element is what the n'th group matched. Where the pattern has no group, it has one
/// element, the whole match. Where one group is taken, the list has one element, what that group
/// matched, and is null where the pattern has no such group or the group took no part. Without a
/// match, or with a null in the row, the list is null.
pub open spec fn follows_groups(list: Option<Seq<Option<Seq<char>>>>, row: RowView) -> bool {
    match (row.value, row.pattern, row.selection) {
        (Some(value), Some(pattern), Some(selection)) => match pattern_groups(pattern, value) {
            Some(groups) => {
                &&& groups_within(groups, pattern, value)
                &&& match selection {
                    Selection::All => {
                        &&& list matches Some(elements)
                        &&& group_count(pattern) == 1 ==> elements == seq![groups[0]]
                        &&& group_count(pattern) > 1 ==> {
                            &&& elements.len() == group_count(pattern) - 1
                            &&& forall|n: int|
                                1 <= n < group_count(pattern) ==> elements[n - 1]
                                    == #[trigger] groups[n]
                        }
                    },
                    Selection::Nth(number) => list == if number < group_count(pattern)
                        && groups[number as int] is Some {
                        Some(seq![groups[number as int]])
                    } else {
                        None
                    },
                }
            },
            None => list is None,
        },
        _ => list is None,
    }
}

/// Whether every list follows the groups of its row's pattern.
pub open spec fn all_follow_groups(
    lists: Seq<Option<Seq<Option<Seq<char>>>>>,
    rows: Seq<RowView>,
) -> bool {
    &&& lists.len() == rows.len()
    &&& forall|i: int| 0 <= i < lists.len() ==> follows_groups(#[trigger] lists[i], rows[i])
}

/// What is selected from the groups of a match follows them.
proof fn lemma_selected_follows_groups(row: RowView)
    requires
        row.value matches Some(value) && row.pattern matches Some(pattern) && pattern_groups(
            pattern,
            value,
        ) matches Some(found) ==> groups_within(found, pattern, value),
    ensures
        follows_groups(row_list(row), row),
{
    if let (Some(value), Some(pattern)) = (row.value, row.pattern) {
        if let Some(found) = pattern_groups(pattern, value) {
            if found.len() == 1 {
                assert(found =~= seq![found[0]]);
            }
        }
    }
}

/// Matches one row.
fn match_row(
    cache: &mut PatternCache,
    value: &Option<String>,
    pattern: &Option<String>,
    flags: Option<&str>,
    selection: Option<Selection>,
) -> (list: Result<Option<Vec<Option<String>>>, MatchError>)
    requires
        old(cache).well_formed(),
    ensures
        final(cache).well_formed(),
        ({
            let row = RowView {
                value: value.deep_view(),
                pattern: completed(pattern.deep_view(), flags.deep_view()),
                selection,
            };
            match list {
                Ok(found) => row_failure(row) is None && found.deep_view() == row_list(row)
                    && follows_groups(found.deep_view(), row),
                Err(error) => row_failure(row) matches Some(text) && error@
                    == MatchErrorView::InvalidPattern(text),
            }
        }),
{
    match (value, pattern, selection) {
        (Some(value), Some(pattern), Some(selection)) => {
            let whole = complete_pattern(pattern.as_str(), flags);
            match cache.groups(whole.as_str(), value.as_str()) {
                Ok(groups) => {
                    proof {
                        lemma_selected_follows_groups(
                            RowView {
                                value: Some(value@),
                                pattern: Some(whole@),
                                selection: Some(selection),
                            },
                        );
                    }
                    Ok(select_groups(groups, selection))
                },
                Err(error) => Err(error),
            }
        },
        _ => Ok(None),
    }
}

/// Matches each row of `values` against the pattern of the same row.
///
/// A pattern is compiled once, where a row first needs it. The first row whose pattern the
/// engine refuses ends the matching with the engine's error.
pub fn match_rows(
    values: &Vec<Option<String>>,
    patterns: &Vec<Option<String>>,
    flags: Option<&Vec<Option<String>>>,
    indices: Option<&Vec<Option<u32>>>,
) -> (lists: Result<Vec<Option<Vec<Option<String>>>>, MatchError>)
    ensures
        ({
            let rows = zipped(
                values.deep_view(),
                patterns.deep_view(),
                flags.deep_view(),
                indices.deep_view(),
            );
            match lists {
                Ok(found) => rows_outcome(rows) == Ok::<_, MatchErrorView>(found.deep_view())
                    && all_follow_groups(found.deep_view(), rows),
                Err(error) => rows_outcome(rows) == Err::<
                    Seq<Option<Seq<Option<Seq<char>>>>>,
                    _,
                >(error@),
            }
        }),
{
    let ghost rows = zipped(
        values.deep_view(),
        patterns.deep_view(),
        flags.deep_view(),
        indices.deep_view(),
    );
    let mut len: usize = values.len();
    if patterns.len() < len {
        len = patterns.len();
    }
    if let Some(letters) = flags {
        if letters.len() < len {
            len = letters.len();
        }
    }
    if let Some(numbers) = indices {
        if numbers.len() < len {
            len = numbers.len();
        }
    }
    assert(len == rows.len());
    let mut cache = PatternCache::new();
    let mut lists: Vec<Option<Vec<Option<String>>>> = Vec::new();
    let mut i: usize = 0;
    while i < len
        invariant
            i <= len,
            len == rows.len(),
            rows == zipped(
                values.deep_view(),
                patterns.deep_view(),
                flags.deep_view(),
                indices.deep_view(),
            ),
            cache.well_formed(),
            first_failure(rows.take(i as int)) is None,
            lists.deep_view() == row_lists(rows.take(i as int)),
            all_follow_groups(lists.deep_view(), rows.take(i as int)),
        decreases len - i,
    {
        let letters = match flags {
            Some(column) => match &column[i] {
                Some(text) => Some(text.as_str()),
                None => None,
            },
            None => None,
        };
        let selection = match indices {
            Some(numbers) => match numbers[i] {
                Some(number) => Some(Selection::Nth(number)),
                None => None,
            },
            None => Some(Selection::All),
        };
        let ghost before = lists.deep_view();
        proof {
            assert(rows.take(i + 1).drop_last() =~= rows.take(i as int));
            assert(rows[i as int] == RowView {
                value: values[i as int].deep_view(),
                pattern: completed(patterns[i as int].deep_view(), letters.deep_view()),
                selection,
            });
        }
        match match_row(&mut cache, &values[i], &patterns[i], letters, selection) {
            Ok(list) => lists.push(list),
            Err(error) => {
                proof {
                    lemma_first_failure_extends(rows, i + 1);
                }
                return Err(error);
            },
        }
        assert(lists.deep_view() =~= before.push(row_list(rows[i as int])));
        i = i + 1;
        assert(lists.deep_view() =~= row_lists(rows.take(i as int)));
    }
    assert(rows.take(len as int) =~= rows);
    Ok(lists)
}

/// Rows after the first failure do not change it.
proof fn lemma_first_failure_extends(rows: Seq<RowView>, n: int)
    requires
        0 <= n <= rows.len(),
        first_failure(rows.take(n)) is Some,
    ensures
        first_failure(rows) == first_failure(rows.take(n)),
    decreases rows.len() - n,
{
    if n == rows.len() {
        assert(rows.take(n) =~= rows);
    } else {
        assert(rows.take(n + 1).drop_last() =~= rows.take(n));
        lemma_first_failure_extends(rows, n + 1);
    }
}

/// Matches each row of `values` against one compiled pattern.
pub fn match_pattern(values: &Vec<Option<String>>, pattern: &CompiledPattern) -> (lists: Vec<
    Option<Vec<Option<String>>>,
>)
    ensures
        ({
            let rows = repeated(values.deep_view(), Some(pattern.pattern()));
            lists.deep_view() == row_lists(rows) && all_follow_groups(lists.deep_view(), rows)
        }),
{
    let ghost rows = repeated(values.deep_view(), Some(pattern.pattern()));
    let mut lists: Vec<Option<Vec<Option<String>>>> = Vec::new();
    let mut i: usize = 0;
    while i < values.len()
        invariant
            i <= values.len(),
            rows == repeated(values.deep_view(), Some(pattern.pattern())),
            lists.deep_view() == row_lists(rows.take(i as int)),
            all_follow_groups(lists.deep_view(), rows.take(i as int)),
        decreases values.len() - i,
    {
        let ghost before = lists.deep_view();
        let list = match &values[i] {
            Some(value) => {
                let groups = pattern.groups(value.as_str());
                proof {
                    lemma_selected_follows_groups(rows[i as int]);
                }
                select_groups(groups, Selection::All)
            },
            None => None,
        };
        lists.push(list);
        assert(lists.deep_view() =~= before.push(row_list(rows[i as int])));
        i = i + 1;
        assert(lists.deep_view() =~= row_lists(rows.take(i as int)));
    }
    assert(rows.take(values.len() as int) =~= rows);
    lists
}

} // verus!
