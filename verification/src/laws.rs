//! What holds of the kernels as a whole.

use crate::column::{column_kind, index_rows, text_rows};
use crate::column::{Column, ColumnKind, Datum, StringType};
use crate::engine::{is_substring, regex_captures};
use crate::error::MatchErrorView;
use crate::groups::Selection;
use crate::list::ListColumnView;
use crate::matching::{all_follow_groups, follows_groups, row_failure, row_list, row_lists};
use crate::matching::{rows_outcome, zipped, zipped_len, RowView};
use crate::pattern::{completed, group_count, pattern_failure, pattern_groups};
use crate::regexp_extract::{
    accepted_types, extract_outcome, return_type_outcome, DataTypeView, ExtractErrorView,
};
use crate::regexp_match::{argument_failure, match_outcome, matched_rows};
use crate::regexp_match::{group_argument_failure, group_rows};
use vstd::prelude::*;

verus! {

/// The pattern, with its flags written into it, that [`regexp_match`] uses for a row.
///
/// [`regexp_match`]: crate::regexp_match::regexp_match
pub open spec fn row_pattern(regex_array: Datum, flags_array: Option<&Datum>, row: int) -> Option<
    Seq<char>,
> {
    let place = if regex_array.is_scalar {
        0
    } else {
        row
    };
    completed(
        text_rows(regex_array.column)[place],
        match flags_array {
            Some(flags) => text_rows(flags.column)[place],
            None => None,
        },
    )
}

/// The list of a row depends on the string, the pattern and the flags of that row alone.
pub proof fn law_rows_are_independent(
    array: Column,
    regex_array: Datum,
    flags_array: Option<&Datum>,
    row: int,
)
    requires
        match_outcome(array, regex_array, flags_array) matches Ok(lists) && 0 <= row
            < lists.rows.len(),
    ensures
        match_outcome(array, regex_array, flags_array)->Ok_0.rows[row] == row_list(
            RowView {
                value: text_rows(array)[row],
                pattern: row_pattern(regex_array, flags_array, row),
                selection: Some(Selection::All),
            },
        ),
{
}

/// A null string or a null pattern makes the list null.
pub proof fn law_null_gives_null(
    array: Column,
    regex_array: Datum,
    flags_array: Option<&Datum>,
    row: int,
)
    requires
        match_outcome(array, regex_array, flags_array) matches Ok(lists) && 0 <= row
            < lists.rows.len(),
        text_rows(array)[row] is None || row_pattern(regex_array, flags_array, row) is None,
    ensures
        match_outcome(array, regex_array, flags_array)->Ok_0.rows[row] is None,
{
    law_rows_are_independent(array, regex_array, flags_array, row);
}

/// Where there is no match, the list is null.
pub proof fn law_no_match_gives_null(
    array: Column,
    regex_array: Datum,
    flags_array: Option<&Datum>,
    row: int,
)
    requires
        match_outcome(array, regex_array, flags_array) matches Ok(lists) && 0 <= row
            < lists.rows.len(),
        text_rows(array)[row] matches Some(value) && row_pattern(regex_array, flags_array, row)
            matches Some(pattern) && pattern.len() > 0 && regex_captures(pattern, value) is None,
    ensures
        match_outcome(array, regex_array, flags_array)->Ok_0.rows[row] is None,
{
    law_rows_are_independent(array, regex_array, flags_array, row);
}

/// A match of a pattern without capturing groups gives a list of one element, the substring that
/// the whole pattern matched.
///
/// Here and below, `lists` is what [`regexp_match`] returned: its contract promises that they
/// follow the groups of the patterns.
///
/// [`regexp_match`]: crate::regexp_match::regexp_match
pub proof fn law_whole_match(
    array: Column,
    regex_array: Datum,
    flags_array: Option<&Datum>,
    lists: ListColumnView,
    row: int,
    value: Seq<char>,
    pattern: Seq<char>,
    groups: Seq<Option<Seq<char>>>,
)
    requires
        match_outcome(array, regex_array, flags_array) == Ok::<_, MatchErrorView>(lists),
        all_follow_groups(lists.rows, matched_rows(array, regex_array, flags_array)),
        0 <= row < lists.rows.len(),
        text_rows(array)[row] == Some(value),
        row_pattern(regex_array, flags_array, row) == Some(pattern),
        group_count(pattern) == 1,
        pattern_groups(pattern, value) == Some(groups),
    ensures
        lists.rows[row] == Some(seq![groups[0]]),
        groups[0] matches Some(whole) && is_substring(whole, value),
{
    assert(follows_groups(
        lists.rows[row],
        matched_rows(array, regex_array, flags_array)[row],
    ));
}

/// A match of a pattern with capturing groups gives a list with one element for each group of the
/// pattern: the n'th element is what the n'th group matched.
pub proof fn law_nth_element_is_nth_group(
    array: Column,
    regex_array: Datum,
    flags_array: Option<&Datum>,
    lists: ListColumnView,
    row: int,
    value: Seq<char>,
    pattern: Seq<char>,
    groups: Seq<Option<Seq<char>>>,
)
    requires
        match_outcome(array, regex_array, flags_array) == Ok::<_, MatchErrorView>(lists),
        all_follow_groups(lists.rows, matched_rows(array, regex_array, flags_array)),
        0 <= row < lists.rows.len(),
        text_rows(array)[row] == Some(value),
        row_pattern(regex_array, flags_array, row) == Some(pattern),
        group_count(pattern) > 1,
        pattern_groups(pattern, value) == Some(groups),
    ensures
        lists.rows[row] matches Some(list) && {
            &&& list.len() == group_count(pattern) - 1
            &&& forall|n: int| 1 <= n < group_count(pattern) ==> list[n - 1] == #[trigger] groups[n]
        },
{
    assert(follows_groups(
        lists.rows[row],
        matched_rows(array, regex_array, flags_array)[row],
    ));
}

/// Every element of a list is a substring of the row's string, or null.
pub proof fn law_elements_are_substrings(
    array: Column,
    regex_array: Datum,
    flags_array: Option<&Datum>,
    lists: ListColumnView,
    row: int,
    n: int,
)
    requires
        match_outcome(array, regex_array, flags_array) == Ok::<_, MatchErrorView>(lists),
        all_follow_groups(lists.rows, matched_rows(array, regex_array, flags_array)),
        0 <= row < lists.rows.len(),
        lists.rows[row] matches Some(list) && 0 <= n < list.len(),
    ensures
        text_rows(array)[row] matches Some(value) && (lists.rows[row]->0[n] matches Some(part)
            ==> is_substring(part, value)),
{
    let matched = matched_rows(array, regex_array, flags_array)[row];
    assert(follows_groups(lists.rows[row], matched));
    let groups = pattern_groups(matched.pattern->0, matched.value->0)->0;
    if group_count(matched.pattern->0) > 1 {
        assert(lists.rows[row]->0[n + 1 - 1] == groups[n + 1]);
    } else {
        assert(lists.rows[row]->0[n] == groups[0]);
    }
}

/// An empty pattern gives the list of the empty string for every string.
pub proof fn law_empty_pattern(
    array: Column,
    regex_array: Datum,
    flags_array: Option<&Datum>,
    row: int,
)
    requires
        match_outcome(array, regex_array, flags_array) matches Ok(lists) && 0 <= row
            < lists.rows.len(),
        text_rows(array)[row] is Some,
        row_pattern(regex_array, flags_array, row) == Some(Seq::<char>::empty()),
    ensures
        match_outcome(array, regex_array, flags_array)->Ok_0.rows[row] == Some(
            seq![Some(Seq::<char>::empty())],
        ),
{
    law_rows_are_independent(array, regex_array, flags_array, row);
}

/// Empty patterns are always accepted, single or in a column, and give the list of the empty
/// string for every string.
pub proof fn law_empty_patterns_succeed(
    array: Column,
    regex_array: Datum,
    flags_array: Option<&Datum>,
)
    requires
        argument_failure(array, regex_array, flags_array) is None,
        regex_array.is_scalar ==> row_pattern(regex_array, flags_array, 0) == Some(
            Seq::<char>::empty(),
        ),
        !regex_array.is_scalar ==> forall|i: int|
            0 <= i < matched_rows(array, regex_array, flags_array).len() ==> #[trigger] row_pattern(
                regex_array,
                flags_array,
                i,
            ) == Some(Seq::<char>::empty()),
    ensures
        match_outcome(array, regex_array, flags_array) == Ok::<_, MatchErrorView>(
            ListColumnView {
                item_type: column_kind(array)->Text_0,
                rows: Seq::new(
                    matched_rows(array, regex_array, flags_array).len(),
                    |i: int|
                        match text_rows(array)[i] {
                            Some(_) => Some(seq![Some(Seq::<char>::empty())]),
                            None => None,
                        },
                ),
            },
        ),
{
    let rows = matched_rows(array, regex_array, flags_array);
    assert forall|i: int| 0 <= i < rows.len() implies row_failure(#[trigger] rows[i]) is None
        && row_list(rows[i]) == match text_rows(array)[i] {
        Some(_) => Some(seq![Some(Seq::<char>::empty())]),
        None => None,
    } by {
        assert(rows[i].pattern == row_pattern(regex_array, flags_array, i));
    }
    law_fails_with_a_refused_pattern(rows);
    assert(row_lists(rows) =~= Seq::new(
        rows.len(),
        |i: int|
            match text_rows(array)[i] {
                Some(_) => Some(seq![Some(Seq::<char>::empty())]),
                None => None,
            },
    ));
}

/// The result has the element type of the searched column. It has one row for each row of the
/// searched column under a single pattern, and else one for each row that every column has.
pub proof fn law_result_shape(array: Column, regex_array: Datum, flags_array: Option<&Datum>)
    requires
        match_outcome(array, regex_array, flags_array) is Ok,
    ensures
        ({
            let lists = match_outcome(array, regex_array, flags_array)->Ok_0;
            &&& column_kind(array) == ColumnKind::Text(lists.item_type)
            &&& regex_array.is_scalar ==> lists.rows.len() == text_rows(array).len()
            &&& !regex_array.is_scalar ==> {
                &&& lists.rows.len() <= text_rows(array).len()
                &&& lists.rows.len() <= text_rows(regex_array.column).len()
                &&& flags_array matches Some(flags) ==> lists.rows.len() <= text_rows(
                    flags.column,
                ).len()
                &&& lists.rows.len() == text_rows(array).len() || lists.rows.len() == text_rows(
                    regex_array.column,
                ).len() || (flags_array matches Some(flags) && lists.rows.len() == text_rows(
                    flags.column,
                ).len())
            }
        }),
{
}

/// Columns are matched only where they are all of one and the same string type.
pub proof fn law_one_string_type(array: Column, regex_array: Datum, flags_array: Option<&Datum>)
    requires
        match_outcome(array, regex_array, flags_array) is Ok,
    ensures
        column_kind(array) is Text,
        column_kind(regex_array.column) == column_kind(array),
        flags_array matches Some(flags) ==> column_kind(flags.column) == column_kind(array),
{
}

/// The three string layouts are treated alike: the same texts give the same lists, or the same
/// error.
pub proof fn law_layouts_are_alike(
    array: Column,
    regex_array: Datum,
    flags_array: Option<&Datum>,
    other_array: Column,
    other_regex_array: Datum,
    other_flags_array: Option<&Datum>,
)
    requires
        argument_failure(array, regex_array, flags_array) is None,
        argument_failure(other_array, other_regex_array, other_flags_array) is None,
        regex_array.is_scalar == other_regex_array.is_scalar,
        text_rows(array) == text_rows(other_array),
        text_rows(regex_array.column) == text_rows(other_regex_array.column),
        match (flags_array, other_flags_array) {
            (Some(flags), Some(other)) => text_rows(flags.column) == text_rows(other.column),
            (None, None) => true,
            _ => false,
        },
    ensures
        match (
            match_outcome(array, regex_array, flags_array),
            match_outcome(other_array, other_regex_array, other_flags_array),
        ) {
            (Ok(lists), Ok(other)) => lists.rows == other.rows,
            (Err(error), Err(other)) => error == other,
            _ => false,
        },
{
}

/// The matching of rows fails exactly where a row needs a pattern that the engine refuses.
pub proof fn law_fails_with_a_refused_pattern(rows: Seq<RowView>)
    ensures
        rows_outcome(rows) is Err <==> exists|i: int|
            0 <= i < rows.len() && row_failure(#[trigger] rows[i]) is Some,
    decreases rows.len(),
{
    if rows.len() > 0 {
        law_fails_with_a_refused_pattern(rows.drop_last());
        let init = rows.drop_last();
        if row_failure(rows.last()) is Some {
            assert(row_failure(rows[rows.len() - 1]) is Some);
        }
        if exists|i: int| 0 <= i < init.len() && row_failure(#[trigger] init[i]) is Some {
            let i = choose|i: int| 0 <= i < init.len() && row_failure(#[trigger] init[i]) is Some;
            assert(row_failure(rows[i]) is Some);
        }
        if exists|i: int| 0 <= i < rows.len() && row_failure(#[trigger] rows[i]) is Some {
            let i = choose|i: int| 0 <= i < rows.len() && row_failure(#[trigger] rows[i]) is Some;
            if i < init.len() {
                assert(row_failure(init[i]) is Some);
            }
        }
    }
}

/// The error is that of the first row that needs a refused pattern.
pub proof fn law_first_refused_pattern_counts(rows: Seq<RowView>, row: int)
    requires
        0 <= row < rows.len(),
        row_failure(rows[row]) is Some,
        forall|i: int| 0 <= i < row ==> row_failure(#[trigger] rows[i]) is None,
    ensures
        rows_outcome(rows) == Err::<Seq<Option<Seq<Option<Seq<char>>>>>, _>(
            MatchErrorView::InvalidPattern(row_failure(rows[row])->0),
        ),
    decreases rows.len(),
{
    let init = rows.drop_last();
    if row < init.len() {
        assert(forall|i: int| 0 <= i < row ==> #[trigger] init[i] == rows[i]);
        law_first_refused_pattern_counts(init, row);
    } else {
        law_fails_with_a_refused_pattern(init);
    }
}

/// A single pattern fails exactly where the engine refuses it, whatever the rows hold.
pub proof fn law_fails_with_a_refused_single_pattern(
    array: Column,
    regex_array: Datum,
    flags_array: Option<&Datum>,
)
    requires
        argument_failure(array, regex_array, flags_array) is None,
        regex_array.is_scalar,
    ensures
        match row_pattern(regex_array, flags_array, 0) {
            Some(pattern) => match pattern_failure(pattern) {
                Some(text) => match_outcome(array, regex_array, flags_array) == Err::<
                    ListColumnView,
                    _,
                >(MatchErrorView::InvalidPattern(text)),
                None => match_outcome(array, regex_array, flags_array) is Ok,
            },
            None => match_outcome(array, regex_array, flags_array) is Ok,
        },
{
}

/// A single pattern gives what a column gives that repeats it, with its flags, for every row.
///
/// A single pattern that the engine refuses is an error even where no row needs it, so the law
/// speaks of patterns that the engine accepts and of null.
pub proof fn law_single_pattern_is_repeated_pattern(
    array: Column,
    pattern: Datum,
    flags: Option<&Datum>,
    patterns: Datum,
    all_flags: Option<&Datum>,
)
    requires
        argument_failure(array, pattern, flags) is None,
        argument_failure(array, patterns, all_flags) is None,
        pattern.is_scalar,
        !patterns.is_scalar,
        row_pattern(pattern, flags, 0) matches Some(text) ==> pattern_failure(text) is None,
        text_rows(patterns.column).len() >= text_rows(array).len(),
        forall|i: int|
            0 <= i < text_rows(array).len() ==> #[trigger] text_rows(patterns.column)[i]
                == text_rows(pattern.column)[0],
        match (flags, all_flags) {
            (Some(one), Some(all)) => {
                &&& text_rows(all.column).len() >= text_rows(array).len()
                &&& forall|i: int|
                    0 <= i < text_rows(array).len() ==> #[trigger] text_rows(all.column)[i]
                        == text_rows(one.column)[0]
            },
            (None, None) => true,
            _ => false,
        },
    ensures
        match_outcome(array, pattern, flags) == match_outcome(array, patterns, all_flags),
{
    let rows = zipped(
        text_rows(array),
        text_rows(patterns.column),
        match all_flags {
            Some(all) => Some(text_rows(all.column)),
            None => None,
        },
        None,
    );
    assert(rows.len() == text_rows(array).len());
    assert forall|i: int| 0 <= i < rows.len() implies #[trigger] rows[i] == (RowView {
        value: text_rows(array)[i],
        pattern: row_pattern(pattern, flags, 0),
        selection: Some(Selection::All),
    }) by {
        assert(text_rows(patterns.column)[i] == text_rows(pattern.column)[0]);
        if let Some(all) = all_flags {
            assert(text_rows(all.column)[i] == text_rows(flags->0.column)[0]);
        }
    }
    law_fails_with_a_refused_pattern(rows);
    assert(match_outcome(array, pattern, flags)->Ok_0.rows =~= match_outcome(
        array,
        patterns,
        all_flags,
    )->Ok_0.rows);
}

/// Flags without letters are no flags: empty flags, and null flags too.
pub proof fn law_empty_flags_are_no_flags(array: Column, regex_array: Datum, flags: &Datum)
    requires
        argument_failure(array, regex_array, Some(flags)) is None,
        regex_array.is_scalar ==> (text_rows(flags.column)[0] matches Some(letters)
            ==> letters.len() == 0),
        !regex_array.is_scalar ==> {
            &&& text_rows(flags.column).len() >= zipped_len(
                text_rows(array),
                text_rows(regex_array.column),
                None,
                None,
            )
            &&& forall|i: int|
                0 <= i < text_rows(flags.column).len() ==> (#[trigger] text_rows(
                    flags.column,
                )[i] matches Some(letters) ==> letters.len() == 0)
        },
    ensures
        match_outcome(array, regex_array, Some(flags)) == match_outcome(array, regex_array, None),
{
    if !regex_array.is_scalar {
        assert(matched_rows(array, regex_array, Some(flags)) =~= matched_rows(
            array,
            regex_array,
            None,
        ));
    }
}

/// The lists of rows that follow one another are those of the first rows, followed by those of
/// the second. The first error counts.
pub proof fn law_joined_rows(first: Seq<RowView>, second: Seq<RowView>)
    ensures
        rows_outcome(first + second) == match (rows_outcome(first), rows_outcome(second)) {
            (Ok(lists), Ok(others)) => Ok(lists + others),
            (Err(error), _) => Err(error),
            (Ok(_), Err(error)) => Err(error),
        },
    decreases second.len(),
{
    if second.len() == 0 {
        assert(first + second =~= first);
    } else {
        law_joined_rows(first, second.drop_last());
        assert((first + second).drop_last() =~= first + second.drop_last());
    }
    assert(row_lists(first + second) =~= row_lists(first) + row_lists(second));
}

/// Columns that are joined from two parts give the lists of the first part, followed by those of
/// the second. The first error counts.
///
/// The columns of the first part have one length: else rows of different parts would meet.
pub proof fn law_joined_columns(
    first: (Column, Datum, Option<&Datum>),
    second: (Column, Datum, Option<&Datum>),
    joined: (Column, Datum, Option<&Datum>),
)
    requires
        argument_failure(first.0, first.1, first.2) is None,
        argument_failure(second.0, second.1, second.2) is None,
        argument_failure(joined.0, joined.1, joined.2) is None,
        !first.1.is_scalar && !second.1.is_scalar && !joined.1.is_scalar,
        text_rows(joined.0) == text_rows(first.0) + text_rows(second.0),
        text_rows(joined.1.column) == text_rows(first.1.column) + text_rows(second.1.column),
        text_rows(first.1.column).len() == text_rows(first.0).len(),
        match (first.2, second.2, joined.2) {
            (Some(flags), Some(others), Some(all)) => {
                &&& text_rows(all.column) == text_rows(flags.column) + text_rows(others.column)
                &&& text_rows(flags.column).len() == text_rows(first.0).len()
            },
            (None, None, None) => true,
            _ => false,
        },
    ensures
        match (
            match_outcome(first.0, first.1, first.2),
            match_outcome(second.0, second.1, second.2),
            match_outcome(joined.0, joined.1, joined.2),
        ) {
            (Ok(lists), Ok(others), Ok(all)) => all.rows == lists.rows + others.rows,
            (Err(error), _, Err(one)) => one == error,
            (Ok(_), Err(error), Err(one)) => one == error,
            _ => false,
        },
{
    let rows = matched_rows(first.0, first.1, first.2);
    let others = matched_rows(second.0, second.1, second.2);
    assert(matched_rows(joined.0, joined.1, joined.2) =~= rows + others);
    law_joined_rows(rows, others);
}

/// Under a single pattern, a column that is joined from two parts gives the lists of the first
/// part, followed by those of the second, or the error that each part gives.
pub proof fn law_joined_columns_under_single_pattern(
    first: Column,
    second: Column,
    joined: Column,
    regex_array: Datum,
    flags_array: Option<&Datum>,
)
    requires
        argument_failure(first, regex_array, flags_array) is None,
        argument_failure(second, regex_array, flags_array) is None,
        argument_failure(joined, regex_array, flags_array) is None,
        regex_array.is_scalar,
        text_rows(joined) == text_rows(first) + text_rows(second),
    ensures
        match (
            match_outcome(first, regex_array, flags_array),
            match_outcome(second, regex_array, flags_array),
            match_outcome(joined, regex_array, flags_array),
        ) {
            (Ok(lists), Ok(others), Ok(all)) => all.rows == lists.rows + others.rows,
            (Err(error), Err(other), Err(one)) => one == error && one == other,
            _ => false,
        },
{
    let rows = matched_rows(first, regex_array, flags_array);
    let others = matched_rows(second, regex_array, flags_array);
    assert(matched_rows(joined, regex_array, flags_array) =~= rows + others);
    assert(row_lists(rows + others) =~= row_lists(rows) + row_lists(others));
}

/// Extraction from columns that are joined from two parts gives the lists of the first part,
/// followed by those of the second. The first error counts.
pub proof fn law_joined_columns_are_extracted(
    first: Seq<Column>,
    second: Seq<Column>,
    joined: Seq<Column>,
)
    requires
        first.len() == 3 && second.len() == 3 && joined.len() == 3,
        group_argument_failure(first[0], first[1], first[2]) is None,
        group_argument_failure(second[0], second[1], second[2]) is None,
        group_argument_failure(joined[0], joined[1], joined[2]) is None,
        text_rows(joined[0]) == text_rows(first[0]) + text_rows(second[0]),
        text_rows(joined[1]) == text_rows(first[1]) + text_rows(second[1]),
        index_rows(joined[2]) == index_rows(first[2]) + index_rows(second[2]),
        text_rows(first[1]).len() == text_rows(first[0]).len(),
        index_rows(first[2]).len() == text_rows(first[0]).len(),
    ensures
        match (extract_outcome(first), extract_outcome(second), extract_outcome(joined)) {
            (Ok(lists), Ok(others), Ok(all)) => all.rows == lists.rows + others.rows,
            (Err(error), _, Err(one)) => one == error,
            (Ok(_), Err(error), Err(one)) => one == error,
            _ => false,
        },
{
    let rows = group_rows(first[0], first[1], first[2]);
    let others = group_rows(second[0], second[1], second[2]);
    assert(group_rows(joined[0], joined[1], joined[2]) =~= rows + others);
    law_joined_rows(rows, others);
}

/// The extracted column has the element type of the strings, and one row for each row that the
/// strings, the patterns and the indices all have.
pub proof fn law_extract_shape(args: Seq<Column>)
    requires
        extract_outcome(args) is Ok,
    ensures
        ({
            let lists = extract_outcome(args)->Ok_0;
            &&& column_kind(args[0]) == ColumnKind::Text(lists.item_type)
            &&& lists.rows.len() <= text_rows(args[0]).len()
            &&& lists.rows.len() <= text_rows(args[1]).len()
            &&& lists.rows.len() <= index_rows(args[2]).len()
            &&& lists.rows.len() == text_rows(args[0]).len() || lists.rows.len() == text_rows(
                args[1],
            ).len() || lists.rows.len() == index_rows(args[2]).len()
        }),
{
}

/// Extraction treats the three string layouts alike: the same texts and indices give the same
/// lists, or the same error.
pub proof fn law_layouts_are_extracted_alike(args: Seq<Column>, others: Seq<Column>)
    requires
        args.len() == 3 && others.len() == 3,
        group_argument_failure(args[0], args[1], args[2]) is None,
        group_argument_failure(others[0], others[1], others[2]) is None,
        text_rows(args[0]) == text_rows(others[0]),
        text_rows(args[1]) == text_rows(others[1]),
        index_rows(args[2]) == index_rows(others[2]),
    ensures
        match (extract_outcome(args), extract_outcome(others)) {
            (Ok(lists), Ok(other)) => lists.rows == other.rows,
            (Err(error), Err(other)) => error == other,
            _ => false,
        },
{
}

/// Extraction gives for every row a list of exactly one element, which is not null, or null.
pub proof fn law_extracts_one_element(args: Seq<Column>, row: int)
    requires
        extract_outcome(args) matches Ok(lists) && 0 <= row < lists.rows.len(),
    ensures
        extract_outcome(args)->Ok_0.rows[row] matches Some(list) ==> list.len() == 1
            && list[0] is Some,
{
}

/// Extraction gives the substring that the group with the row's index matched. The list is null
/// where there is no match, the pattern has no such group or the group took no part in the match.
///
/// Here and below, `lists` is what [`spark_regexp_extract`] returned: its contract promises that
/// they follow the groups of the patterns.
///
/// [`spark_regexp_extract`]: crate::regexp_extract::spark_regexp_extract
pub proof fn law_extracts_indexed_group(
    args: Seq<Column>,
    lists: ListColumnView,
    row: int,
    value: Seq<char>,
    pattern: Seq<char>,
    index: u32,
)
    requires
        extract_outcome(args) == Ok::<_, ExtractErrorView>(lists),
        all_follow_groups(lists.rows, group_rows(args[0], args[1], args[2])),
        0 <= row < lists.rows.len(),
        text_rows(args[0])[row] == Some(value),
        text_rows(args[1])[row] == Some(pattern),
        index_rows(args[2])[row] == Some(index),
    ensures
        match pattern_groups(pattern, value) {
            Some(groups) => lists.rows[row] == if index < group_count(pattern)
                && groups[index as int] is Some {
                Some(seq![groups[index as int]])
            } else {
                None
            },
            None => lists.rows[row] is None,
        },
        lists.rows[row] matches Some(list) ==> (list[0] matches Some(part) && is_substring(
            part,
            value,
        )),
{
    assert(follows_groups(lists.rows[row], group_rows(args[0], args[1], args[2])[row]));
}

/// A null string, pattern or index makes the extracted list null.
pub proof fn law_extract_null_gives_null(args: Seq<Column>, row: int)
    requires
        extract_outcome(args) matches Ok(lists) && 0 <= row < lists.rows.len(),
        text_rows(args[0])[row] is None || text_rows(args[1])[row] is None || index_rows(
            args[2],
        )[row] is None,
    ensures
        extract_outcome(args)->Ok_0.rows[row] is None,
{
}

/// Extraction takes from the list of [`regexp_match`] the element at the row's index, counted
/// from one, where the pattern has capturing groups.
///
/// [`regexp_match`]: crate::regexp_match::regexp_match
pub proof fn law_extract_takes_element(
    args: Seq<Column>,
    lists: ListColumnView,
    patterns: Datum,
    matched: ListColumnView,
    row: int,
    value: Seq<char>,
    pattern: Seq<char>,
    index: u32,
)
    requires
        extract_outcome(args) == Ok::<_, ExtractErrorView>(lists),
        all_follow_groups(lists.rows, group_rows(args[0], args[1], args[2])),
        patterns.column == args[1],
        !patterns.is_scalar,
        match_outcome(args[0], patterns, None) == Ok::<_, MatchErrorView>(matched),
        all_follow_groups(matched.rows, matched_rows(args[0], patterns, None)),
        0 <= row < lists.rows.len(),
        text_rows(args[0])[row] == Some(value),
        text_rows(args[1])[row] == Some(pattern),
        index_rows(args[2])[row] == Some(index),
        index >= 1,
        group_count(pattern) > 1,
    ensures
        match matched.rows[row] {
            Some(list) => lists.rows[row] == if index <= list.len() && list[index - 1] is Some {
                Some(seq![list[index - 1]])
            } else {
                None
            },
            None => lists.rows[row] is None,
        },
{
    law_extracts_indexed_group(args, lists, row, value, pattern, index);
    if let Some(groups) = pattern_groups(pattern, value) {
        law_nth_element_is_nth_group(
            args[0],
            patterns,
            None,
            matched,
            row,
            value,
            pattern,
            groups,
        );
    } else {
        law_no_match_gives_null(args[0], patterns, None, row);
    }
}

/// The type that a planner sees for a column.
pub open spec fn planned_type(kind: ColumnKind) -> Option<DataTypeView> {
    match kind {
        ColumnKind::Text(StringType::Utf8) => Some(DataTypeView::Utf8),
        ColumnKind::Text(StringType::LargeUtf8) => Some(DataTypeView::LargeUtf8),
        ColumnKind::Text(StringType::Utf8View) => Some(DataTypeView::Utf8View),
        ColumnKind::UInt32 => Some(DataTypeView::UInt32),
        ColumnKind::Other => None,
    }
}

/// On columns of types that the signature lists, extraction fails for nothing but a pattern that
/// the engine refuses. Its result is a column of lists whose elements have the type of the
/// strings, and that element type is what was announced to the planner.
pub proof fn law_accepted_types_are_extracted(args: Seq<Column>, choice: int)
    requires
        0 <= choice < accepted_types().len(),
        args.len() == accepted_types()[choice].len(),
        forall|i: int|
            0 <= i < args.len() ==> planned_type(column_kind(#[trigger] args[i])) == Some(
                accepted_types()[choice][i],
            ),
    ensures
        match extract_outcome(args) {
            Ok(lists) => planned_type(ColumnKind::Text(lists.item_type)) == Some(
                return_type_outcome(accepted_types()[choice])->Ok_0,
            ),
            Err(error) => error matches ExtractErrorView::Match(cause) && cause is InvalidPattern,
        },
        return_type_outcome(accepted_types()[choice]) == Ok::<_, ExtractErrorView>(
            accepted_types()[choice][0],
        ),
{
    assert(planned_type(column_kind(args[0])) == Some(accepted_types()[choice][0]));
    assert(planned_type(column_kind(args[1])) == Some(accepted_types()[choice][1]));
    assert(planned_type(column_kind(args[2])) == Some(accepted_types()[choice][2]));
}

} // verus!
