//! What holds of the matching of columns.

use crate::column::{column_kind, same_other_types, same_types, text_rows};
use crate::column::{Column, ColumnKind, Datum};
use crate::engine::{compile_failure, regex_captures};
use crate::error::{MatchError, MatchErrorView};
use crate::guarantees::rows::{law_accepted_rows_succeed, law_first_refused_row_fails};
use crate::guarantees::rows::{law_row_holds_captures, law_row_with_null_is_null};
use crate::list::{ListColumn, ListColumnView};
use crate::regexp_match::{argument_failure, match_outcome, optional_rows, result_view};
use vstd::prelude::*;

verus! {

/// Two columns have the same type where Arrow says so. The string types and `UInt32` have no
/// parameters.
pub proof fn law_same_types(left: Column, right: Column)
    ensures
        column_kind(left) != column_kind(right) ==> !same_types(left, right),
        column_kind(left) == column_kind(right) && !(column_kind(left) is Other) ==> same_types(
            left,
            right,
        ),
        column_kind(left) is Other && column_kind(right) is Other ==> (same_types(left, right)
            <==> same_other_types(left, right)),
{
}

/// Arguments go together where the searched column is of a string type, the pattern and the flags
/// are of that same type, and both are single values or both are columns.
pub proof fn law_matching_arguments_go_together(
    array: Column,
    regex_array: Datum,
    flags_array: Option<&Datum>,
)
    requires
        column_kind(array) is Text,
        column_kind(regex_array.column) == column_kind(array),
        flags_array matches Some(flags) ==> {
            &&& column_kind(flags.column) == column_kind(array)
            &&& flags.is_scalar == regex_array.is_scalar
        },
    ensures
        argument_failure(array, regex_array, flags_array) is None,
{
}

/// Other arguments are refused: first for a pattern of another type than the searched column,
/// then for flags of another shape than the pattern, then for flags of another type, and at last
/// for a type that is no string type.
pub proof fn law_other_arguments_are_refused(
    array: Column,
    regex_array: Datum,
    flags_array: Option<&Datum>,
    error: MatchErrorView,
)
    requires
        ({
            let pattern_differs = column_kind(regex_array.column) != column_kind(array) || (
            column_kind(array) is Other && !same_other_types(array, regex_array.column));
            let shape_differs = flags_array matches Some(flags) && flags.is_scalar
                != regex_array.is_scalar;
            let flags_differ = flags_array matches Some(flags) && (column_kind(flags.column)
                != column_kind(regex_array.column) || (column_kind(flags.column) is Other
                && !same_other_types(regex_array.column, flags.column)));
            ||| pattern_differs && error is ArrayPatternTypes
            ||| !pattern_differs && shape_differs && error is PatternFlagsShapes
            ||| !pattern_differs && !shape_differs && flags_differ && error is PatternFlagsTypes
            ||| !pattern_differs && !shape_differs && !flags_differ && !(column_kind(array) is Text)
                && regex_array.is_scalar && error is PatternType
            ||| !pattern_differs && !shape_differs && !flags_differ && !(column_kind(array) is Text)
                && !regex_array.is_scalar && error is ArrayType
        }),
    ensures
        argument_failure(array, regex_array, flags_array) == Some(error),
        match_outcome(array, regex_array, flags_array) == Err::<ListColumnView, _>(error),
{
}

/// The list of a row holds what the engine captured in the row's string: with flag letters, of the
/// pattern behind those letters, and else of the pattern as it is.
///
/// The n'th element is what the n'th group captured. Where the pattern has no group, the one
/// element is the whole match.
pub proof fn law_list_holds_captures(
    array: Column,
    regex_array: Datum,
    flags_array: Option<&Datum>,
    lists: ListColumnView,
    row: int,
    place: int,
    value: Seq<char>,
    pattern: Seq<char>,
    whole: Seq<char>,
)
    requires
        match_outcome(array, regex_array, flags_array) == Ok::<_, MatchErrorView>(lists),
        0 <= row < lists.rows.len(),
        place == if regex_array.is_scalar {
            0
        } else {
            row
        },
        text_rows(array)[row] == Some(value),
        text_rows(regex_array.column)[place] == Some(pattern),
        whole == match (match flags_array {
            Some(flags) => text_rows(flags.column)[place],
            None => None,
        }) {
            Some(letters) if letters.len() > 0 => "(?"@ + letters + ")"@ + pattern,
            _ => pattern,
        },
    ensures
        whole.len() == 0 ==> lists.rows[row] == Some(seq![Some(Seq::<char>::empty())]),
        whole.len() > 0 ==> match regex_captures(whole, value) {
            Some(groups) => lists.rows[row] matches Some(list) && {
                &&& groups.len() <= 1 ==> list == groups
                &&& groups.len() > 1 ==> {
                    &&& list.len() == groups.len() - 1
                    &&& forall|n: int| 1 <= n < groups.len() ==> list[n - 1] == #[trigger] groups[n]
                }
            },
            None => lists.rows[row] is None,
        },
{
    if !regex_array.is_scalar {
        law_row_holds_captures(
            text_rows(array),
            text_rows(regex_array.column),
            match flags_array {
                Some(flags) => Some(text_rows(flags.column)),
                None => None,
            },
            None,
            lists.rows,
            row,
            value,
            pattern,
            whole,
        );
    }
}

/// A null string or a null pattern makes the list null, whatever the flags are.
pub proof fn law_null_makes_the_list_null(
    array: Column,
    regex_array: Datum,
    flags_array: Option<&Datum>,
    lists: ListColumnView,
    row: int,
)
    requires
        match_outcome(array, regex_array, flags_array) == Ok::<_, MatchErrorView>(lists),
        0 <= row < lists.rows.len(),
        text_rows(array)[row] is None || text_rows(regex_array.column)[if regex_array.is_scalar {
            0
        } else {
            row
        }] is None,
    ensures
        lists.rows[row] is None,
{
    if !regex_array.is_scalar {
        law_row_with_null_is_null(
            text_rows(array),
            text_rows(regex_array.column),
            match flags_array {
                Some(flags) => Some(text_rows(flags.column)),
                None => None,
            },
            None,
            lists.rows,
            row,
        );
    }
}

/// Columns that go together, with patterns that the engine accepts wherever a row needs them, give
/// lists of the searched type for as many rows as the shortest column has.
pub proof fn law_accepted_columns_succeed(
    array: Column,
    regex_array: Datum,
    flags_array: Option<&Datum>,
)
    requires
        column_kind(array) is Text,
        column_kind(regex_array.column) == column_kind(array),
        !regex_array.is_scalar,
        flags_array matches Some(flags) ==> {
            &&& column_kind(flags.column) == column_kind(array)
            &&& !flags.is_scalar
        },
        forall|i: int|
            0 <= i < text_rows(array).len() && i < text_rows(regex_array.column).len() && (
            flags_array matches Some(flags) ==> i < text_rows(flags.column).len()) && text_rows(
                array,
            )[i] is Some ==> (#[trigger] text_rows(regex_array.column)[i] matches Some(pattern)
                ==> ({
                let whole = match (match flags_array {
                    Some(flags) => text_rows(flags.column)[i],
                    None => None,
                }) {
                    Some(letters) if letters.len() > 0 => "(?"@ + letters + ")"@ + pattern,
                    _ => pattern,
                };
                whole.len() == 0 || compile_failure(whole) is None
            })),
    ensures
        match_outcome(array, regex_array, flags_array) matches Ok(lists) && {
            &&& column_kind(array) == ColumnKind::Text(lists.item_type)
            &&& lists.rows.len() <= text_rows(array).len()
            &&& lists.rows.len() <= text_rows(regex_array.column).len()
            &&& flags_array matches Some(flags) ==> lists.rows.len() <= text_rows(
                flags.column,
            ).len()
            &&& lists.rows.len() == text_rows(array).len() || lists.rows.len() == text_rows(
                regex_array.column,
            ).len() || (flags_array matches Some(flags) && lists.rows.len() == text_rows(
                flags.column,
            ).len())
        },
{
    law_accepted_rows_succeed(
        text_rows(array),
        text_rows(regex_array.column),
        match flags_array {
            Some(flags) => Some(text_rows(flags.column)),
            None => None,
        },
        None,
    );
}

/// The first row that needs a pattern that the engine refuses fails the whole with the engine's
/// error for that pattern.
pub proof fn law_first_refused_pattern_fails(
    array: Column,
    regex_array: Datum,
    flags_array: Option<&Datum>,
    row: int,
    pattern: Seq<char>,
    whole: Seq<char>,
    text: Seq<char>,
)
    requires
        column_kind(array) is Text,
        column_kind(regex_array.column) == column_kind(array),
        !regex_array.is_scalar,
        flags_array matches Some(flags) ==> {
            &&& column_kind(flags.column) == column_kind(array)
            &&& !flags.is_scalar
            &&& row < text_rows(flags.column).len()
        },
        0 <= row < text_rows(array).len(),
        row < text_rows(regex_array.column).len(),
        text_rows(array)[row] is Some,
        text_rows(regex_array.column)[row] == Some(pattern),
        whole == match (match flags_array {
            Some(flags) => text_rows(flags.column)[row],
            None => None,
        }) {
            Some(letters) if letters.len() > 0 => "(?"@ + letters + ")"@ + pattern,
            _ => pattern,
        },
        whole.len() > 0,
        compile_failure(whole) == Some(text),
        forall|i: int|
            0 <= i < row && text_rows(array)[i] is Some ==> (#[trigger] text_rows(
                regex_array.column,
            )[i] matches Some(earlier) ==> ({
                let before = match (match flags_array {
                    Some(flags) => text_rows(flags.column)[i],
                    None => None,
                }) {
                    Some(letters) if letters.len() > 0 => "(?"@ + letters + ")"@ + earlier,
                    _ => earlier,
                };
                before.len() == 0 || compile_failure(before) is None
            })),
    ensures
        match_outcome(array, regex_array, flags_array) == Err::<ListColumnView, _>(
            MatchErrorView::InvalidPattern(text),
        ),
{
    law_first_refused_row_fails(
        text_rows(array),
        text_rows(regex_array.column),
        match flags_array {
            Some(flags) => Some(text_rows(flags.column)),
            None => None,
        },
        None,
        row,
        pattern,
        whole,
        text,
    );
}

/// A single pattern that goes together with the searched column gives lists of the searched type
/// for all of its rows, unless the engine refuses the pattern behind its flags: then it gives the
/// engine's error. A null pattern is never refused.
pub proof fn law_single_pattern_succeeds_or_fails(
    array: Column,
    regex_array: Datum,
    flags_array: Option<&Datum>,
)
    requires
        column_kind(array) is Text,
        column_kind(regex_array.column) == column_kind(array),
        regex_array.is_scalar,
        flags_array matches Some(flags) ==> {
            &&& column_kind(flags.column) == column_kind(array)
            &&& flags.is_scalar
        },
    ensures
        ({
            let refused = match text_rows(regex_array.column)[0] {
                Some(pattern) => {
                    let whole = match (match flags_array {
                        Some(flags) => text_rows(flags.column)[0],
                        None => None,
                    }) {
                        Some(letters) if letters.len() > 0 => "(?"@ + letters + ")"@ + pattern,
                        _ => pattern,
                    };
                    if whole.len() > 0 {
                        compile_failure(whole)
                    } else {
                        None
                    }
                },
                None => None,
            };
            match match_outcome(array, regex_array, flags_array) {
                Ok(lists) => {
                    &&& refused is None
                    &&& column_kind(array) == ColumnKind::Text(lists.item_type)
                    &&& lists.rows.len() == text_rows(array).len()
                },
                Err(error) => refused matches Some(text) && error == MatchErrorView::InvalidPattern(
                    text,
                ),
            }
        }),
{
}

/// A result stands for the lists and the element layout that its fields hold, and an error for
/// the error that it is.
pub proof fn law_results_stand_for_their_fields(lists: ListColumn, error: MatchError)
    ensures
        lists@ == (ListColumnView { item_type: lists.item_type, rows: lists.rows.deep_view() }),
        result_view(Ok(lists)) == Ok::<_, MatchErrorView>(
            ListColumnView { item_type: lists.item_type, rows: lists.rows.deep_view() },
        ),
        result_view(Err(error)) == Err::<ListColumnView, _>(error@),
        error@ == match error {
            MatchError::ArrayPatternTypes => MatchErrorView::ArrayPatternTypes,
            MatchError::PatternFlagsShapes => MatchErrorView::PatternFlagsShapes,
            MatchError::PatternFlagsTypes => MatchErrorView::PatternFlagsTypes,
            MatchError::PatternType => MatchErrorView::PatternType,
            MatchError::ArrayType => MatchErrorView::ArrayType,
            MatchError::IndexType => MatchErrorView::IndexType,
            MatchError::InvalidPattern(detail) => MatchErrorView::InvalidPattern(detail@),
        },
{
}

/// The rows of an optional column are those of the column, where there is one.
pub proof fn law_optional_rows(column: &Column)
    ensures
        optional_rows(Some(column)) == Some(text_rows(*column)),
        optional_rows(None) is None,
{
}

/// Every error is shown with its own text. That of a refused pattern ends with the engine's.
pub proof fn law_messages(detail: Seq<char>)
    ensures
        MatchErrorView::ArrayPatternTypes.message()
            == "regexp_match() requires both array and pattern to be either Utf8, Utf8View or LargeUtf8"@,
        MatchErrorView::PatternFlagsShapes.message()
            == "regexp_match() requires both pattern and flags to be either scalar or array"@,
        MatchErrorView::PatternFlagsTypes.message()
            == "regexp_match() requires both pattern and flags to be either Utf8, Utf8View or LargeUtf8"@,
        MatchErrorView::PatternType.message()
            == "regexp_match() requires pattern to be either Utf8, Utf8View or LargeUtf8"@,
        MatchErrorView::ArrayType.message()
            == "regexp_match() requires array to be either Utf8, Utf8View or LargeUtf8"@,
        MatchErrorView::IndexType.message() == "regexp_match() requires index to be UInt32"@,
        MatchErrorView::InvalidPattern(detail).message() == "Regular expression did not compile: "@
            + detail,
{
}

} // verus!
