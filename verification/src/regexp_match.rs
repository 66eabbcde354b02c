//! The kernels that match a column of strings against regular expressions.

use crate::column::{column_kind, index_rows, same_types, text_rows};
use crate::column::{Column, ColumnKind, Datum, StringType};
use crate::error::{MatchError, MatchErrorView};
use crate::list::{holds_lists, rows_viewable, total_bytes, total_items};
use crate::list::{ListColumn, ListColumnView};
use crate::matching::{all_follow_groups, repeated, row_lists, rows_outcome, scalar_outcome};
use crate::matching::{match_pattern, match_rows, zipped, RowView};
use crate::pattern::{complete_pattern, completed, CompiledPattern};
use vstd::prelude::*;

verus! {

/// A column of lists with the given elements, or the error that stands in its place.
pub open spec fn with_item_type(
    item_type: StringType,
    lists: Result<Seq<Option<Seq<Option<Seq<char>>>>>, MatchErrorView>,
) -> Result<ListColumnView, MatchErrorView> {
    match lists {
        Ok(rows) => Ok(ListColumnView { item_type, rows }),
        Err(error) => Err(error),
    }
}

/// What a kernel's result stands for.
pub open spec fn result_view(result: Result<ListColumn, MatchError>) -> Result<
    ListColumnView,
    MatchErrorView,
> {
    match result {
        Ok(column) => Ok(column@),
        Err(error) => Err(error@),
    }
}

/// The rows of an optional string column.
pub open spec fn optional_rows(column: Option<&Column>) -> Option<Seq<Option<Seq<char>>>> {
    match column {
        Some(it) => Some(text_rows(*it)),
        None => None,
    }
}

/// Why the arguments of [`regexp_match`] do not go together. The first rule that they break
/// counts.
pub open spec fn argument_failure(
    array: Column,
    regex_array: Datum,
    flags_array: Option<&Datum>,
) -> Option<MatchErrorView> {
    if !same_types(array, regex_array.column) {
        Some(MatchErrorView::ArrayPatternTypes)
    } else if flags_array matches Some(flags) && flags.is_scalar != regex_array.is_scalar {
        Some(MatchErrorView::PatternFlagsShapes)
    } else if flags_array matches Some(flags) && !same_types(regex_array.column, flags.column) {
        Some(MatchErrorView::PatternFlagsTypes)
    } else if column_kind(array) is Text {
        None
    } else if regex_array.is_scalar {
        Some(MatchErrorView::PatternType)
    } else {
        Some(MatchErrorView::ArrayType)
    }
}

/// The single pattern of [`regexp_match`], its flags written into it.
pub open spec fn single_pattern(regex_array: Datum, flags_array: Option<&Datum>) -> Option<
    Seq<char>,
> {
    completed(
        text_rows(regex_array.column)[0],
        match flags_array {
            Some(flags) => text_rows(flags.column)[0],
            None => None,
        },
    )
}

/// The rows that [`regexp_match`] matches.
pub open spec fn matched_rows(array: Column, regex_array: Datum, flags_array: Option<&Datum>) -> Seq<
    RowView,
> {
    if regex_array.is_scalar {
        repeated(text_rows(array), single_pattern(regex_array, flags_array))
    } else {
        zipped(
            text_rows(array),
            text_rows(regex_array.column),
            match flags_array {
                Some(flags) => Some(text_rows(flags.column)),
                None => None,
            },
            None,
        )
    }
}

/// What [`regexp_match`] gives for arguments that go together.
pub open spec fn match_lists(array: Column, regex_array: Datum, flags_array: Option<&Datum>) -> Result<
    Seq<Option<Seq<Option<Seq<char>>>>>,
    MatchErrorView,
> {
    if regex_array.is_scalar {
        scalar_outcome(text_rows(array), single_pattern(regex_array, flags_array))
    } else {
        rows_outcome(matched_rows(array, regex_array, flags_array))
    }
}

/// What [`regexp_match`] gives.
pub open spec fn match_outcome(array: Column, regex_array: Datum, flags_array: Option<&Datum>) -> Result<
    ListColumnView,
    MatchErrorView,
> {
    match argument_failure(array, regex_array, flags_array) {
        Some(error) => Err(error),
        None => with_item_type(
            column_kind(array)->Text_0,
            match_lists(array, regex_array, flags_array),
        ),
    }
}

/// Matches each row of a string column against the pattern of the same row.
pub fn regexp_array_match(
    array: &Column,
    regex_array: &Column,
    flags_array: Option<&Column>,
    index_array: Option<&Column>,
) -> (lists: Result<Vec<Option<Vec<Option<String>>>>, MatchError>)
    requires
        column_kind(*array) is Text,
        column_kind(*regex_array) is Text,
        flags_array matches Some(flags) ==> column_kind(*flags) is Text,
        index_array matches Some(indices) ==> column_kind(*indices) is UInt32,
    ensures
        ({
            let rows = zipped(
                text_rows(*array),
                text_rows(*regex_array),
                optional_rows(flags_array),
                match index_array {
                    Some(indices) => Some(index_rows(*indices)),
                    None => None,
                },
            );
            match lists {
                Ok(found) => rows_outcome(rows) == Ok::<_, MatchErrorView>(found.deep_view())
                    && all_follow_groups(found.deep_view(), rows),
                Err(error) => rows_outcome(rows) == Err::<
                    Seq<Option<Seq<Option<Seq<char>>>>>,
                    _,
                >(error@),
            }
        }),
{
    let values = array.texts();
    let patterns = regex_array.texts();
    let flags = match flags_array {
        Some(column) => Some(column.texts()),
        None => None,
    };
    let indices = match index_array {
        Some(column) => Some(column.indices()),
        None => None,
    };
    match_rows(&values, &patterns, flags.as_ref(), indices.as_ref())
}

/// Matches each row of a string column against one pattern.
pub fn regexp_scalar_match(array: &Column, regex: &CompiledPattern) -> (lists: Vec<
    Option<Vec<Option<String>>>,
>)
    requires
        column_kind(*array) is Text,
    ensures
        ({
            let rows = repeated(text_rows(*array), Some(regex.pattern()));
            lists.deep_view() == row_lists(rows) && all_follow_groups(lists.deep_view(), rows)
        }),
{
    let values = array.texts();
    match_pattern(&values, regex)
}

/// The single pattern and the single flags that the first rows of two string columns hold.
pub fn get_scalar_pattern_flag(regex_array: &Column, flag_array: Option<&Column>) -> (scalars: (
    Option<String>,
    Option<String>,
))
    requires
        column_kind(*regex_array) is Text,
        text_rows(*regex_array).len() > 0,
        flag_array matches Some(flags) ==> column_kind(*flags) is Text && text_rows(*flags).len()
            > 0,
    ensures
        scalars.0.deep_view() == text_rows(*regex_array)[0],
        scalars.1.deep_view() == match flag_array {
            Some(flags) => text_rows(*flags)[0],
            None => None,
        },
{
    let regex = regex_array.texts()[0].clone();
    match flag_array {
        Some(flags) => (regex, flags.texts()[0].clone()),
        None => (regex, None),
    }
}

/// Whether the arguments of [`regexp_match`] go together: the string layout that all of them
/// have, or the first rule that they break.
pub fn check_arguments(array: &Column, regex_array: &Datum, flags_array: Option<&Datum>) -> (checked: Result<
    StringType,
    MatchError,
>)
    ensures
        match checked {
            Ok(item_type) => argument_failure(*array, *regex_array, flags_array) is None
                && column_kind(*array) == ColumnKind::Text(item_type),
            Err(error) => argument_failure(*array, *regex_array, flags_array) == Some(error@),
        },
{
    if !array.same_type(&regex_array.column) {
        return Err(MatchError::ArrayPatternTypes);
    }
    if let Some(flags) = flags_array {
        if flags.is_scalar != regex_array.is_scalar {
            return Err(MatchError::PatternFlagsShapes);
        }
        if !regex_array.column.same_type(&flags.column) {
            return Err(MatchError::PatternFlagsTypes);
        }
    }
    match array.kind() {
        ColumnKind::Text(item_type) => Ok(item_type),
        _ => if regex_array.is_scalar {
            Err(MatchError::PatternType)
        } else {
            Err(MatchError::ArrayType)
        },
    }
}

/// Extracts all groups matched by a regular expression from a column of strings.
///
/// Modelled after the Postgres `regexp_match`.
///
/// Each row of the result is the list for the leftmost-first match of the row's pattern in the
/// row's string. Where there is no match, or the string or the pattern is null, the row is null.
/// Where the pattern has no capturing groups, the list has one element, the substring that the
/// whole pattern matched. Where it has some, the n'th element is the substring that the n'th
/// group matched, and null where that group took no part in the match.
///
/// The pattern and the optional flags are either both columns or both single values. Flags are
/// zero or more single letters that change how a pattern is read: without letters nothing
/// changes. Columns of different lengths are cut to the shortest. A single value is the first row
/// of its column, which must have one.
pub fn regexp_match(array: &Column, regex_array: &Datum, flags_array: Option<&Datum>) -> (result: Result<
    ListColumn,
    MatchError,
>)
    requires
        argument_failure(*array, *regex_array, flags_array) is None && regex_array.is_scalar ==> {
            &&& text_rows(regex_array.column).len() > 0
            &&& flags_array matches Some(flags) ==> text_rows(flags.column).len() > 0
        },
    ensures
        result_view(result) == match_outcome(*array, *regex_array, flags_array),
        result matches Ok(lists) ==> all_follow_groups(
            lists@.rows,
            matched_rows(*array, *regex_array, flags_array),
        ),
{
    let item_type = match check_arguments(array, regex_array, flags_array) {
        Ok(item_type) => item_type,
        Err(error) => return Err(error),
    };
    let flags_column = match flags_array {
        Some(flags) => Some(&flags.column),
        None => None,
    };
    if regex_array.is_scalar {
        match get_scalar_pattern_flag(&regex_array.column, flags_column) {
            (None, _) => {
                let rows = null_lists(array.texts().len());
                assert(rows.deep_view() =~= row_lists(repeated(text_rows(*array), None)));
                Ok(ListColumn { item_type, rows })
            },
            (Some(regex), flag) => {
                let letters = match &flag {
                    Some(text) => Some(text.as_str()),
                    None => None,
                };
                let pattern = complete_pattern(regex.as_str(), letters);
                match CompiledPattern::new(pattern.as_str()) {
                    Ok(compiled) => {
                        let rows = regexp_scalar_match(array, &compiled);
                        Ok(ListColumn { item_type, rows })
                    },
                    Err(error) => Err(error),
                }
            },
        }
    } else {
        match regexp_array_match(array, &regex_array.column, flags_column, None) {
            Ok(rows) => Ok(ListColumn { item_type, rows }),
            Err(error) => Err(error),
        }
    }
}

/// [`regexp_match`] with its result written as one Arrow array, a `List` of nullable strings of
/// the searched layout, or `None` where the lists do not fit one array.
pub fn regexp_match_array(array: &Column, regex_array: &Datum, flags_array: Option<&Datum>) -> (result: Result<
    Option<Column>,
    MatchError,
>)
    requires
        argument_failure(*array, *regex_array, flags_array) is None && regex_array.is_scalar ==> {
            &&& text_rows(regex_array.column).len() > 0
            &&& flags_array matches Some(flags) ==> text_rows(flags.column).len() > 0
        },
    ensures
        ({
            let outcome = match_outcome(*array, *regex_array, flags_array);
            match result {
                Ok(Some(column)) => {
                    &&& outcome matches Ok(lists)
                    &&& lists.fits()
                    &&& holds_lists(column, lists)
                    &&& all_follow_groups(
                        lists.rows,
                        matched_rows(*array, *regex_array, flags_array),
                    )
                },
                Ok(None) => outcome matches Ok(lists) && !lists.fits(),
                Err(error) => outcome == Err::<ListColumnView, _>(error@),
            }
        }),
        match_outcome(*array, *regex_array, flags_array) matches Ok(lists) ==> (total_items(
            lists.rows,
        ) <= i32::MAX && match lists.item_type {
            StringType::Utf8 => total_bytes(lists.rows) <= i32::MAX,
            StringType::LargeUtf8 => total_bytes(lists.rows) <= i64::MAX,
            StringType::Utf8View => rows_viewable(lists.rows),
        } ==> result matches Ok(Some(_))),
{
    match regexp_match(array, regex_array, flags_array) {
        Ok(lists) => Ok(lists.to_column_if_fits()),
        Err(error) => Err(error),
    }
}

/// As many null lists.
fn null_lists(len: usize) -> (rows: Vec<Option<Vec<Option<String>>>>)
    ensures
        rows.deep_view() == Seq::new(len as nat, |i: int| None::<Seq<Option<Seq<char>>>>),
{
    let mut rows: Vec<Option<Vec<Option<String>>>> = Vec::new();
    let mut i: usize = 0;
    while i < len
        invariant
            i <= len,
            rows.len() == i,
            forall|k: int| 0 <= k < i ==> #[trigger] rows[k] is None,
        decreases len - i,
    {
        rows.push(None);
        i = i + 1;
    }
    assert(rows.deep_view() =~= Seq::new(len as nat, |i: int| None));
    rows
}

/// Why the arguments of [`regexp_match_group`] do not go together. The first rule that they
/// break counts.
pub open spec fn group_argument_failure(
    array: Column,
    regex_array: Column,
    index_array: Column,
) -> Option<MatchErrorView> {
    if !same_types(array, regex_array) {
        Some(MatchErrorView::ArrayPatternTypes)
    } else if !(column_kind(index_array) is UInt32) {
        Some(MatchErrorView::IndexType)
    } else if column_kind(array) is Text {
        None
    } else {
        Some(MatchErrorView::ArrayType)
    }
}

/// The rows that [`regexp_match_group`] matches.
pub open spec fn group_rows(array: Column, regex_array: Column, index_array: Column) -> Seq<RowView> {
    zipped(text_rows(array), text_rows(regex_array), None, Some(index_rows(index_array)))
}

/// What [`regexp_match_group`] gives.
pub open spec fn match_group_outcome(
    array: Column,
    regex_array: Column,
    index_array: Column,
) -> Result<ListColumnView, MatchErrorView> {
    match group_argument_failure(array, regex_array, index_array) {
        Some(error) => Err(error),
        None => with_item_type(
            column_kind(array)->Text_0,
            rows_outcome(group_rows(array, regex_array, index_array)),
        ),
    }
}

/// Extracts one group matched by a regular expression from a column of strings.
///
/// The list of a row has one element, the substring that the group with the row's index matched.
/// Index 0 is the whole match. The row is null where there is no match, the pattern has no such
/// group, the group took no part in the match, or the string, the pattern or the index is null.
/// Columns of different lengths are cut to the shortest.
pub fn regexp_match_group(array: &Column, regex_array: &Column, index_array: &Column) -> (result: Result<
    ListColumn,
    MatchError,
>)
    ensures
        result_view(result) == match_group_outcome(*array, *regex_array, *index_array),
        result matches Ok(lists) ==> all_follow_groups(
            lists@.rows,
            group_rows(*array, *regex_array, *index_array),
        ),
{
    if !array.same_type(regex_array) {
        return Err(MatchError::ArrayPatternTypes);
    }
    match index_array.kind() {
        ColumnKind::UInt32 => {},
        _ => return Err(MatchError::IndexType),
    }
    match array.kind() {
        ColumnKind::Text(item_type) => match regexp_array_match(
            array,
            regex_array,
            None,
            Some(index_array),
        ) {
            Ok(rows) => Ok(ListColumn { item_type, rows }),
            Err(error) => Err(error),
        },
        _ => Err(MatchError::ArrayType),
    }
}

} // verus!
