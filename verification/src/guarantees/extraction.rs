//! What holds of extraction.

use crate::column::{column_kind, index_rows, same_other_types, text_rows};
use crate::column::{Column, ColumnKind};
use crate::decimal::decimal_digits;
use crate::engine::{compile_failure, regex_captures};
use crate::error::{MatchError, MatchErrorView};
use crate::guarantees::rows::{law_accepted_rows_succeed, law_first_refused_row_fails};
use crate::guarantees::rows::{law_row_holds_captures, law_row_with_null_is_null};
use crate::list::ListColumnView;
use crate::regexp_extract::{accepted_types, extract_outcome, return_type_outcome};
use crate::regexp_extract::{DataType, DataTypeView, TypeSignature};
use crate::regexp_extract::{ExtractError, ExtractErrorView};
use crate::regexp_match::match_group_outcome;
use vstd::prelude::*;

verus! {

/// Extraction gives what the engine captured with the group of the row's index in the row's
/// string, of the row's pattern as it is. The list is null where there is no match, no such group,
/// or the group took no part. Index 0 is the whole match.
pub proof fn law_extracts_capture(
    args: Seq<Column>,
    lists: ListColumnView,
    row: int,
    value: Seq<char>,
    pattern: Seq<char>,
    index: u32,
)
    requires
        extract_outcome(args) == Ok::<_, ExtractErrorView>(lists),
        0 <= row < lists.rows.len(),
        text_rows(args[0])[row] == Some(value),
        text_rows(args[1])[row] == Some(pattern),
        index_rows(args[2])[row] == Some(index),
    ensures
        pattern.len() == 0 ==> lists.rows[row] == if index == 0 {
            Some(seq![Some(Seq::<char>::empty())])
        } else {
            None
        },
        pattern.len() > 0 ==> match regex_captures(pattern, value) {
            Some(groups) => lists.rows[row] == if index < groups.len()
                && groups[index as int] is Some {
                Some(seq![groups[index as int]])
            } else {
                None
            },
            None => lists.rows[row] is None,
        },
{
    law_row_holds_captures(
        text_rows(args[0]),
        text_rows(args[1]),
        None,
        Some(index_rows(args[2])),
        lists.rows,
        row,
        value,
        pattern,
        pattern,
    );
}

/// A null string, pattern or index extracts null.
pub proof fn law_null_extracts_null(args: Seq<Column>, lists: ListColumnView, row: int)
    requires
        extract_outcome(args) == Ok::<_, ExtractErrorView>(lists),
        0 <= row < lists.rows.len(),
        text_rows(args[0])[row] is None || text_rows(args[1])[row] is None || index_rows(
            args[2],
        )[row] is None,
    ensures
        lists.rows[row] is None,
{
    law_row_with_null_is_null(
        text_rows(args[0]),
        text_rows(args[1]),
        None,
        Some(index_rows(args[2])),
        lists.rows,
        row,
    );
}

/// Strings and patterns of one string type and `UInt32` indices, with patterns that the engine
/// accepts wherever a row needs them, are extracted: the lists have the type of the strings, and
/// there are as many as the shortest column has rows.
pub proof fn law_accepted_patterns_are_extracted(args: Seq<Column>)
    requires
        args.len() == 3,
        column_kind(args[0]) is Text,
        column_kind(args[1]) == column_kind(args[0]),
        column_kind(args[2]) is UInt32,
        forall|i: int|
            0 <= i < text_rows(args[0]).len() && i < text_rows(args[1]).len() && i < index_rows(
                args[2],
            ).len() && text_rows(args[0])[i] is Some && index_rows(args[2])[i] is Some ==> (
            #[trigger] text_rows(args[1])[i] matches Some(pattern) ==> pattern.len() == 0
                || compile_failure(pattern) is None),
    ensures
        extract_outcome(args) matches Ok(lists) && {
            &&& column_kind(args[0]) == ColumnKind::Text(lists.item_type)
            &&& lists.rows.len() <= text_rows(args[0]).len()
            &&& lists.rows.len() <= text_rows(args[1]).len()
            &&& lists.rows.len() <= index_rows(args[2]).len()
            &&& lists.rows.len() == text_rows(args[0]).len() || lists.rows.len() == text_rows(
                args[1],
            ).len() || lists.rows.len() == index_rows(args[2]).len()
        },
{
    law_accepted_rows_succeed(
        text_rows(args[0]),
        text_rows(args[1]),
        None,
        Some(index_rows(args[2])),
    );
}

/// The first row that needs a pattern that the engine refuses fails the extraction with the
/// engine's error for that pattern.
pub proof fn law_first_refused_pattern_is_not_extracted(
    args: Seq<Column>,
    row: int,
    pattern: Seq<char>,
    text: Seq<char>,
)
    requires
        args.len() == 3,
        column_kind(args[0]) is Text,
        column_kind(args[1]) == column_kind(args[0]),
        column_kind(args[2]) is UInt32,
        0 <= row < text_rows(args[0]).len(),
        row < text_rows(args[1]).len(),
        row < index_rows(args[2]).len(),
        text_rows(args[0])[row] is Some,
        text_rows(args[1])[row] == Some(pattern),
        index_rows(args[2])[row] is Some,
        pattern.len() > 0,
        compile_failure(pattern) == Some(text),
        forall|i: int|
            0 <= i < row && text_rows(args[0])[i] is Some && index_rows(args[2])[i] is Some ==> (
            #[trigger] text_rows(args[1])[i] matches Some(earlier) ==> earlier.len() == 0
                || compile_failure(earlier) is None),
    ensures
        extract_outcome(args) == Err::<ListColumnView, _>(
            ExtractErrorView::Match(MatchErrorView::InvalidPattern(text)),
        ),
{
    law_first_refused_row_fails(
        text_rows(args[0]),
        text_rows(args[1]),
        None,
        Some(index_rows(args[2])),
        row,
        pattern,
        pattern,
        text,
    );
}

/// Three columns of other types are refused: first for patterns of another type than the strings,
/// then for indices that are not `UInt32`, and at last for strings of no string type.
pub proof fn law_other_types_are_not_extracted(args: Seq<Column>, error: MatchErrorView)
    requires
        args.len() == 3,
        ({
            let pattern_differs = column_kind(args[1]) != column_kind(args[0]) || (column_kind(
                args[0],
            ) is Other && !same_other_types(args[0], args[1]));
            ||| pattern_differs && error is ArrayPatternTypes
            ||| !pattern_differs && !(column_kind(args[2]) is UInt32) && error is IndexType
            ||| !pattern_differs && column_kind(args[2]) is UInt32 && !(column_kind(
                args[0],
            ) is Text) && error is ArrayType
        }),
    ensures
        extract_outcome(args) == Err::<ListColumnView, _>(ExtractErrorView::Match(error)),
{
}

/// Extraction from three columns is the matching of one group on them.
pub proof fn law_extraction_is_matching_of_one_group(args: Seq<Column>)
    requires
        args.len() == 3,
    ensures
        extract_outcome(args) == match match_group_outcome(args[0], args[1], args[2]) {
            Ok(lists) => Ok(lists),
            Err(error) => Err(ExtractErrorView::Match(error)),
        },
{
}

/// Any other number of arguments is an internal error, which says how many there are.
pub proof fn law_other_numbers_of_arguments_are_refused(args: Seq<Column>)
    requires
        args.len() != 3,
    ensures
        extract_outcome(args) == Err::<ListColumnView, _>(
            ExtractErrorView::Internal(
                "Spark `regexp_extract` function requires 3 argument, got "@ + decimal_digits(
                    args.len(),
                ),
            ),
        ),
{
}

/// The digits of a number are the decimal digits that add up to it, without needless zeros.
pub proof fn law_digits_read_back(number: nat)
    ensures
        decimal_digits(number).fold_left(0int, |sum: int, c: char| 10 * sum + (c as int - 48))
            == number,
        decimal_digits(number).len() >= 1,
        forall|i: int|
            0 <= i < decimal_digits(number).len() ==> '0' <= #[trigger] decimal_digits(number)[i]
                <= '9',
        decimal_digits(number).len() > 1 ==> decimal_digits(number)[0] != '0',
    decreases number,
{
    let digits = decimal_digits(number);
    let read = |sum: int, c: char| 10 * sum + (c as int - 48);
    reveal_with_fuel(Seq::fold_left, 2);
    if number >= 10 {
        law_digits_read_back(number / 10);
        assert(digits.drop_last() =~= decimal_digits(number / 10));
    }
}

/// The type that is announced is that of the first argument, where it is a string type. Else the
/// error names the type.
pub proof fn law_announced_type(arg_types: Seq<DataTypeView>)
    requires
        arg_types.len() > 0,
    ensures
        arg_types[0] is Utf8 || arg_types[0] is LargeUtf8 || arg_types[0] is Utf8View
            ==> return_type_outcome(arg_types) == Ok::<_, ExtractErrorView>(arg_types[0]),
        arg_types[0] is UInt32 ==> return_type_outcome(arg_types) == Err::<DataTypeView, _>(
            ExtractErrorView::Execution(
                "Spark `regexp_extract` function: argument must be Utf8, Utf8View or LargeUtf8, got "@
                    + "UInt32"@,
            ),
        ),
        arg_types[0] matches DataTypeView::Other(name) ==> return_type_outcome(arg_types) == Err::<
            DataTypeView,
            _,
        >(
            ExtractErrorView::Execution(
                "Spark `regexp_extract` function: argument must be Utf8, Utf8View or LargeUtf8, got "@
                    + name,
            ),
        ),
{
}

/// The function takes strings and patterns of one string type and a `UInt32` index, for each of
/// the string types. Views are preferred, then `Utf8`.
pub proof fn law_signature()
    ensures
        accepted_types().len() == 3,
        forall|k: int|
            0 <= k < 3 ==> {
                &&& (#[trigger] accepted_types()[k]).len() == 3
                &&& accepted_types()[k][1] == accepted_types()[k][0]
                &&& accepted_types()[k][2] is UInt32
            },
        accepted_types()[0][0] is Utf8View,
        accepted_types()[1][0] is Utf8,
        accepted_types()[2][0] is LargeUtf8,
{
}

/// Types, signatures and errors stand for what they are written as.
pub proof fn law_types_stand_for_themselves(
    data_type: DataType,
    types: Vec<DataType>,
    error: MatchError,
    text: String,
)
    ensures
        data_type@ == match data_type {
            DataType::Utf8 => DataTypeView::Utf8,
            DataType::LargeUtf8 => DataTypeView::LargeUtf8,
            DataType::Utf8View => DataTypeView::Utf8View,
            DataType::UInt32 => DataTypeView::UInt32,
            DataType::Other(name) => DataTypeView::Other(name@),
        },
        data_type.deep_view() == data_type@,
        TypeSignature::Exact(types).deep_view() == types.deep_view(),
        ExtractError::Internal(text)@ == ExtractErrorView::Internal(text@),
        ExtractError::Execution(text)@ == ExtractErrorView::Execution(text@),
        ExtractError::Match(error)@ == ExtractErrorView::Match(error@),
{
}

/// Types are named as they are written, and errors are shown with the text that they carry.
pub proof fn law_names_and_messages(name: Seq<char>, error: MatchErrorView)
    ensures
        DataTypeView::Utf8.name() == "Utf8"@,
        DataTypeView::LargeUtf8.name() == "LargeUtf8"@,
        DataTypeView::Utf8View.name() == "Utf8View"@,
        DataTypeView::UInt32.name() == "UInt32"@,
        DataTypeView::Other(name).name() == name,
        ExtractErrorView::Internal(name).message() == name,
        ExtractErrorView::Execution(name).message() == name,
        ExtractErrorView::Match(error).message() == error.message(),
{
}

} // verus!
