use std::sync::Arc;

use arrow::array::{
    Array, ArrayRef, GenericStringBuilder, Int32Array, Int64Array, LargeStringArray, ListBuilder,
    StringArray, StringViewArray, StringViewBuilder, UInt32Array,
};
use arrow::datatypes::{DataType, Field};
use spark_regexp::column::{Column, ColumnKind, Datum, StringType};
use spark_regexp::decimal::to_decimal;
use spark_regexp::error::MatchError;
use spark_regexp::groups::{select_groups, Selection};
use spark_regexp::list::ListColumn;
use spark_regexp::matching::{match_pattern, match_rows};
use spark_regexp::pattern::{complete_pattern, CompiledPattern, PatternCache};
use spark_regexp::regexp_match::{
    get_scalar_pattern_flag, regexp_array_match, regexp_match, regexp_match_array,
    regexp_scalar_match,
};

type Lists = Vec<Option<Vec<Option<String>>>>;

fn column(array: impl Array + 'static) -> Column {
    let array: ArrayRef = Arc::new(array);
    Column { array }
}

fn texts(rows: Vec<Option<&str>>) -> Column {
    column(StringArray::from(rows))
}

fn rows(rows: Vec<Option<&str>>) -> Datum {
    Datum { column: texts(rows), is_scalar: false }
}

fn scalar(value: Option<&str>) -> Datum {
    Datum { column: texts(vec![value]), is_scalar: true }
}

fn list(elements: Vec<Option<&str>>) -> Option<Vec<Option<String>>> {
    Some(elements.into_iter().map(|element| element.map(|text| text.to_string())).collect())
}

fn owned(rows: Vec<Option<&str>>) -> Vec<Option<String>> {
    rows.into_iter().map(|row| row.map(|text| text.to_string())).collect()
}

#[test]
fn lists_the_groups_of_each_row() {
    let array = texts(vec![
        Some("abc-005-def"),
        Some("X-7-5"),
        Some("X545"),
        None,
        Some("foobarbequebaz"),
        Some("foobarbequebaz"),
    ]);
    let patterns = rows(vec![
        Some(r".*-(\d*)-.*"),
        Some(r".*-(\d*)-.*"),
        Some(r".*-(\d*)-.*"),
        Some(r".*-(\d*)-.*"),
        Some("(bar)(bequ1e)"),
        Some(""),
    ]);
    let lists = regexp_match(&array, &patterns, None).unwrap();
    let expected: Lists =
        vec![list(vec![Some("005")]), list(vec![Some("7")]), None, None, None, list(vec![Some("")])];
    assert_eq!(lists, ListColumn { item_type: StringType::Utf8, rows: expected });
}

#[test]
fn a_pattern_without_groups_lists_the_whole_match() {
    let lists = regexp_match(&texts(vec![Some("xab")]), &rows(vec![Some("a.")]), None).unwrap();
    assert_eq!(lists.rows, vec![list(vec![Some("ab")])]);
}

#[test]
fn the_nth_element_is_the_nth_group() {
    let array = texts(vec![Some("foobarbequebaz"), Some("b")]);
    let patterns = rows(vec![Some("(bar)(beque)"), Some("(a)|(b)")]);
    let lists = regexp_match(&array, &patterns, None).unwrap();
    assert_eq!(
        lists.rows,
        vec![list(vec![Some("bar"), Some("beque")]), list(vec![None, Some("b")])]
    );
}

#[test]
fn flags_are_read_row_by_row() {
    let array = texts(vec![Some("ABC"), Some("ABC"), Some("ABC")]);
    let patterns = rows(vec![Some("(b)"), Some("(b)"), Some("(B)")]);
    let flags = rows(vec![Some("i"), None, None]);
    let lists = regexp_match(&array, &patterns, Some(&flags)).unwrap();
    assert_eq!(lists.rows, vec![list(vec![Some("B")]), None, list(vec![Some("B")])]);
}

#[test]
fn null_flags_are_no_flags() {
    let array = texts(vec![Some("ABC"), Some("abc")]);
    let patterns = rows(vec![Some("b"), Some("b")]);
    let flags = rows(vec![None, None]);
    assert_eq!(
        regexp_match(&array, &patterns, Some(&flags)),
        regexp_match(&array, &patterns, None)
    );
    let pattern = scalar(Some("b"));
    assert_eq!(
        regexp_match(&array, &pattern, Some(&scalar(None))),
        regexp_match(&array, &pattern, None)
    );
}

#[test]
fn empty_single_flags_are_no_flags() {
    let array = texts(vec![Some("abc")]);
    let pattern = scalar(Some("(b)"));
    let lists = regexp_match(&array, &pattern, Some(&scalar(Some("")))).unwrap();
    assert_eq!(lists.rows, vec![list(vec![Some("b")])]);
    assert_eq!(lists, regexp_match(&array, &pattern, None).unwrap());
}

#[test]
fn empty_flags_in_a_column_are_no_flags() {
    let array = texts(vec![Some("abc"), Some("ABC"), Some("ABC")]);
    let patterns = rows(vec![Some("(b)"), Some("(b)"), Some("(b)")]);
    let flags = rows(vec![Some(""), Some(""), Some("i")]);
    let lists = regexp_match(&array, &patterns, Some(&flags)).unwrap();
    assert_eq!(lists.rows, vec![list(vec![Some("b")]), None, list(vec![Some("B")])]);
    let none = rows(vec![Some(""), None, Some("")]);
    assert_eq!(
        regexp_match(&array, &patterns, Some(&none)),
        regexp_match(&array, &patterns, None)
    );
}

#[test]
fn an_empty_pattern_with_empty_flags_lists_the_empty_string() {
    let array = texts(vec![Some("abc"), None]);
    let expected: Lists = vec![list(vec![Some("")]), None];
    let single = regexp_match(&array, &scalar(Some("")), Some(&scalar(Some("")))).unwrap();
    assert_eq!(single.rows, expected);
    let patterns = rows(vec![Some(""), Some("")]);
    let flags = rows(vec![Some(""), Some("")]);
    assert_eq!(regexp_match(&array, &patterns, Some(&flags)).unwrap().rows, expected);
}

#[test]
fn a_list_has_one_element_for_each_group_of_the_pattern() {
    let array = texts(vec![Some("b"), Some("abc"), Some("abc")]);
    let patterns = rows(vec![Some("(a)|(b)|(c)"), Some("(?:a)b"), Some("(?P<x>a)(z)?")]);
    let lists = regexp_match(&array, &patterns, None).unwrap();
    assert_eq!(
        lists.rows,
        vec![
            list(vec![None, Some("b"), None]),
            list(vec![Some("ab")]),
            list(vec![Some("a"), None])
        ]
    );
}

#[test]
fn joined_columns_give_joined_lists() {
    let first = regexp_match(
        &texts(vec![Some("ab"), None]),
        &rows(vec![Some("(A)"), Some("b")]),
        Some(&rows(vec![Some("i"), None])),
    )
    .unwrap();
    let second =
        regexp_match(&texts(vec![Some("c")]), &rows(vec![Some("c")]), Some(&rows(vec![Some("")])))
            .unwrap();
    let joined = regexp_match(
        &texts(vec![Some("ab"), None, Some("c")]),
        &rows(vec![Some("(A)"), Some("b"), Some("c")]),
        Some(&rows(vec![Some("i"), None, Some("")])),
    )
    .unwrap();
    assert_eq!(joined.rows, [first.rows, second.rows].concat());

    let pattern = scalar(Some("a(.)"));
    let first = regexp_match(&texts(vec![Some("ab"), None]), &pattern, None).unwrap();
    let second = regexp_match(&texts(vec![Some("c"), Some("ac")]), &pattern, None).unwrap();
    let joined =
        regexp_match(&texts(vec![Some("ab"), None, Some("c"), Some("ac")]), &pattern, None).unwrap();
    assert_eq!(joined.rows, [first.rows, second.rows].concat());
}

#[test]
fn the_shortest_column_ends_the_result() {
    let array = texts(vec![Some("a"); 4]);
    let patterns = rows(vec![Some("a"); 3]);
    assert_eq!(regexp_match(&array, &patterns, None).unwrap().rows.len(), 3);
    let flags = rows(vec![None; 2]);
    assert_eq!(regexp_match(&array, &patterns, Some(&flags)).unwrap().rows.len(), 2);
    let few = texts(vec![Some("a")]);
    assert_eq!(regexp_match(&few, &patterns, Some(&flags)).unwrap().rows.len(), 1);
}

#[test]
fn a_single_pattern_stands_for_every_row() {
    let array = texts(vec![Some("aXb"), None, Some("b")]);
    let single = regexp_match(&array, &scalar(Some("a(x)")), Some(&scalar(Some("i")))).unwrap();
    assert_eq!(single.rows, vec![list(vec![Some("X")]), None, None]);
    let patterns = rows(vec![Some("a(x)"); 3]);
    let flags = rows(vec![Some("i"); 3]);
    assert_eq!(regexp_match(&array, &patterns, Some(&flags)).unwrap(), single);
}

#[test]
fn an_empty_single_pattern_lists_the_empty_string() {
    let array = texts(vec![Some("foobarbequebaz"), None]);
    let lists = regexp_match(&array, &scalar(Some("")), None).unwrap();
    assert_eq!(lists.rows, vec![list(vec![Some("")]), None]);
}

#[test]
fn a_null_single_pattern_gives_nulls() {
    let array = texts(vec![Some("a"), None, Some("b")]);
    let lists = regexp_match(&array, &scalar(None), Some(&scalar(Some("i")))).unwrap();
    let expected: Lists = vec![None, None, None];
    assert_eq!(lists, ListColumn { item_type: StringType::Utf8, rows: expected });
}

#[test]
fn a_refused_pattern_is_an_error() {
    let detail = format!("{:?}", regex::Regex::new("(").unwrap_err());
    let array = texts(vec![Some("a"), Some("a"), Some("a")]);
    let patterns = rows(vec![Some("a"), Some("("), Some("[")]);
    let error = regexp_match(&array, &patterns, None).unwrap_err();
    assert_eq!(error, MatchError::InvalidPattern(detail.clone()));
    assert_eq!(error.message(), format!("Regular expression did not compile: {detail}"));
}

#[test]
fn a_refused_single_pattern_is_an_error_without_rows() {
    let detail = format!("{:?}", regex::Regex::new("(").unwrap_err());
    let none = texts(vec![]);
    assert_eq!(
        regexp_match(&none, &scalar(Some("(")), None),
        Err(MatchError::InvalidPattern(detail))
    );
    assert!(regexp_match(&none, &rows(vec![Some("(")]), None).unwrap().rows.is_empty());
}

#[test]
fn refused_flags_are_an_error() {
    let detail = format!("{:?}", regex::Regex::new("(?q)a").unwrap_err());
    let lists = regexp_match(&texts(vec![Some("a")]), &scalar(Some("a")), Some(&scalar(Some("q"))));
    assert_eq!(lists, Err(MatchError::InvalidPattern(detail)));
}

#[test]
fn array_and_pattern_must_be_of_one_type() {
    let patterns = Datum { column: column(LargeStringArray::from(vec!["a"])), is_scalar: false };
    let error = regexp_match(&texts(vec![Some("a")]), &patterns, None).unwrap_err();
    assert_eq!(error, MatchError::ArrayPatternTypes);
    assert_eq!(
        error.message(),
        "regexp_match() requires both array and pattern to be either Utf8, Utf8View or LargeUtf8"
    );
    let numbers = Datum { column: column(Int64Array::from(vec![0])), is_scalar: false };
    let error = regexp_match(&column(Int32Array::from(vec![0])), &numbers, None).unwrap_err();
    assert_eq!(error, MatchError::ArrayPatternTypes);
}

#[test]
fn pattern_and_flags_must_be_of_one_shape() {
    let array = texts(vec![Some("a")]);
    let error =
        regexp_match(&array, &rows(vec![Some("a")]), Some(&scalar(Some("i")))).unwrap_err();
    assert_eq!(error, MatchError::PatternFlagsShapes);
    assert_eq!(
        error.message(),
        "regexp_match() requires both pattern and flags to be either scalar or array"
    );
}

#[test]
fn pattern_and_flags_must_be_of_one_type() {
    let flags = Datum { column: column(StringViewArray::from(vec!["i"])), is_scalar: true };
    let array = texts(vec![Some("a")]);
    let error = regexp_match(&array, &scalar(Some("a")), Some(&flags)).unwrap_err();
    assert_eq!(error, MatchError::PatternFlagsTypes);
    assert_eq!(
        error.message(),
        "regexp_match() requires both pattern and flags to be either Utf8, Utf8View or LargeUtf8"
    );
}

#[test]
fn other_types_are_not_matched() {
    let array = column(Int32Array::from(vec![0]));
    let single = Datum { column: column(Int32Array::from(vec![0])), is_scalar: true };
    let error = regexp_match(&array, &single, None).unwrap_err();
    assert_eq!(error, MatchError::PatternType);
    assert_eq!(
        error.message(),
        "regexp_match() requires pattern to be either Utf8, Utf8View or LargeUtf8"
    );
    let numbers = Datum { column: column(Int32Array::from(vec![0])), is_scalar: false };
    let error = regexp_match(&array, &numbers, None).unwrap_err();
    assert_eq!(error, MatchError::ArrayType);
    assert_eq!(
        error.message(),
        "regexp_match() requires array to be either Utf8, Utf8View or LargeUtf8"
    );
    let error = regexp_match(
        &column(UInt32Array::from(vec![0])),
        &Datum { column: column(UInt32Array::from(vec![0])), is_scalar: false },
        None,
    )
    .unwrap_err();
    assert_eq!(error, MatchError::ArrayType);
}

#[test]
fn the_layouts_are_treated_alike() {
    let values = vec![Some("ab"), None, Some("c")];
    let expected: Lists = vec![list(vec![Some("b")]), None, None];
    let large = regexp_match(
        &column(LargeStringArray::from(values.clone())),
        &Datum { column: column(LargeStringArray::from(vec!["a(b)"])), is_scalar: true },
        None,
    )
    .unwrap();
    assert_eq!(large, ListColumn { item_type: StringType::LargeUtf8, rows: expected.clone() });
    let views = regexp_match(
        &column(StringViewArray::from(values.clone())),
        &Datum { column: column(StringViewArray::from(vec!["a(b)"])), is_scalar: true },
        None,
    )
    .unwrap();
    assert_eq!(views, ListColumn { item_type: StringType::Utf8View, rows: expected.clone() });
    let small = regexp_match(&texts(values), &scalar(Some("a(b)")), None).unwrap();
    assert_eq!(small.rows, expected);
}

#[test]
fn lists_become_arrow_arrays() {
    let long = "more than twelve bytes of text";
    let rows: Lists =
        vec![list(vec![Some(long), None, Some("")]), None, list(vec![]), list(vec![Some("b")])];

    let mut utf8 = ListBuilder::new(GenericStringBuilder::<i32>::new());
    utf8.values().append_value(long);
    utf8.values().append_null();
    utf8.values().append_value("");
    utf8.append(true);
    utf8.append(false);
    utf8.append(true);
    utf8.values().append_value("b");
    utf8.append(true);
    let lists = ListColumn { item_type: StringType::Utf8, rows: rows.clone() };
    assert!(lists.fits());
    assert_eq!(lists.to_column().array.as_ref(), &utf8.finish());

    let mut large = ListBuilder::new(GenericStringBuilder::<i64>::new());
    large.values().append_value(long);
    large.values().append_null();
    large.values().append_value("");
    large.append(true);
    large.append(false);
    large.append(true);
    large.values().append_value("b");
    large.append(true);
    let lists = ListColumn { item_type: StringType::LargeUtf8, rows: rows.clone() };
    assert!(lists.fits());
    assert_eq!(lists.to_column().array.as_ref(), &large.finish());

    let mut view = ListBuilder::new(StringViewBuilder::new());
    view.values().append_value(long);
    view.values().append_null();
    view.values().append_value("");
    view.append(true);
    view.append(false);
    view.append(true);
    view.values().append_value("b");
    view.append(true);
    let lists = ListColumn { item_type: StringType::Utf8View, rows };
    assert!(lists.fits());
    assert_eq!(lists.to_column().array.as_ref(), &view.finish());
}

#[test]
fn arrays_are_matched_to_arrays() {
    let mut expected = ListBuilder::new(StringViewBuilder::new());
    expected.values().append_value("more than twelve bytes");
    expected.values().append_null();
    expected.append(true);
    expected.append(false);
    let expected = expected.finish();
    let array = column(StringViewArray::from(vec!["=more than twelve bytes", "none"]));
    let pattern = column(StringViewArray::from(vec!["=(.*)|(x)"]));
    let single = Datum { column: pattern, is_scalar: true };
    let result = regexp_match_array(&array, &single, None).unwrap().unwrap();
    assert_eq!(result.array.as_ref(), &expected);
    let patterns = column(StringViewArray::from(vec!["=(.*)|(x)"; 2]));
    let patterns = Datum { column: patterns, is_scalar: false };
    let result = regexp_match_array(&array, &patterns, None).unwrap().unwrap();
    assert_eq!(result.array.as_ref(), &expected);
    let error = regexp_match_array(&array, &scalar(Some("a")), None).err();
    assert_eq!(error, Some(MatchError::ArrayPatternTypes));
}

#[test]
fn a_result_is_a_list_of_nullable_strings() {
    let list_of = |item: DataType| DataType::List(Arc::new(Field::new("item", item, true)));
    let single = |column: Column| Datum { column, is_scalar: true };
    let utf8 = regexp_match_array(&texts(vec![Some("a")]), &scalar(Some("(a)")), None);
    assert_eq!(utf8.unwrap().unwrap().array.data_type(), &list_of(DataType::Utf8));
    let nulls = regexp_match_array(&texts(vec![Some("a")]), &scalar(None), None);
    assert_eq!(nulls.unwrap().unwrap().array.data_type(), &list_of(DataType::Utf8));
    let large = || column(LargeStringArray::from(vec!["a"]));
    let result = regexp_match_array(&large(), &single(large()), None);
    assert_eq!(result.unwrap().unwrap().array.data_type(), &list_of(DataType::LargeUtf8));
    let views = || column(StringViewArray::from(vec!["a"]));
    let result = regexp_match_array(&views(), &single(views()), None);
    assert_eq!(result.unwrap().unwrap().array.data_type(), &list_of(DataType::Utf8View));
}

#[test]
fn lists_that_outgrow_an_array_are_not_written() {
    let text = String::from_utf8(vec![0; i32::MAX as usize + 1]).unwrap();
    let mut lists = ListColumn { item_type: StringType::Utf8, rows: vec![Some(vec![Some(text)])] };
    assert!(!lists.fits());
    assert!(lists.to_column_if_fits().is_none());
    lists.item_type = StringType::LargeUtf8;
    assert!(lists.fits());
    lists.item_type = StringType::Utf8View;
    assert!(lists.fits());
}

#[test]
fn columns_know_their_kind_and_rows() {
    let numbers = column(UInt32Array::from(vec![Some(7), None]));
    assert_eq!(numbers.kind(), ColumnKind::UInt32);
    assert_eq!(numbers.indices(), vec![Some(7), None]);
    assert_eq!(column(Int32Array::from(vec![7])).kind(), ColumnKind::Other);
    let text = texts(vec![Some("a"), None]);
    assert_eq!(text.kind(), ColumnKind::Text(StringType::Utf8));
    assert_eq!(text.texts(), owned(vec![Some("a"), None]));
    let large = column(LargeStringArray::from(vec![Some("a"), None]));
    assert_eq!(large.kind(), ColumnKind::Text(StringType::LargeUtf8));
    assert_eq!(large.texts(), owned(vec![Some("a"), None]));
    let views = column(StringViewArray::from(vec![Some("a"), None]));
    assert_eq!(views.kind(), ColumnKind::Text(StringType::Utf8View));
    assert_eq!(views.texts(), owned(vec![Some("a"), None]));
    assert!(text.same_type(&texts(vec![])));
    assert!(!text.same_type(&large));
    assert!(!text.same_type(&numbers));
    assert!(column(Int32Array::from(vec![7])).same_type(&column(Int32Array::from(vec![8]))));
    assert!(!column(Int32Array::from(vec![7])).same_type(&column(Int64Array::from(vec![7]))));
}

#[test]
fn scalars_are_first_rows() {
    let first = texts(vec![Some("a"), Some("b")]);
    let null = texts(vec![None]);
    assert_eq!(get_scalar_pattern_flag(&first, None), (Some("a".to_string()), None));
    assert_eq!(get_scalar_pattern_flag(&null, Some(&first)), (None, Some("a".to_string())));
}

#[test]
fn kernels_match_columns() {
    let array = texts(vec![Some("ab"), Some("cd")]);
    let patterns = texts(vec![Some("(a)(b)"), Some("(c)(d)")]);
    let indices = column(UInt32Array::from(vec![2, 1]));
    let lists = regexp_array_match(&array, &patterns, None, Some(&indices)).unwrap();
    assert_eq!(lists, vec![list(vec![Some("b")]), list(vec![Some("c")])]);
    let pattern = CompiledPattern::new("^a").unwrap();
    assert_eq!(regexp_scalar_match(&array, &pattern), vec![list(vec![Some("a")]), None]);
}

#[test]
fn rows_are_matched_without_arrays() {
    let values = owned(vec![Some("ab"), None]);
    let patterns = owned(vec![Some("A"), Some("(")]);
    let flags = owned(vec![Some("i"), None]);
    let lists = match_rows(&values, &patterns, Some(&flags), None);
    assert_eq!(lists, Ok(vec![list(vec![Some("a")]), None]));
    let lists = match_rows(&values, &patterns, None, Some(&vec![Some(0), Some(0)]));
    assert_eq!(lists, Ok(vec![None, None]));
    let pattern = CompiledPattern::new("b").unwrap();
    assert_eq!(match_pattern(&values, &pattern), vec![list(vec![Some("b")]), None]);
}

#[test]
fn the_cache_does_not_change_what_is_found() {
    let mut cache = PatternCache::new();
    let first = cache.groups("a(.)", "xab").unwrap();
    assert_eq!(first, list(vec![Some("ab"), Some("b")]));
    assert_eq!(cache.groups("a(.)", "xab").unwrap(), first);
    assert_eq!(cache.groups("a(.)", "b").unwrap(), None);
    assert_eq!(cache.groups("", "b").unwrap(), list(vec![Some("")]));
    assert!(cache.groups("(", "b").is_err());
    assert_eq!(CompiledPattern::new("").unwrap().groups("b"), list(vec![Some("")]));
}

#[test]
fn groups_are_selected() {
    let groups = || list(vec![Some("ab"), None, Some("b")]);
    assert_eq!(select_groups(None, Selection::All), None);
    assert_eq!(select_groups(None, Selection::Nth(0)), None);
    assert_eq!(select_groups(groups(), Selection::All), list(vec![None, Some("b")]));
    assert_eq!(select_groups(groups(), Selection::Nth(0)), list(vec![Some("ab")]));
    assert_eq!(select_groups(groups(), Selection::Nth(1)), None);
    assert_eq!(select_groups(groups(), Selection::Nth(2)), list(vec![Some("b")]));
    assert_eq!(select_groups(groups(), Selection::Nth(3)), None);
    assert_eq!(select_groups(list(vec![Some("a")]), Selection::All), list(vec![Some("a")]));
}

#[test]
fn flags_stand_before_the_pattern() {
    assert_eq!(complete_pattern("a+", Some("im")), "(?im)a+");
    assert_eq!(complete_pattern("a+", None), "a+");
    assert_eq!(complete_pattern("a+", Some("")), "a+");
    assert_eq!(complete_pattern("", Some("")), "");
    assert_eq!(complete_pattern("", Some("i")), "(?i)");
}

#[test]
fn numbers_are_written_in_decimal() {
    assert_eq!(to_decimal(0), "0");
    assert_eq!(to_decimal(1234567890), "1234567890");
    assert_eq!(to_decimal(usize::MAX), format!("{}", usize::MAX));
}
