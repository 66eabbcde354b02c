use std::sync::Arc;

use arrow::array::{
    Array, ArrayRef, GenericStringBuilder, Int32Array, LargeStringArray, ListBuilder, StringArray,
    StringViewArray, StringViewBuilder, UInt32Array,
};
use spark_regexp::column::{Column, StringType};
use spark_regexp::error::MatchError;
use spark_regexp::list::ListColumn;
use spark_regexp::regexp_extract::{
    spark_regexp_extract, spark_regexp_extract_array, DataType, ExtractError, SparkRegexpExtract,
    TypeSignature, Volatility,
};

fn column(array: impl Array + 'static) -> Column {
    let array: ArrayRef = Arc::new(array);
    Column { array }
}

fn one(text: &str) -> Option<Vec<Option<String>>> {
    Some(vec![Some(text.to_string())])
}

fn extract(
    values: Vec<Option<&str>>,
    patterns: Vec<Option<&str>>,
    indices: Vec<Option<u32>>,
) -> Result<ListColumn, ExtractError> {
    spark_regexp_extract(&[
        column(StringArray::from(values)),
        column(StringArray::from(patterns)),
        column(UInt32Array::from(indices)),
    ])
}

#[test]
fn test_spark_regexp_extract() {
    let values = StringArray::from(vec!["abc"; 5]);
    let patterns = StringArray::from(vec!["^(a)", "^(a)", "(a)(b|d)", "(B|D)", "^(b|c)"]);

    let elem_builder: GenericStringBuilder<i32> = GenericStringBuilder::new();
    let mut expected_builder = ListBuilder::new(elem_builder);
    expected_builder.values().append_value("a");
    expected_builder.append(true);
    expected_builder.append(false);
    expected_builder.values().append_value("b");
    expected_builder.append(true);
    expected_builder.append(false);
    expected_builder.append(false);
    let expected = expected_builder.finish();

    let idx = UInt32Array::new(vec![1, 3, 2, 1, 1].into(), None);
    let re = spark_regexp_extract(&[column(values), column(patterns), column(idx)]).unwrap();

    assert!(re.fits());
    assert_eq!(re.to_column().array.as_ref(), &expected);
}

#[test]
fn arrays_are_extracted_to_arrays() {
    let mut expected = ListBuilder::new(GenericStringBuilder::<i32>::new());
    expected.values().append_value("b");
    expected.append(true);
    expected.append(false);
    let args = [
        column(StringArray::from(vec!["abc", "abc"])),
        column(StringArray::from(vec!["a(b)", "a(b)"])),
        column(UInt32Array::from(vec![1, 2])),
    ];
    let re = spark_regexp_extract_array(&args).unwrap().unwrap();
    assert_eq!(re.array.as_ref(), &expected.finish());
    let error = spark_regexp_extract_array(&args[..2]).err();
    assert_eq!(error, spark_regexp_extract(&args[..2]).err());
    assert!(matches!(error, Some(ExtractError::Internal(_))));
}

#[test]
fn joined_columns_give_joined_extractions() {
    let first = extract(vec![Some("ab"), None], vec![Some("(a)"), Some("b")], vec![Some(1), Some(0)]);
    let second = extract(vec![Some("c")], vec![Some("c")], vec![Some(0)]);
    let joined = extract(
        vec![Some("ab"), None, Some("c")],
        vec![Some("(a)"), Some("b"), Some("c")],
        vec![Some(1), Some(0), Some(0)],
    );
    assert_eq!(joined.unwrap().rows, [first.unwrap().rows, second.unwrap().rows].concat());
}

#[test]
fn extracts_from_large_strings() {
    let mut expected = ListBuilder::new(GenericStringBuilder::<i64>::new());
    expected.values().append_value("b");
    expected.append(true);
    expected.append(false);
    let re = spark_regexp_extract(&[
        column(LargeStringArray::from(vec![Some("abc"), None])),
        column(LargeStringArray::from(vec!["a(b)", "a"])),
        column(UInt32Array::from(vec![1, 0])),
    ])
    .unwrap();
    assert_eq!(re.item_type, StringType::LargeUtf8);
    assert_eq!(re.to_column().array.as_ref(), &expected.finish());
}

#[test]
fn extracts_from_string_views() {
    let mut expected = ListBuilder::new(StringViewBuilder::new());
    expected.values().append_value("a text of more than twelve bytes");
    expected.append(true);
    expected.append(false);
    let re = spark_regexp_extract(&[
        column(StringViewArray::from(vec![Some("<a text of more than twelve bytes>"), None])),
        column(StringViewArray::from(vec!["<(.*)>", "a"])),
        column(UInt32Array::from(vec![1, 0])),
    ])
    .unwrap();
    assert_eq!(re.item_type, StringType::Utf8View);
    assert_eq!(re.to_column().array.as_ref(), &expected.finish());
}

#[test]
fn index_zero_is_the_whole_match() {
    let re = extract(vec![Some("xabcx")], vec![Some("a(b)c")], vec![Some(0)]).unwrap();
    assert_eq!(re.rows, vec![one("abc")]);
}

#[test]
fn a_null_anywhere_gives_null() {
    let re = extract(
        vec![None, Some("a"), Some("a")],
        vec![Some("a"), None, Some("a")],
        vec![Some(0), Some(0), None],
    )
    .unwrap();
    assert_eq!(re.rows, vec![None, None, None]);
}

#[test]
fn a_group_that_took_no_part_gives_null() {
    let re = extract(vec![Some("b"), Some("b")], vec![Some("(a)|(b)"); 2], vec![Some(1), Some(2)]);
    assert_eq!(re.unwrap().rows, vec![None, one("b")]);
}

#[test]
fn an_empty_pattern_has_the_whole_match_alone() {
    let re = extract(vec![Some("abc"), Some("abc")], vec![Some(""); 2], vec![Some(0), Some(1)]);
    assert_eq!(re.unwrap().rows, vec![one(""), None]);
}

#[test]
fn the_shortest_column_ends_the_extraction() {
    let re = extract(vec![Some("a"); 4], vec![Some("a"); 3], vec![Some(0); 2]).unwrap();
    assert_eq!(re.rows, vec![one("a"), one("a")]);
}

#[test]
fn extraction_fails_with_a_refused_pattern() {
    let error = extract(vec![Some("a")], vec![Some("(")], vec![Some(0)]).unwrap_err();
    let detail = format!("{:?}", regex::Regex::new("(").unwrap_err());
    assert_eq!(error, ExtractError::Match(MatchError::InvalidPattern(detail.clone())));
    assert_eq!(error.message(), format!("Regular expression did not compile: {detail}"));
}

#[test]
fn a_refused_pattern_of_a_null_row_is_not_compiled() {
    let re = extract(vec![None, Some("a")], vec![Some("("), Some("(")], vec![Some(0), None]);
    assert_eq!(re.unwrap().rows, vec![None, None]);
}

#[test]
fn other_numbers_of_arguments_are_internal_errors() {
    let error = spark_regexp_extract(&[column(StringArray::from(vec!["a"]))]).unwrap_err();
    let text = "Spark `regexp_extract` function requires 3 argument, got 1";
    assert_eq!(error, ExtractError::Internal(text.to_string()));
    assert_eq!(error.message(), text);
    let error = spark_regexp_extract(&[]).unwrap_err();
    assert_eq!(error.message(), "Spark `regexp_extract` function requires 3 argument, got 0");
}

#[test]
fn the_index_must_be_uint32() {
    let error = spark_regexp_extract(&[
        column(StringArray::from(vec!["a"])),
        column(StringArray::from(vec!["a"])),
        column(Int32Array::from(vec![0])),
    ])
    .unwrap_err();
    assert_eq!(error, ExtractError::Match(MatchError::IndexType));
    assert_eq!(error.message(), "regexp_match() requires index to be UInt32");
}

#[test]
fn strings_and_patterns_must_be_of_one_type() {
    let error = spark_regexp_extract(&[
        column(StringArray::from(vec!["a"])),
        column(LargeStringArray::from(vec!["a"])),
        column(UInt32Array::from(vec![0])),
    ])
    .unwrap_err();
    assert_eq!(error, ExtractError::Match(MatchError::ArrayPatternTypes));
    let error = spark_regexp_extract(&[
        column(Int32Array::from(vec![0])),
        column(Int32Array::from(vec![0])),
        column(UInt32Array::from(vec![0])),
    ])
    .unwrap_err();
    assert_eq!(error, ExtractError::Match(MatchError::ArrayType));
}

#[test]
fn the_signature_lists_views_first() {
    let function = SparkRegexpExtract::new();
    assert_eq!(function, SparkRegexpExtract::default());
    assert_eq!(function.name(), "regexp_match");
    assert_eq!(function.signature().volatility, Volatility::Immutable);
    assert_eq!(
        function.signature().one_of,
        vec![
            TypeSignature::Exact(vec![DataType::Utf8View, DataType::Utf8View, DataType::UInt32]),
            TypeSignature::Exact(vec![DataType::Utf8, DataType::Utf8, DataType::UInt32]),
            TypeSignature::Exact(vec![DataType::LargeUtf8, DataType::LargeUtf8, DataType::UInt32]),
        ]
    );
}

#[test]
fn the_return_type_is_that_of_the_strings() {
    let function = SparkRegexpExtract::new();
    assert_eq!(function.return_type(&[DataType::Utf8View]), Ok(DataType::Utf8View));
    assert_eq!(function.return_type(&[DataType::Utf8, DataType::UInt32]), Ok(DataType::Utf8));
    assert_eq!(function.return_type(&[DataType::LargeUtf8]), Ok(DataType::LargeUtf8));
    let error = function.return_type(&[DataType::UInt32]).unwrap_err();
    assert_eq!(
        error.message(),
        "Spark `regexp_extract` function: argument must be Utf8, Utf8View or LargeUtf8, got UInt32"
    );
    let other = DataType::Other("Int32".to_string());
    let error = function.return_type(&[other, DataType::Utf8]).unwrap_err();
    let text =
        "Spark `regexp_extract` function: argument must be Utf8, Utf8View or LargeUtf8, got Int32";
    assert_eq!(error, ExtractError::Execution(text.to_string()));
}

#[test]
fn data_types_are_named_as_they_are_written() {
    assert_eq!(DataType::Utf8.name(), "Utf8");
    assert_eq!(DataType::LargeUtf8.name(), "LargeUtf8");
    assert_eq!(DataType::Utf8View.name(), "Utf8View");
}
