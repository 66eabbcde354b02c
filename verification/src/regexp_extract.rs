//! The Spark function `regexp_extract`.

use crate::column::{Column, StringType};
use crate::decimal::{decimal_digits, to_decimal};
use crate::error::{MatchError, MatchErrorView};
use crate::list::{holds_lists, rows_viewable, total_bytes, total_items};
use crate::list::{ListColumn, ListColumnView};
use crate::matching::all_follow_groups;
use crate::regexp_match::{group_rows, match_group_outcome, regexp_match_group};
use vstd::prelude::*;

verus! {

/// A type that an argument of the function can have.
///
/// `Other` stands for every type that the function does not take. It carries the type's debug
/// rendering, with which it is shown in messages.
#[derive(Debug, PartialEq, Eq, Hash)]
pub enum DataType {
    Utf8,
    LargeUtf8,
    Utf8View,
    UInt32,
    Other(String),
}

/// What a [`DataType`] stands for.
pub enum DataTypeView {
    Utf8,
    LargeUtf8,
    Utf8View,
    UInt32,
    Other(Seq<char>),
}

impl View for DataType {
    type V = DataTypeView;

    open spec fn view(&self) -> DataTypeView {
        match self {
            DataType::Utf8 => DataTypeView::Utf8,
            DataType::LargeUtf8 => DataTypeView::LargeUtf8,
            DataType::Utf8View => DataTypeView::Utf8View,
            DataType::UInt32 => DataTypeView::UInt32,
            DataType::Other(name) => DataTypeView::Other(name@),
        }
    }
}

impl DeepView for DataType {
    type V = DataTypeView;

    open spec fn deep_view(&self) -> DataTypeView {
        self@
    }
}

impl DataTypeView {
    /// Whether this is one of the three string types.
    pub open spec fn is_text(self) -> bool {
        self is Utf8 || self is LargeUtf8 || self is Utf8View
    }

    /// The debug rendering of the type.
    pub open spec fn name(self) -> Seq<char> {
        match self {
            DataTypeView::Utf8 => "Utf8"@,
            DataTypeView::LargeUtf8 => "LargeUtf8"@,
            DataTypeView::Utf8View => "Utf8View"@,
            DataTypeView::UInt32 => "UInt32"@,
            DataTypeView::Other(name) => name,
        }
    }
}

impl DataType {
    /// The debug rendering of the type.
    pub fn name(&self) -> (name: String)
        ensures
            name@ == self@.name(),
    {
        match self {
            DataType::Utf8 => "Utf8".to_string(),
            DataType::LargeUtf8 => "LargeUtf8".to_string(),
            DataType::Utf8View => "Utf8View".to_string(),
            DataType::UInt32 => "UInt32".to_string(),
            DataType::Other(name) => name.clone(),
        }
    }
}

/// A list of argument types that a function takes.
#[derive(Debug, PartialEq, Eq, Hash)]
pub enum TypeSignature {
    /// As many arguments, each of exactly the type at its place.
    Exact(Vec<DataType>),
}

impl DeepView for TypeSignature {
    type V = Seq<DataTypeView>;

    /// The argument types.
    open spec fn deep_view(&self) -> Seq<DataTypeView> {
        match self {
            TypeSignature::Exact(types) => types.deep_view(),
        }
    }
}

/// How the result of a function varies between calls on the same arguments.
#[derive(Debug, Clone, Copy, PartialEq, Eq, Hash, Structural)]
pub enum Volatility {
    /// It never varies.
    Immutable,
}

/// What a planner knows of a function's arguments.
#[derive(Debug, PartialEq, Eq, Hash)]
pub struct Signature {
    /// The accepted lists of argument types, the most preferred first.
    pub one_of: Vec<TypeSignature>,
    /// How the result varies between calls.
    pub volatility: Volatility,
}

/// Why a call of the function fails.
#[derive(Debug, PartialEq, Eq)]
pub enum ExtractError {
    /// The planner passed on arguments that the function does not take.
    Internal(String),
    /// The function cannot be evaluated on arguments of these types.
    Execution(String),
    /// The matching failed.
    Match(MatchError),
}

/// What an [`ExtractError`] stands for.
pub enum ExtractErrorView {
    Internal(Seq<char>),
    Execution(Seq<char>),
    Match(MatchErrorView),
}

impl View for ExtractError {
    type V = ExtractErrorView;

    open spec fn view(&self) -> ExtractErrorView {
        match self {
            ExtractError::Internal(text) => ExtractErrorView::Internal(text@),
            ExtractError::Execution(text) => ExtractErrorView::Execution(text@),
            ExtractError::Match(error) => ExtractErrorView::Match(error@),
        }
    }
}

impl ExtractErrorView {
    /// The text that a user is shown.
    pub open spec fn message(self) -> Seq<char> {
        match self {
            ExtractErrorView::Internal(text) => text,
            ExtractErrorView::Execution(text) => text,
            ExtractErrorView::Match(error) => error.message(),
        }
    }
}

impl ExtractError {
    /// The text that a user is shown.
    pub fn message(&self) -> (text: String)
        ensures
            text@ == self@.message(),
    {
        match self {
            ExtractError::Internal(text) => text.clone(),
            ExtractError::Execution(text) => text.clone(),
            ExtractError::Match(error) => error.message(),
        }
    }
}

/// The function `regexp_extract` of Spark:
/// <https://spark.apache.org/docs/latest/api/python/reference/pyspark.sql/api/pyspark.sql.functions.regexp_extract.html>
#[derive(Debug, PartialEq, Eq, Hash)]
pub struct SparkRegexpExtract {
    signature: Signature,
}

/// The argument types that the function takes, the most preferred first.
///
/// A planner attempts to coerce the arguments to each list in turn. Given `(Utf8View, Utf8,
/// UInt32)`, it first tries `(Utf8View, Utf8View, UInt32)`, and then `(Utf8, Utf8, UInt32)`.
pub open spec fn accepted_types() -> Seq<Seq<DataTypeView>> {
    seq![
        seq![DataTypeView::Utf8View, DataTypeView::Utf8View, DataTypeView::UInt32],
        seq![DataTypeView::Utf8, DataTypeView::Utf8, DataTypeView::UInt32],
        seq![DataTypeView::LargeUtf8, DataTypeView::LargeUtf8, DataTypeView::UInt32],
    ]
}

/// The list of exactly three argument types.
fn exact(first: DataType, second: DataType, third: DataType) -> (types: TypeSignature)
    ensures
        types.deep_view() == seq![first@, second@, third@],
{
    let mut types: Vec<DataType> = Vec::new();
    types.push(first);
    types.push(second);
    types.push(third);
    assert(types.deep_view() =~= seq![first@, second@, third@]);
    TypeSignature::Exact(types)
}

/// The type that is announced to a planner for arguments of the given types: that of the elements
/// of the result, which is a column of lists.
pub open spec fn return_type_outcome(arg_types: Seq<DataTypeView>) -> Result<
    DataTypeView,
    ExtractErrorView,
> {
    if arg_types[0].is_text() {
        Ok(arg_types[0])
    } else {
        Err(
            ExtractErrorView::Execution(
                "Spark `regexp_extract` function: argument must be Utf8, Utf8View or LargeUtf8, got "@
                    + arg_types[0].name(),
            ),
        )
    }
}

impl SparkRegexpExtract {
    /// What a planner knows of the function's arguments.
    pub closed spec fn signature_view(self) -> Signature {
        self.signature
    }

    /// The function, with its signature.
    pub fn new() -> (function: SparkRegexpExtract)
        ensures
            function.signature_view().one_of.deep_view() == accepted_types(),
            function.signature_view().volatility == Volatility::Immutable,
    {
        let mut one_of: Vec<TypeSignature> = Vec::new();
        one_of.push(exact(DataType::Utf8View, DataType::Utf8View, DataType::UInt32));
        one_of.push(exact(DataType::Utf8, DataType::Utf8, DataType::UInt32));
        one_of.push(exact(DataType::LargeUtf8, DataType::LargeUtf8, DataType::UInt32));
        assert(one_of.deep_view() =~= accepted_types());
        SparkRegexpExtract { signature: Signature { one_of, volatility: Volatility::Immutable } }
    }

    /// The name under which the function is registered.
    pub fn name(&self) -> (name: &str)
        ensures
            name@ == "regexp_match"@,
    {
        "regexp_match"
    }

    /// What a planner knows of the function's arguments.
    pub fn signature(&self) -> (signature: &Signature)
        ensures
            *signature == self.signature_view(),
    {
        &self.signature
    }

    /// The type that is announced to a planner for arguments of the given types, of which there is
    /// at least one: that of the elements of the result, which is a column of lists.
    pub fn return_type(&self, arg_types: &[DataType]) -> (result: Result<DataType, ExtractError>)
        requires
            arg_types@.len() > 0,
        ensures
            ({
                let outcome = return_type_outcome(arg_types.deep_view());
                match result {
                    Ok(data_type) => outcome == Ok::<_, ExtractErrorView>(data_type@),
                    Err(error) => outcome == Err::<DataTypeView, _>(error@),
                }
            }),
    {
        match &arg_types[0] {
            DataType::Utf8View => Ok(DataType::Utf8View),
            DataType::Utf8 => Ok(DataType::Utf8),
            DataType::LargeUtf8 => Ok(DataType::LargeUtf8),
            other => {
                let mut text =
                    "Spark `regexp_extract` function: argument must be Utf8, Utf8View or LargeUtf8, got ".to_string();
                text.append(other.name().as_str());
                Err(ExtractError::Execution(text))
            },
        }
    }
}

impl Default for SparkRegexpExtract {
    fn default() -> (function: SparkRegexpExtract)
        ensures
            function.signature_view().one_of.deep_view() == accepted_types(),
            function.signature_view().volatility == Volatility::Immutable,
    {
        SparkRegexpExtract::new()
    }
}

/// What [`spark_regexp_extract`] gives.
pub open spec fn extract_outcome(args: Seq<Column>) -> Result<ListColumnView, ExtractErrorView> {
    if args.len() != 3 {
        Err(
            ExtractErrorView::Internal(
                "Spark `regexp_extract` function requires 3 argument, got "@ + decimal_digits(
                    args.len(),
                ),
            ),
        )
    } else {
        match match_group_outcome(args[0], args[1], args[2]) {
            Ok(lists) => Ok(lists),
            Err(error) => Err(ExtractErrorView::Match(error)),
        }
    }
}

/// Evaluates the function on three columns: the strings, the patterns and the group indices.
///
/// The row of the result is a list of one element, the substring that the group with the row's
/// index matched, or null where there is none.
pub fn spark_regexp_extract(args: &[Column]) -> (result: Result<ListColumn, ExtractError>)
    ensures
        match result {
            Ok(lists) => extract_outcome(args@) == Ok::<_, ExtractErrorView>(lists@)
                && all_follow_groups(lists@.rows, group_rows(args@[0], args@[1], args@[2])),
            Err(error) => extract_outcome(args@) == Err::<ListColumnView, _>(error@),
        },
{
    if args.len() != 3 {
        let mut text = "Spark `regexp_extract` function requires 3 argument, got ".to_string();
        text.append(to_decimal(args.len()).as_str());
        return Err(ExtractError::Internal(text));
    }
    match regexp_match_group(&args[0], &args[1], &args[2]) {
        Ok(lists) => Ok(lists),
        Err(error) => Err(ExtractError::Match(error)),
    }
}

/// [`spark_regexp_extract`] with its result written as one Arrow array, a `List` of nullable
/// strings of the searched layout, or `None` where the lists do not fit one array.
pub fn spark_regexp_extract_array(args: &[Column]) -> (result: Result<Option<Column>, ExtractError>)
    ensures
        match result {
            Ok(Some(column)) => {
                &&& extract_outcome(args@) matches Ok(lists)
                &&& lists.fits()
                &&& holds_lists(column, lists)
                &&& all_follow_groups(lists.rows, group_rows(args@[0], args@[1], args@[2]))
            },
            Ok(None) => extract_outcome(args@) matches Ok(lists) && !lists.fits(),
            Err(error) => extract_outcome(args@) == Err::<ListColumnView, _>(error@),
        },
        extract_outcome(args@) matches Ok(lists) ==> (total_items(lists.rows) <= i32::MAX
            && match lists.item_type {
            StringType::Utf8 => total_bytes(lists.rows) <= i32::MAX,
            StringType::LargeUtf8 => total_bytes(lists.rows) <= i64::MAX,
            StringType::Utf8View => rows_viewable(lists.rows),
        } ==> result matches Ok(Some(_))),
{
    match spark_regexp_extract(args) {
        Ok(lists) => Ok(lists.to_column_if_fits()),
        Err(error) => Err(error),
    }
}

} // verus!
