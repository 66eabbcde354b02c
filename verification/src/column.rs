//! Columns, as Arrow arrays hold them.

use arrow::array::{Array, ArrayRef, AsArray};
use arrow::datatypes::UInt32Type;
use vstd::prelude::*;

verus! {

/// One of the three physical layouts of a string column.
#[derive(Debug, Clone, Copy, PartialEq, Eq, Hash, Structural)]
pub enum StringType {
    Utf8,
    LargeUtf8,
    Utf8View,
}

/// The column types that the kernels tell apart.
#[derive(Debug, Clone, Copy, PartialEq, Eq, Hash, Structural)]
pub enum ColumnKind {
    /// A string column.
    Text(StringType),
    /// A column of `u32` numbers.
    UInt32,
    /// A column of any other type.
    Other,
}

/// A column: an Arrow array of any type. The field is public for callers to hand an array in and
/// to take one out.
#[verifier::external_body]
pub struct Column {
    pub array: ArrayRef,
}

/// Which type a column has, as far as the kernels tell types apart.
pub uninterp spec fn column_kind(column: Column) -> ColumnKind;

/// Whether two columns of kind `Other` have the same Arrow type.
pub uninterp spec fn same_other_types(left: Column, right: Column) -> bool;

/// The rows of a string column, null as `None`.
pub uninterp spec fn text_rows(column: Column) -> Seq<Option<Seq<char>>>;

/// The rows of a `UInt32` column, null as `None`.
pub uninterp spec fn index_rows(column: Column) -> Seq<Option<u32>>;

/// Whether two columns have the same Arrow type.
pub open spec fn same_types(left: Column, right: Column) -> bool {
    &&& column_kind(left) == column_kind(right)
    &&& column_kind(left) is Other ==> same_other_types(left, right)
}

/// Calls `Array::data_type`.
///
/// Claims no more than which of the listed types the array has.
#[verifier::external_body]
fn kind_of(column: &Column) -> (kind: ColumnKind)
    ensures
        kind == column_kind(*column),
{
    match column.array.data_type() {
        arrow::datatypes::DataType::Utf8 => ColumnKind::Text(StringType::Utf8),
        arrow::datatypes::DataType::LargeUtf8 => ColumnKind::Text(StringType::LargeUtf8),
        arrow::datatypes::DataType::Utf8View => ColumnKind::Text(StringType::Utf8View),
        arrow::datatypes::DataType::UInt32 => ColumnKind::UInt32,
        _ => ColumnKind::Other,
    }
}

/// Compares two `Array::data_type` with `==`.
///
/// Claims that a listed type, which has no parameters, equals itself alone. When two other types
/// are equal is left to Arrow.
#[verifier::external_body]
fn types_equal(left: &Column, right: &Column) -> (equal: bool)
    ensures
        equal == (column_kind(*left) == column_kind(*right) && (column_kind(*left) is Other
            ==> same_other_types(*left, *right))),
{
    left.array.data_type() == right.array.data_type()
}

/// Calls `iter` on the `StringArray` that a column of type `Utf8` is, and copies each row out.
///
/// Claims that the rows come in order, one for each slot, and that a row is `None` where its
/// slot is null.
#[verifier::external_body]
fn read_utf8(column: &Column) -> (rows: Vec<Option<String>>)
    requires
        column_kind(*column) == ColumnKind::Text(StringType::Utf8),
    ensures
        rows.deep_view() == text_rows(*column),
{
    column.array.as_string::<i32>().iter().map(|row| row.map(|text| text.to_string())).collect()
}

/// Calls `iter` on the `LargeStringArray` that a column of type `LargeUtf8` is, and copies each
/// row out.
///
/// Claims that the rows come in order, one for each slot, and that a row is `None` where its
/// slot is null.
#[verifier::external_body]
fn read_large_utf8(column: &Column) -> (rows: Vec<Option<String>>)
    requires
        column_kind(*column) == ColumnKind::Text(StringType::LargeUtf8),
    ensures
        rows.deep_view() == text_rows(*column),
{
    column.array.as_string::<i64>().iter().map(|row| row.map(|text| text.to_string())).collect()
}

/// Calls `iter` on the `StringViewArray` that a column of type `Utf8View` is, and copies each
/// row out.
///
/// Claims that the rows come in order, one for each slot, and that a row is `None` where its
/// slot is null.
#[verifier::external_body]
fn read_utf8_view(column: &Column) -> (rows: Vec<Option<String>>)
    requires
        column_kind(*column) == ColumnKind::Text(StringType::Utf8View),
    ensures
        rows.deep_view() == text_rows(*column),
{
    column.array.as_string_view().iter().map(|row| row.map(|text| text.to_string())).collect()
}

/// Calls `iter` on the `UInt32Array` that a column of type `UInt32` is.
///
/// Claims that the rows come in order, one for each slot, and that a row is `None` where its
/// slot is null.
#[verifier::external_body]
fn read_uint32(column: &Column) -> (rows: Vec<Option<u32>>)
    requires
        column_kind(*column) is UInt32,
    ensures
        rows@ == index_rows(*column),
{
    column.array.as_primitive::<UInt32Type>().iter().collect()
}

impl Column {
    /// The type of the column.
    pub fn kind(&self) -> (kind: ColumnKind)
        ensures
            kind == column_kind(*self),
    {
        kind_of(self)
    }

    /// Whether this column and another have the same type.
    pub fn same_type(&self, other: &Column) -> (same: bool)
        ensures
            same == same_types(*self, *other),
    {
        types_equal(self, other)
    }

    /// The rows of a string column.
    pub fn texts(&self) -> (rows: Vec<Option<String>>)
        requires
            column_kind(*self) is Text,
        ensures
            rows.deep_view() == text_rows(*self),
    {
        match self.kind() {
            ColumnKind::Text(StringType::LargeUtf8) => read_large_utf8(self),
            ColumnKind::Text(StringType::Utf8View) => read_utf8_view(self),
            _ => read_utf8(self),
        }
    }

    /// The rows of a `UInt32` column.
    pub fn indices(&self) -> (rows: Vec<Option<u32>>)
        requires
            column_kind(*self) is UInt32,
        ensures
            rows.deep_view() == index_rows(*self),
    {
        let rows = read_uint32(self);
        assert(rows.deep_view() =~= rows@);
        rows
    }
}

/// An argument that is a column, or a single value that stands for every row.
pub struct Datum {
    /// The column. A single value is its first row.
    pub column: Column,
    /// Whether the argument is a single value.
    pub is_scalar: bool,
}

} // verus!
