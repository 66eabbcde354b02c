//! Lists of strings: one list, or null, for each row.

use crate::column::{Column, StringType};
use arrow::array::{ArrayBuilder, GenericStringBuilder, ListBuilder, StringViewBuilder};
use std::sync::Arc;
use vstd::prelude::*;
use vstd::utf8::encode_utf8;

verus! {

/// The number of bytes of a list element in UTF-8.
pub open spec fn text_bytes(text: Option<Seq<char>>) -> nat {
    match text {
        Some(chars) => encode_utf8(chars).len(),
        None => 0,
    }
}

/// The number of bytes of the elements of a list.
pub open spec fn list_bytes(list: Seq<Option<Seq<char>>>) -> nat
    decreases list.len(),
{
    if list.len() == 0 {
        0
    } else {
        list_bytes(list.drop_last()) + text_bytes(list.last())
    }
}

/// The number of bytes of all elements of all lists.
pub open spec fn total_bytes(rows: Seq<Option<Seq<Option<Seq<char>>>>>) -> nat
    decreases rows.len(),
{
    if rows.len() == 0 {
        0
    } else {
        total_bytes(rows.drop_last()) + match rows.last() {
            Some(list) => list_bytes(list),
            None => 0,
        }
    }
}

/// The number of elements of all lists.
pub open spec fn total_items(rows: Seq<Option<Seq<Option<Seq<char>>>>>) -> nat
    decreases rows.len(),
{
    if rows.len() == 0 {
        0
    } else {
        total_items(rows.drop_last()) + match rows.last() {
            Some(list) => list.len(),
            None => 0,
        }
    }
}

/// Whether every element of a list is small enough for a view: its block is smaller than
/// `u32::MAX` bytes.
pub open spec fn list_viewable(list: Seq<Option<Seq<char>>>) -> bool {
    forall|j: int| 0 <= j < list.len() ==> text_bytes(#[trigger] list[j]) < u32::MAX
}

/// Whether every element of every list is small enough for a view.
pub open spec fn rows_viewable(rows: Seq<Option<Seq<Option<Seq<char>>>>>) -> bool {
    forall|i: int|
        0 <= i < rows.len() ==> (#[trigger] rows[i] matches Some(list) ==> list_viewable(list))
}

/// The lists of a column of lists, null as `None`.
pub uninterp spec fn list_rows(column: Column) -> Seq<Option<Seq<Option<Seq<char>>>>>;

/// The Arrow type of a column of lists.
pub struct ListType {
    /// Whether the offsets of the lists are 64 bits wide, as in a `LargeList`, and not 32, as in
    /// a `List`.
    pub large_offsets: bool,
    /// The name of the field that describes the elements.
    pub item_name: Seq<char>,
    /// The layout of the elements.
    pub item_type: StringType,
    /// Whether elements can be null.
    pub item_nullable: bool,
    /// The metadata of the field that describes the elements.
    pub item_metadata: Map<Seq<char>, Seq<char>>,
}

/// The type of a `List` of nullable strings.
pub open spec fn string_list_type(item_type: StringType) -> ListType {
    ListType {
        large_offsets: false,
        item_name: "item"@,
        item_type,
        item_nullable: true,
        item_metadata: Map::empty(),
    }
}

/// The type of a column of lists.
pub uninterp spec fn list_type(column: Column) -> ListType;

/// Arrow's list builder over a string builder of one of the three layouts.
#[verifier::external_body]
pub struct StringListBuilder {
    inner: ListBuilder<Box<dyn ArrayBuilder>>,
}

/// The layout of the elements that a builder takes.
pub uninterp spec fn builder_item_type(builder: StringListBuilder) -> StringType;

/// The lists that a builder has finished, null as `None`.
pub uninterp spec fn builder_rows(builder: StringListBuilder) -> Seq<
    Option<Seq<Option<Seq<char>>>>,
>;

/// The elements that were appended to a builder since its last finished list.
pub uninterp spec fn builder_open(builder: StringListBuilder) -> Seq<Option<Seq<char>>>;

/// Calls `ListBuilder::new` on a new `GenericStringBuilder<i32>`.
///
/// Claims that the builder is empty and takes elements of type `Utf8`.
#[verifier::external_body]
fn new_utf8_builder() -> (builder: StringListBuilder)
    ensures
        builder_item_type(builder) == StringType::Utf8,
        builder_rows(builder) == Seq::<Option<Seq<Option<Seq<char>>>>>::empty(),
        builder_open(builder) == Seq::<Option<Seq<char>>>::empty(),
{
    let values = GenericStringBuilder::<i32>::with_capacity(0, 0);
    StringListBuilder { inner: ListBuilder::new(Box::new(values)) }
}

/// Calls `ListBuilder::new` on a new `GenericStringBuilder<i64>`.
///
/// Claims that the builder is empty and takes elements of type `LargeUtf8`.
#[verifier::external_body]
fn new_large_utf8_builder() -> (builder: StringListBuilder)
    ensures
        builder_item_type(builder) == StringType::LargeUtf8,
        builder_rows(builder) == Seq::<Option<Seq<Option<Seq<char>>>>>::empty(),
        builder_open(builder) == Seq::<Option<Seq<char>>>::empty(),
{
    let values = GenericStringBuilder::<i64>::with_capacity(0, 0);
    StringListBuilder { inner: ListBuilder::new(Box::new(values)) }
}

/// Calls `ListBuilder::new` on a new `StringViewBuilder`.
///
/// Claims that the builder is empty and takes elements of type `Utf8View`.
#[verifier::external_body]
fn new_utf8_view_builder() -> (builder: StringListBuilder)
    ensures
        builder_item_type(builder) == StringType::Utf8View,
        builder_rows(builder) == Seq::<Option<Seq<Option<Seq<char>>>>>::empty(),
        builder_open(builder) == Seq::<Option<Seq<char>>>::empty(),
{
    let values = StringViewBuilder::with_capacity(0);
    StringListBuilder { inner: ListBuilder::new(Box::new(values)) }
}

/// Calls `GenericStringBuilder::<i32>::append_option` on the value builder.
///
/// Claims that the element is added to the open list and nothing else changes. The method panics
/// where the bytes of all elements outgrow an `i32` offset.
#[verifier::external_body]
fn append_utf8(builder: &mut StringListBuilder, item: &Option<String>)
    requires
        builder_item_type(*old(builder)) == StringType::Utf8,
        total_bytes(builder_rows(*old(builder))) + list_bytes(builder_open(*old(builder)))
            + text_bytes(item.deep_view()) <= i32::MAX,
    ensures
        builder_item_type(*final(builder)) == builder_item_type(*old(builder)),
        builder_rows(*final(builder)) == builder_rows(*old(builder)),
        builder_open(*final(builder)) == builder_open(*old(builder)).push(item.deep_view()),
{
    let values = builder.inner.values().as_any_mut();
    values.downcast_mut::<GenericStringBuilder<i32>>().unwrap().append_option(item.as_deref());
}

/// Calls `GenericStringBuilder::<i64>::append_option` on the value builder.
///
/// Claims that the element is added to the open list and nothing else changes. The method panics
/// where the bytes of all elements outgrow an `i64` offset.
#[verifier::external_body]
fn append_large_utf8(builder: &mut StringListBuilder, item: &Option<String>)
    requires
        builder_item_type(*old(builder)) == StringType::LargeUtf8,
        total_bytes(builder_rows(*old(builder))) + list_bytes(builder_open(*old(builder)))
            + text_bytes(item.deep_view()) <= i64::MAX,
    ensures
        builder_item_type(*final(builder)) == builder_item_type(*old(builder)),
        builder_rows(*final(builder)) == builder_rows(*old(builder)),
        builder_open(*final(builder)) == builder_open(*old(builder)).push(item.deep_view()),
{
    let values = builder.inner.values().as_any_mut();
    values.downcast_mut::<GenericStringBuilder<i64>>().unwrap().append_option(item.as_deref());
}

/// Calls `StringViewBuilder::append_option` on the value builder.
///
/// Claims that the element is added to the open list and nothing else changes. The method panics
/// where an element, and with it a block of bytes, reaches `u32::MAX` bytes, or where there are
/// that many blocks. A block is made for its first element, with room for further ones up to two
/// mebibytes, so there are no more blocks than elements.
#[verifier::external_body]
fn append_utf8_view(builder: &mut StringListBuilder, item: &Option<String>)
    requires
        builder_item_type(*old(builder)) == StringType::Utf8View,
        text_bytes(item.deep_view()) < u32::MAX,
        total_items(builder_rows(*old(builder))) + builder_open(*old(builder)).len() < u32::MAX,
    ensures
        builder_item_type(*final(builder)) == builder_item_type(*old(builder)),
        builder_rows(*final(builder)) == builder_rows(*old(builder)),
        builder_open(*final(builder)) == builder_open(*old(builder)).push(item.deep_view()),
{
    let values = builder.inner.values().as_any_mut();
    values.downcast_mut::<StringViewBuilder>().unwrap().append_option(item.as_deref());
}

/// Calls `ListBuilder::append`.
///
/// Claims that the open list becomes the next row, or that the next row is null. The method
/// panics where the number of elements outgrows an `i32` offset.
#[verifier::external_body]
fn finish_list(builder: &mut StringListBuilder, is_valid: bool)
    requires
        !is_valid ==> builder_open(*old(builder)).len() == 0,
        total_items(builder_rows(*old(builder))) + builder_open(*old(builder)).len() <= i32::MAX,
    ensures
        builder_item_type(*final(builder)) == builder_item_type(*old(builder)),
        builder_rows(*final(builder)) == builder_rows(*old(builder)).push(
            if is_valid {
                Some(builder_open(*old(builder)))
            } else {
                None
            },
        ),
        builder_open(*final(builder)) == Seq::<Option<Seq<char>>>::empty(),
{
    builder.inner.append(is_valid);
}

/// Calls `ListBuilder::finish`.
///
/// Claims that the array is a `List`, with 32-bit offsets and the field that the builder makes by
/// default: named `item`, nullable, of the builder's element type and without metadata. Claims
/// that the array holds the finished lists.
#[verifier::external_body]
fn finish_builder(builder: StringListBuilder) -> (column: Column)
    ensures
        list_rows(column) == builder_rows(builder),
        list_type(column) == string_list_type(builder_item_type(builder)),
{
    let mut inner = builder.inner;
    Column { array: Arc::new(inner.finish()) }
}

/// An element adds its own bytes to those of the elements before it.
proof fn lemma_list_bytes_take(list: Seq<Option<Seq<char>>>, n: int)
    requires
        0 <= n < list.len(),
    ensures
        list_bytes(list.take(n + 1)) == list_bytes(list.take(n)) + text_bytes(list[n]),
{
    assert(list.take(n + 1).drop_last() =~= list.take(n));
}

/// A part of a list has no more bytes than the list.
proof fn lemma_list_bytes_monotonic(list: Seq<Option<Seq<char>>>, n: int)
    requires
        0 <= n <= list.len(),
    ensures
        list_bytes(list.take(n)) <= list_bytes(list),
    decreases list.len() - n,
{
    if n == list.len() {
        assert(list.take(n) =~= list);
    } else {
        lemma_list_bytes_monotonic(list, n + 1);
        lemma_list_bytes_take(list, n);
    }
}

/// A row adds its own bytes and elements to those of the rows before it.
proof fn lemma_totals_take(rows: Seq<Option<Seq<Option<Seq<char>>>>>, n: int)
    requires
        0 <= n < rows.len(),
    ensures
        total_bytes(rows.take(n + 1)) == total_bytes(rows.take(n)) + match rows[n] {
            Some(list) => list_bytes(list),
            None => 0,
        },
        total_items(rows.take(n + 1)) == total_items(rows.take(n)) + match rows[n] {
            Some(list) => list.len(),
            None => 0,
        },
{
    assert(rows.take(n + 1).drop_last() =~= rows.take(n));
}

/// The first rows have no more bytes and elements than all rows.
proof fn lemma_totals_monotonic(rows: Seq<Option<Seq<Option<Seq<char>>>>>, n: int)
    requires
        0 <= n <= rows.len(),
    ensures
        total_bytes(rows.take(n)) <= total_bytes(rows),
        total_items(rows.take(n)) <= total_items(rows),
    decreases rows.len() - n,
{
    if n == rows.len() {
        assert(rows.take(n) =~= rows);
    } else {
        lemma_totals_monotonic(rows, n + 1);
        lemma_totals_take(rows, n);
    }
}

/// A column of lists of strings.
#[derive(Debug, PartialEq, Eq)]
pub struct ListColumn {
    /// The layout of the list elements.
    pub item_type: StringType,
    /// The list of each row. A row without a list is null, and so is an element without text.
    pub rows: Vec<Option<Vec<Option<String>>>>,
}

/// What a [`ListColumn`] holds.
pub struct ListColumnView {
    pub item_type: StringType,
    pub rows: Seq<Option<Seq<Option<Seq<char>>>>>,
}

impl View for ListColumn {
    type V = ListColumnView;

    open spec fn view(&self) -> ListColumnView {
        ListColumnView { item_type: self.item_type, rows: self.rows.deep_view() }
    }
}

impl ListColumnView {
    /// Whether the column can be written as one Arrow array: the offsets of the lists are 32 bits
    /// wide, those of the elements 32 or 64 bits, and an element that is viewed stands in one
    /// block.
    pub open spec fn fits(self) -> bool {
        &&& total_items(self.rows) <= i32::MAX
        &&& match self.item_type {
            StringType::Utf8 => total_bytes(self.rows) <= i32::MAX,
            StringType::LargeUtf8 => total_bytes(self.rows) <= i64::MAX,
            StringType::Utf8View => rows_viewable(self.rows),
        }
    }
}

/// Whether a column is a `List` of nullable strings that holds the given lists.
pub open spec fn holds_lists(column: Column, lists: ListColumnView) -> bool {
    &&& list_type(column) == string_list_type(lists.item_type)
    &&& list_rows(column) == lists.rows
}

/// Counts the bytes of a list on top of `start`, as long as there are no more than `limit`.
fn count_bytes(list: &Vec<Option<String>>, start: u64, limit: u64) -> (sum: Option<u64>)
    requires
        start <= limit <= i64::MAX,
    ensures
        match sum {
            Some(bytes) => bytes == start + list_bytes(list.deep_view()) && bytes <= limit,
            None => start + list_bytes(list.deep_view()) > limit,
        },
{
    let ghost all = list.deep_view();
    let mut bytes: u64 = start;
    let mut i: usize = 0;
    while i < list.len()
        invariant
            i <= list.len(),
            all == list.deep_view(),
            bytes == start + list_bytes(all.take(i as int)),
            bytes <= limit <= i64::MAX,
        decreases list.len() - i,
    {
        proof {
            lemma_list_bytes_take(all, i as int);
            lemma_list_bytes_monotonic(all, i + 1);
        }
        if let Some(text) = &list[i] {
            let size: usize = text.as_str().as_bytes().len();
            if size as u64 > limit - bytes {
                return None;
            }
            bytes = bytes + size as u64;
        }
        i = i + 1;
    }
    assert(all.take(list.len() as int) =~= all);
    Some(bytes)
}

/// Whether every element of a list is small enough for a view.
fn check_viewable(list: &Vec<Option<String>>) -> (viewable: bool)
    ensures
        viewable == list_viewable(list.deep_view()),
{
    let ghost all = list.deep_view();
    let mut i: usize = 0;
    while i < list.len()
        invariant
            i <= list.len(),
            all == list.deep_view(),
            forall|j: int| 0 <= j < i ==> text_bytes(#[trigger] all[j]) < u32::MAX,
        decreases list.len() - i,
    {
        assert(all[i as int] == list[i as int].deep_view());
        if let Some(text) = &list[i] {
            if text.as_str().as_bytes().len() >= u32::MAX as usize {
                return false;
            }
        }
        i = i + 1;
    }
    true
}

impl ListColumn {
    /// Whether the column can be written as one Arrow array.
    pub fn fits(&self) -> (fits: bool)
        ensures
            fits == self@.fits(),
    {
        self.items_fit() && match self.item_type {
            StringType::Utf8 => self.bytes_fit(i32::MAX as u64),
            StringType::LargeUtf8 => self.bytes_fit(i64::MAX as u64),
            StringType::Utf8View => self.views_fit(),
        }
    }

    /// Whether the number of elements fits an `i32` offset.
    fn items_fit(&self) -> (fits: bool)
        ensures
            fits == (total_items(self@.rows) <= i32::MAX),
    {
        let ghost all = self.rows.deep_view();
        let mut items: usize = 0;
        let mut i: usize = 0;
        while i < self.rows.len()
            invariant
                i <= self.rows.len(),
                all == self.rows.deep_view(),
                items == total_items(all.take(i as int)),
                items <= i32::MAX,
            decreases self.rows.len() - i,
        {
            proof {
                lemma_totals_take(all, i as int);
                lemma_totals_monotonic(all, i + 1);
            }
            if let Some(list) = &self.rows[i] {
                if list.len() > i32::MAX as usize - items {
                    return false;
                }
                items = items + list.len();
            }
            i = i + 1;
        }
        assert(all.take(self.rows.len() as int) =~= all);
        true
    }

    /// Whether the elements have no more than `limit` bytes.
    fn bytes_fit(&self, limit: u64) -> (fits: bool)
        requires
            limit <= i64::MAX,
        ensures
            fits == (total_bytes(self@.rows) <= limit),
    {
        let ghost all = self.rows.deep_view();
        let mut bytes: u64 = 0;
        let mut i: usize = 0;
        while i < self.rows.len()
            invariant
                i <= self.rows.len(),
                all == self.rows.deep_view(),
                bytes == total_bytes(all.take(i as int)),
                bytes <= limit <= i64::MAX,
            decreases self.rows.len() - i,
        {
            proof {
                lemma_totals_take(all, i as int);
                lemma_totals_monotonic(all, i + 1);
            }
            if let Some(list) = &self.rows[i] {
                match count_bytes(list, bytes, limit) {
                    Some(sum) => bytes = sum,
                    None => return false,
                }
            }
            i = i + 1;
        }
        assert(all.take(self.rows.len() as int) =~= all);
        true
    }

    /// Whether every element is small enough for a view.
    fn views_fit(&self) -> (fits: bool)
        ensures
            fits == rows_viewable(self@.rows),
    {
        let ghost all = self.rows.deep_view();
        let mut i: usize = 0;
        while i < self.rows.len()
            invariant
                i <= self.rows.len(),
                all == self.rows.deep_view(),
                forall|k: int|
                    0 <= k < i ==> (#[trigger] all[k] matches Some(list) ==> list_viewable(list)),
            decreases self.rows.len() - i,
        {
            assert(all[i as int] == self.rows[i as int].deep_view());
            if let Some(list) = &self.rows[i] {
                if !check_viewable(list) {
                    return false;
                }
            }
            i = i + 1;
        }
        true
    }

    /// Writes the column as an Arrow array of lists.
    pub fn to_column(&self) -> (column: Column)
        requires
            self@.fits(),
        ensures
            holds_lists(column, self@),
    {
        let ghost all = self.rows.deep_view();
        let mut builder = match self.item_type {
            StringType::Utf8 => new_utf8_builder(),
            StringType::LargeUtf8 => new_large_utf8_builder(),
            StringType::Utf8View => new_utf8_view_builder(),
        };
        let mut i: usize = 0;
        assert(all.take(0) =~= Seq::empty());
        while i < self.rows.len()
            invariant
                i <= self.rows.len(),
                all == self.rows.deep_view(),
                self@.fits(),
                builder_item_type(builder) == self.item_type,
                builder_rows(builder) == all.take(i as int),
                builder_open(builder).len() == 0,
            decreases self.rows.len() - i,
        {
            proof {
                lemma_totals_take(all, i as int);
                lemma_totals_monotonic(all, i + 1);
                assert(all.take(i + 1) =~= all.take(i as int).push(all[i as int]));
            }
            match &self.rows[i] {
                Some(list) => {
                    self.append_list(&mut builder, list);
                    finish_list(&mut builder, true);
                },
                None => finish_list(&mut builder, false),
            }
            i = i + 1;
        }
        assert(all.take(self.rows.len() as int) =~= all);
        finish_builder(builder)
    }

    /// Writes the column as an Arrow array of lists where it fits one.
    pub fn to_column_if_fits(&self) -> (column: Option<Column>)
        ensures
            match column {
                Some(it) => self@.fits() && holds_lists(it, self@),
                None => !self@.fits(),
            },
            total_items(self@.rows) <= i32::MAX && match self@.item_type {
                StringType::Utf8 => total_bytes(self@.rows) <= i32::MAX,
                StringType::LargeUtf8 => total_bytes(self@.rows) <= i64::MAX,
                StringType::Utf8View => rows_viewable(self@.rows),
            } ==> column is Some,
    {
        if self.fits() {
            Some(self.to_column())
        } else {
            None
        }
    }

    /// Appends the elements of a list to a builder.
    fn append_list(&self, builder: &mut StringListBuilder, list: &Vec<Option<String>>)
        requires
            builder_item_type(*old(builder)) == self.item_type,
            builder_open(*old(builder)).len() == 0,
            total_items(builder_rows(*old(builder))) + list.len() <= i32::MAX,
            self.item_type is Utf8 ==> total_bytes(builder_rows(*old(builder))) + list_bytes(
                list.deep_view(),
            ) <= i32::MAX,
            self.item_type is LargeUtf8 ==> total_bytes(builder_rows(*old(builder))) + list_bytes(
                list.deep_view(),
            ) <= i64::MAX,
            self.item_type is Utf8View ==> list_viewable(list.deep_view()),
        ensures
            builder_item_type(*final(builder)) == self.item_type,
            builder_rows(*final(builder)) == builder_rows(*old(builder)),
            builder_open(*final(builder)) == list.deep_view(),
    {
        let ghost all = list.deep_view();
        let ghost rows = builder_rows(*builder);
        let mut j: usize = 0;
        assert(builder_open(*builder) =~= all.take(0));
        while j < list.len()
            invariant
                j <= list.len(),
                all == list.deep_view(),
                builder_item_type(*builder) == self.item_type,
                builder_rows(*builder) == rows,
                builder_open(*builder) == all.take(j as int),
                total_items(rows) + all.len() <= i32::MAX,
                self.item_type is Utf8 ==> total_bytes(rows) + list_bytes(all) <= i32::MAX,
                self.item_type is LargeUtf8 ==> total_bytes(rows) + list_bytes(all) <= i64::MAX,
                self.item_type is Utf8View ==> list_viewable(all),
            decreases list.len() - j,
        {
            proof {
                lemma_list_bytes_take(all, j as int);
                lemma_list_bytes_monotonic(all, j + 1);
                assert(all.take(j + 1) =~= all.take(j as int).push(all[j as int]));
                assert(all[j as int] == list[j as int].deep_view());
            }
            match self.item_type {
                StringType::Utf8 => append_utf8(builder, &list[j]),
                StringType::LargeUtf8 => append_large_utf8(builder, &list[j]),
                StringType::Utf8View => append_utf8_view(builder, &list[j]),
            }
            j = j + 1;
        }
        assert(all.take(list.len() as int) =~= all);
    }
}

} // verus!
