//! What holds of the writing of lists as Arrow arrays.

use crate::column::Column;
use crate::list::{holds_lists, list_bytes, list_rows, list_type, text_bytes};
use crate::list::{list_viewable, rows_viewable, total_bytes, total_items, ListColumnView};
use vstd::prelude::*;
use vstd::utf8::encode_utf8;

verus! {

/// The bytes of a list are those of its elements in UTF-8. A null has none.
pub proof fn law_list_bytes(
    text: Seq<char>,
    first: Seq<Option<Seq<char>>>,
    second: Seq<Option<Seq<char>>>,
)
    ensures
        list_bytes(Seq::empty()) == 0,
        list_bytes(seq![Some(text)]) == encode_utf8(text).len(),
        list_bytes(seq![None]) == 0,
        list_bytes(first + second) == list_bytes(first) + list_bytes(second),
    decreases second.len(),
{
    reveal_with_fuel(list_bytes, 2);
    assert(seq![Some(text)].drop_last() =~= Seq::<Option<Seq<char>>>::empty());
    assert(seq![None::<Seq<char>>].drop_last() =~= Seq::<Option<Seq<char>>>::empty());
    if second.len() == 0 {
        assert(first + second =~= first);
    } else {
        law_list_bytes(text, first, second.drop_last());
        assert((first + second).drop_last() =~= first + second.drop_last());
    }
}

/// The bytes and the elements of all lists are those of each list together. A null has none.
pub proof fn law_totals(
    list: Seq<Option<Seq<char>>>,
    first: Seq<Option<Seq<Option<Seq<char>>>>>,
    second: Seq<Option<Seq<Option<Seq<char>>>>>,
)
    ensures
        total_bytes(Seq::empty()) == 0,
        total_bytes(seq![Some(list)]) == list_bytes(list),
        total_bytes(seq![None]) == 0,
        total_bytes(first + second) == total_bytes(first) + total_bytes(second),
        total_items(Seq::empty()) == 0,
        total_items(seq![Some(list)]) == list.len(),
        total_items(seq![None]) == 0,
        total_items(first + second) == total_items(first) + total_items(second),
    decreases second.len(),
{
    reveal_with_fuel(total_bytes, 2);
    reveal_with_fuel(total_items, 2);
    let none = Seq::<Option<Seq<Option<Seq<char>>>>>::empty();
    assert(seq![Some(list)].drop_last() =~= none);
    assert(seq![None::<Seq<Option<Seq<char>>>>].drop_last() =~= none);
    if second.len() == 0 {
        assert(first + second =~= first);
    } else {
        law_totals(list, first, second.drop_last());
        assert((first + second).drop_last() =~= first + second.drop_last());
    }
}

/// Lists can be viewed exactly where no text among their elements has `u32::MAX` bytes or more.
pub proof fn law_viewable(rows: Seq<Option<Seq<Option<Seq<char>>>>>)
    ensures
        rows_viewable(rows) <==> forall|i: int, j: int, text: Seq<char>|
            0 <= i < rows.len() && rows[i] is Some && 0 <= j < rows[i]->0.len()
                && #[trigger] rows[i]->0[j] == Some(text) ==> #[trigger] encode_utf8(text).len()
                < u32::MAX,
{
    if rows_viewable(rows) {
        assert forall|i: int, j: int, text: Seq<char>|
            0 <= i < rows.len() && rows[i] is Some && 0 <= j < rows[i]->0.len()
                && #[trigger] rows[i]->0[j] == Some(text) implies #[trigger] encode_utf8(text).len()
            < u32::MAX by {
            assert(text_bytes(rows[i]->0[j]) < u32::MAX);
        }
    } else {
        let i = choose|i: int|
            0 <= i < rows.len() && !(#[trigger] rows[i] matches Some(list) ==> list_viewable(list));
        let list = rows[i]->0;
        let j = choose|j: int| 0 <= j < list.len() && !(text_bytes(#[trigger] list[j]) < u32::MAX);
        assert(rows[i]->0[j] == Some(list[j]->0));
        assert(encode_utf8(list[j]->0).len() >= u32::MAX);
    }
}

/// Lists fit one array where there are at most `i32::MAX` elements and these have together at
/// most `i32::MAX` bytes, or `i64::MAX` with 64-bit offsets, or less than `u32::MAX` each where
/// they are viewed.
pub proof fn law_lists_fit_an_array(lists: ListColumnView)
    requires
        total_items(lists.rows) <= i32::MAX,
        lists.item_type is Utf8 ==> total_bytes(lists.rows) <= i32::MAX,
        lists.item_type is LargeUtf8 ==> total_bytes(lists.rows) <= i64::MAX,
        lists.item_type is Utf8View ==> forall|i: int, j: int, text: Seq<char>|
            0 <= i < lists.rows.len() && lists.rows[i] is Some && 0 <= j < lists.rows[i]->0.len()
                && #[trigger] lists.rows[i]->0[j] == Some(text) ==> #[trigger] encode_utf8(
                text,
            ).len() < u32::MAX,
    ensures
        lists.fits(),
{
    law_viewable(lists.rows);
}

/// Lists that are larger do not fit one array.
pub proof fn law_larger_lists_do_not_fit(
    lists: ListColumnView,
    row: int,
    n: int,
    text: Seq<char>,
)
    requires
        ({
            ||| total_items(lists.rows) > i32::MAX
            ||| lists.item_type is Utf8 && total_bytes(lists.rows) > i32::MAX
            ||| lists.item_type is LargeUtf8 && total_bytes(lists.rows) > i64::MAX
            ||| lists.item_type is Utf8View && 0 <= row < lists.rows.len() && lists.rows[row] is Some
                && 0 <= n < lists.rows[row]->0.len() && lists.rows[row]->0[n] == Some(text)
                && encode_utf8(text).len() >= u32::MAX
        }),
    ensures
        !lists.fits(),
{
    if lists.item_type is Utf8View && lists.fits() {
        if total_items(lists.rows) <= i32::MAX {
            assert(text_bytes(lists.rows[row]->0[n]) < u32::MAX);
        }
    }
}

/// A written array is a `List` with 32-bit offsets whose elements are nullable strings of the
/// lists' layout, and its rows are the lists.
pub proof fn law_written_array(column: Column, lists: ListColumnView)
    requires
        holds_lists(column, lists),
    ensures
        list_rows(column) == lists.rows,
        !list_type(column).large_offsets,
        list_type(column).item_name == "item"@,
        list_type(column).item_type == lists.item_type,
        list_type(column).item_nullable,
        list_type(column).item_metadata == Map::<Seq<char>, Seq<char>>::empty(),
{
}

} // verus!
