//! Which of the groups of a match make up the list of a row.

use vstd::prelude::*;

verus! {

/// What is taken from a match.
#[derive(Debug, Clone, Copy, PartialEq, Eq, Structural)]
pub enum Selection {
    /// Every group of the pattern, or the whole match where the pattern has none.
    All,
    /// The group with this number. Number 0 is the whole match.
    Nth(u32),
}

/// The list that a match contributes to its row, or `None` for a null row.
///
/// `groups` are the groups of the match, the whole match first, or `None` where there is no
/// match.
pub open spec fn selected(groups: Option<Seq<Option<Seq<char>>>>, selection: Selection) -> Option<
    Seq<Option<Seq<char>>>,
> {
    match (groups, selection) {
        (None, _) => None,
        (Some(found), Selection::All) => if found.len() > 1 {
            Some(found.drop_first())
        } else {
            Some(found)
        },
        (Some(found), Selection::Nth(number)) => if number < found.len()
            && found[number as int] is Some {
            Some(seq![found[number as int]])
        } else {
            None
        },
    }
}

/// Turns the groups of a match into the list of its row.
///
/// With [`Selection::All`] and a pattern that has groups, the n'th element of the list is what
/// the n'th group matched, and is null where that group took no part in the match. With
/// [`Selection::Nth`] the list holds that one group; the row is null where the pattern has no
/// such group or the group took no part.
pub fn select_groups(groups: Option<Vec<Option<String>>>, selection: Selection) -> (row: Option<
    Vec<Option<String>>,
>)
    ensures
        row.deep_view() == selected(groups.deep_view(), selection),
{
    match groups {
        None => None,
        Some(found) => match selection {
            Selection::All => {
                let mut list = found;
                if list.len() > 1 {
                    let whole = list.remove(0);
                    assert(list.deep_view() =~= found.deep_view().drop_first());
                }
                Some(list)
            },
            Selection::Nth(number) => {
                if (number as usize) < found.len() {
                    match &found[number as usize] {
                        Some(text) => {
                            let mut list: Vec<Option<String>> = Vec::new();
                            list.push(Some(text.clone()));
                            assert(list.deep_view() =~= seq![found.deep_view()[number as int]]);
                            Some(list)
                        },
                        None => None,
                    }
                } else {
                    None
                }
            },
        },
    }
}

} // verus!
