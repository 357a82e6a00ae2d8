//! The picker's list state: the items shown and the selected row.
use vstd::prelude::*;
use crate::item::ClipboardItem;

verus! {

/// The picker's items and the index of the selected one.
#[derive(Clone, Debug)]
pub struct PickerModel {
    pub items: Vec<ClipboardItem>,
    pub selected_index: usize,
}

/// The selection clamped to the last row of a list of `len` rows.
pub open spec fn clamp_to_last(index: int, len: int) -> int {
    if index < len - 1 {
        index
    } else {
        len - 1
    }
}

/// `items` with the pinned flag of row `i` flipped (unchanged when `i` is
/// not a row).
pub open spec fn flip_pinned(items: Seq<ClipboardItem>, i: int) -> Seq<ClipboardItem> {
    if 0 <= i < items.len() {
        items.update(i, ClipboardItem { is_pinned: !items[i].is_pinned, ..items[i] })
    } else {
        items
    }
}

/// `items` with the favorite flag of row `i` flipped (unchanged when `i` is
/// not a row).
pub open spec fn flip_favorite(items: Seq<ClipboardItem>, i: int) -> Seq<ClipboardItem> {
    if 0 <= i < items.len() {
        items.update(i, ClipboardItem { is_favorite: !items[i].is_favorite, ..items[i] })
    } else {
        items
    }
}

/// The first row at or after `i` holding the item `id`.
pub open spec fn first_row_from(items: Seq<ClipboardItem>, id: u128, i: int) -> Option<int>
    decreases items.len() - i,
{
    if i < 0 || i >= items.len() {
        None
    } else if items[i].id == id {
        Some(i)
    } else {
        first_row_from(items, id, i + 1)
    }
}

/// The first row holding the item `id`.
pub open spec fn first_row_of(items: Seq<ClipboardItem>, id: u128) -> Option<int> {
    first_row_from(items, id, 0)
}

/// The row found by `first_row_from` holds `id`, and no earlier row from `i` does.
pub proof fn lemma_first_row_from(items: Seq<ClipboardItem>, id: u128, i: int)
    requires
        0 <= i,
    ensures
        match first_row_from(items, id, i) {
            Some(k) => i <= k < items.len() && items[k].id == id && forall|m: int|
                i <= m < k ==> items[m].id != id,
            None => forall|m: int| i <= m < items.len() ==> items[m].id != id,
        },
    decreases items.len() - i,
{
    if i < items.len() && items[i].id != id {
        lemma_first_row_from(items, id, i + 1);
    }
}

impl PickerModel {
    /// The selection is a row of the list, or 0 for an empty list.
    pub open spec fn well_formed(&self) -> bool {
        if self.items@.len() == 0 {
            self.selected_index == 0
        } else {
            self.selected_index < self.items@.len()
        }
    }

    /// A model showing `items` with the first row selected.
    pub fn new(items: Vec<ClipboardItem>) -> (m: Self)
        ensures
            m.items@ == items@,
            m.selected_index == 0,
            m.well_formed(),
    {
        PickerModel { items, selected_index: 0 }
    }

    /// Shows `items` instead, with the first row selected.
    pub fn replace_items(&mut self, items: Vec<ClipboardItem>)
        ensures
            final(self).items@ == items@,
            final(self).selected_index == 0,
            final(self).well_formed(),
    {
        self.items = items;
        self.selected_index = 0;
    }

    /// Selects row `index`, or the last row when `index` is past it; does
    /// nothing on an empty list.
    pub fn select(&mut self, index: usize)
        ensures
            final(self).items@ == old(self).items@,
            old(self).items@.len() == 0 ==> final(self).selected_index == old(self).selected_index,
            old(self).items@.len() > 0 ==> final(self).selected_index == clamp_to_last(
                index as int,
                old(self).items@.len() as int,
            ),
            old(self).well_formed() ==> final(self).well_formed(),
    {
        if self.items.len() > 0 {
            let last = self.items.len() - 1;
            self.selected_index = if index < last {
                index
            } else {
                last
            };
        }
    }

    /// Selects the next row, staying on the last one; does nothing on an
    /// empty list.
    pub fn move_down(&mut self)
        ensures
            final(self).items@ == old(self).items@,
            old(self).items@.len() == 0 ==> final(self).selected_index == old(self).selected_index,
            old(self).items@.len() > 0 ==> final(self).selected_index == clamp_to_last(
                old(self).selected_index + 1,
                old(self).items@.len() as int,
            ),
            old(self).well_formed() ==> final(self).well_formed(),
    {
        if self.items.len() > 0 {
            let last = self.items.len() - 1;
            self.selected_index = if self.selected_index < last {
                self.selected_index + 1
            } else {
                last
            };
        }
    }

    /// Selects the previous row, staying on the first one.
    pub fn move_up(&mut self)
        ensures
            final(self).items@ == old(self).items@,
            final(self).selected_index == if old(self).selected_index > 0 {
                old(self).selected_index - 1
            } else {
                0
            },
            old(self).well_formed() ==> final(self).well_formed(),
    {
        self.selected_index = if self.selected_index > 0 {
            self.selected_index - 1
        } else {
            0
        };
    }

    /// The selected item, if the selection is a row.
    pub fn selected_item(&self) -> (r: Option<&ClipboardItem>)
        ensures
            self.selected_index < self.items@.len() ==> r == Some(
                &self.items@[self.selected_index as int],
            ),
            self.selected_index >= self.items@.len() ==> r is None,
    {
        if self.selected_index < self.items.len() {
            Some(&self.items[self.selected_index])
        } else {
            None
        }
    }

    /// Takes the selected item out of the list; the selection stays on the
    /// same row, or moves to the new last row.
    pub fn remove_selected(&mut self) -> (r: Option<ClipboardItem>)
        requires
            old(self).items@.len() == 0 || old(self).selected_index < old(self).items@.len(),
        ensures
            old(self).items@.len() == 0 ==> r is None && *final(self) == *old(self),
            old(self).items@.len() > 0 ==> {
                let i = old(self).selected_index as int;
                let rest = old(self).items@.remove(i);
                &&& r == Some(old(self).items@[i])
                &&& final(self).items@ == rest
                &&& final(self).selected_index == if i < rest.len() {
                    i
                } else if rest.len() > 0 {
                    rest.len() - 1
                } else {
                    0
                }
            },
            old(self).items@.len() > 0 || old(self).well_formed() ==> final(self).well_formed(),
    {
        if self.items.len() == 0 {
            return None;
        }
        let removed = self.items.remove(self.selected_index);
        if self.selected_index >= self.items.len() {
            self.selected_index = if self.items.len() > 0 {
                self.items.len() - 1
            } else {
                0
            };
        }
        Some(removed)
    }

    /// Flips the pinned flag of the selected item.
    pub fn toggle_selected_pin(&mut self)
        ensures
            final(self).items@ == flip_pinned(old(self).items@, old(self).selected_index as int),
            final(self).selected_index == old(self).selected_index,
    {
        if self.selected_index < self.items.len() {
            let i = self.selected_index;
            let mut item = self.items.remove(i);
            item.is_pinned = !item.is_pinned;
            self.items.insert(i, item);
            proof {
                assert(self.items@ =~= flip_pinned(old(self).items@, i as int));
            }
        }
    }

    /// Flips the favorite flag of the selected item.
    pub fn toggle_selected_favorite(&mut self)
        ensures
            final(self).items@ == flip_favorite(old(self).items@, old(self).selected_index as int),
            final(self).selected_index == old(self).selected_index,
    {
        if self.selected_index < self.items.len() {
            let i = self.selected_index;
            let mut item = self.items.remove(i);
            item.is_favorite = !item.is_favorite;
            self.items.insert(i, item);
            proof {
                assert(self.items@ =~= flip_favorite(old(self).items@, i as int));
            }
        }
    }

    /// The first row holding the item `id`.
    pub fn position_of(&self, id: u128) -> (r: Option<usize>)
        ensures
            match r {
                Some(i) => first_row_of(self.items@, id) == Some(i as int),
                None => first_row_of(self.items@, id) is None,
            },
    {
        let mut i: usize = 0;
        while i < self.items.len()
            invariant
                i <= self.items.len(),
                first_row_of(self.items@, id) == first_row_from(self.items@, id, i as int),
            decreases self.items.len() - i,
        {
            if self.items[i].id == id {
                return Some(i);
            }
            i = i + 1;
        }
        None
    }

    /// Takes the item `id` out of the list (its first row); the selection is
    /// moved to the new last row when it falls past the end.
    pub fn remove_by_id(&mut self, id: u128) -> (r: Option<ClipboardItem>)
        ensures
            match first_row_of(old(self).items@, id) {
                None => r is None && *final(self) == *old(self),
                Some(i) => {
                    let rest = old(self).items@.remove(i);
                    &&& r == Some(old(self).items@[i])
                    &&& final(self).items@ == rest
                    &&& final(self).selected_index == if (old(self).selected_index as int)
                        < rest.len() {
                        old(self).selected_index as int
                    } else if rest.len() > 0 {
                        rest.len() - 1
                    } else {
                        0
                    }
                },
            },
            old(self).well_formed() ==> final(self).well_formed(),
    {
        let found = self.position_of(id);
        proof {
            lemma_first_row_from(self.items@, id, 0);
        }
        match found {
            None => None,
            Some(i) => {
                let removed = self.items.remove(i);
                if self.selected_index >= self.items.len() {
                    self.selected_index = if self.items.len() > 0 {
                        self.items.len() - 1
                    } else {
                        0
                    };
                }
                Some(removed)
            },
        }
    }

    /// Sets the pinned flag of the item `id` (its first row).
    pub fn set_pin_by_id(&mut self, id: u128, value: bool)
        ensures
            final(self).selected_index == old(self).selected_index,
            old(self).well_formed() ==> final(self).well_formed(),
            match first_row_of(old(self).items@, id) {
                None => final(self).items@ == old(self).items@,
                Some(i) => final(self).items@ == old(self).items@.update(
                    i,
                    ClipboardItem { is_pinned: value, ..old(self).items@[i] },
                ),
            },
    {
        let found = self.position_of(id);
        proof {
            lemma_first_row_from(self.items@, id, 0);
        }
        if let Some(i) = found {
            let mut item = self.items.remove(i);
            item.is_pinned = value;
            self.items.insert(i, item);
            proof {
                assert(self.items@ =~= old(self).items@.update(
                    i as int,
                    ClipboardItem { is_pinned: value, ..old(self).items@[i as int] },
                ));
            }
        }
    }

    /// Sets the favorite flag of the item `id` (its first row).
    pub fn set_favorite_by_id(&mut self, id: u128, value: bool)
        ensures
            final(self).selected_index == old(self).selected_index,
            old(self).well_formed() ==> final(self).well_formed(),
            match first_row_of(old(self).items@, id) {
                None => final(self).items@ == old(self).items@,
                Some(i) => final(self).items@ == old(self).items@.update(
                    i,
                    ClipboardItem { is_favorite: value, ..old(self).items@[i] },
                ),
            },
    {
        let found = self.position_of(id);
        proof {
            lemma_first_row_from(self.items@, id, 0);
        }
        if let Some(i) = found {
            let mut item = self.items.remove(i);
            item.is_favorite = value;
            self.items.insert(i, item);
            proof {
                assert(self.items@ =~= old(self).items@.update(
                    i as int,
                    ClipboardItem { is_favorite: value, ..old(self).items@[i as int] },
                ));
            }
        }
    }
}

/// Moving down and then up returns to the same row, unless the selection was
/// already on the last row.
pub proof fn lemma_move_down_up(len: int, index: int)
    requires
        0 <= index,
        index + 1 < len,
    ensures
        ({
            let down = clamp_to_last(index + 1, len);
            (if down > 0 { down - 1 } else { 0 }) == index
        }),
{
}

/// Flipping a flag twice restores the list.
pub proof fn lemma_flip_twice(items: Seq<ClipboardItem>, i: int)
    ensures
        flip_pinned(flip_pinned(items, i), i) == items,
        flip_favorite(flip_favorite(items, i), i) == items,
{
    if 0 <= i < items.len() {
        assert(flip_pinned(flip_pinned(items, i), i) =~= items);
        assert(flip_favorite(flip_favorite(items, i), i) =~= items);
    }
}

} // verus!
