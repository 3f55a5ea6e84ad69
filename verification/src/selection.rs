//! The single selection of the chat folder bar: which chat list is selected
//! and at which position of the list model it stands, kept up to date while
//! the model changes.

use vstd::prelude::*;

verus! {

/// The position that stands for "no position".
pub const INVALID_POSITION: u32 = 0xffff_ffff;

/// The first position in `[start, end)` that holds `item`, if any.
pub open spec fn first_position(items: Seq<u64>, item: u64, start: int, end: int) -> Option<int>
    decreases end - start,
{
    if start >= end {
        None
    } else if 0 <= start < items.len() && items[start] == item {
        Some(start)
    } else {
        first_position(items, item, start + 1, end)
    }
}

/// The result of a search for `item` in `[start, end)`: its first position,
/// or the invalid position.
pub open spec fn found_position(items: Seq<u64>, item: u64, start: int, end: int) -> u32 {
    match first_position(items, item, start, end) {
        Some(p) => p as u32,
        None => INVALID_POSITION,
    }
}

proof fn lemma_first_position(items: Seq<u64>, item: u64, start: int, end: int)
    ensures
        first_position(items, item, start, end) matches Some(p) ==> start <= p < end && 0 <= p
            < items.len() && items[p] == item && (forall|q: int|
            start <= q < p && 0 <= q < items.len() ==> items[q] != item),
        first_position(items, item, start, end) is None ==> forall|q: int|
            start <= q < end && 0 <= q < items.len() ==> items[q] != item,
    decreases end - start,
{
    if start < end {
        lemma_first_position(items, item, start + 1, end);
    }
}

/// A nonnegative value below 2^33 taken modulo 2^32, as `u32` arithmetic
/// that wraps computes it.
pub open spec fn wrap_u32(v: int) -> u32 {
    if v <= u32::MAX {
        v as u32
    } else {
        (v - 0x1_0000_0000) as u32
    }
}

/// A list model seen as the identifiers of its chat lists, the position of
/// the selected item, and the selected chat list.
pub struct ChatFolderSelection {
    /// The model's items; `None` when the selection has no model.
    pub items: Option<Vec<u64>>,
    pub item_position: u32,
    pub selected: Option<u64>,
}

/// A range of positions whose selection changed: first position and count.
pub struct SelectionChange {
    pub position: u32,
    pub n_items: u32,
}

/// The notification of a change of the model's items.
pub struct ItemsChange {
    pub position: u32,
    pub removed: u32,
    pub added: u32,
}

impl ChatFolderSelection {
    /// The items of the model (empty without a model).
    pub open spec fn item_seq(&self) -> Seq<u64> {
        match self.items {
            Some(v) => v@,
            None => Seq::empty(),
        }
    }

    /// The model's item count fits the `u32` positions of a list model.
    pub open spec fn wf(&self) -> bool {
        self.item_seq().len() < INVALID_POSITION
    }

    /// The selected position holds the selected chat list, or there is none.
    pub open spec fn consistent(&self) -> bool {
        self.item_position == INVALID_POSITION || (self.item_position < self.item_seq().len()
            && self.selected == Some(self.item_seq()[self.item_position as int]))
    }

    /// A selection without model and without selected item.
    pub fn new() -> (s: Self)
        ensures
            s.items is None,
            s.item_position == INVALID_POSITION,
            s.selected is None,
            s.wf(),
            s.consistent(),
    {
        ChatFolderSelection { items: None, item_position: INVALID_POSITION, selected: None }
    }

    /// The number of items of the model.
    pub fn n_items(&self) -> (n: u32)
        requires
            self.wf(),
        ensures
            n == self.item_seq().len(),
    {
        match &self.items {
            Some(v) => v.len() as u32,
            None => 0,
        }
    }

    /// The item at `position`, if the model has one there.
    pub fn item(&self, position: u32) -> (r: Option<u64>)
        ensures
            r == (if position < self.item_seq().len() {
                Some(self.item_seq()[position as int])
            } else {
                None
            }),
    {
        match &self.items {
            Some(v) => if (position as usize) < v.len() {
                Some(v[position as usize])
            } else {
                None
            },
            None => None,
        }
    }

    /// Whether `position` is the selected position.
    pub fn is_selected(&self, position: u32) -> (b: bool)
        ensures
            b == (self.item_position == position),
    {
        self.item_position == position
    }

    /// The selected positions: the selected one, if there is one.
    pub fn selection_in_range(&self) -> (r: Vec<u32>)
        ensures
            r@ == (if self.item_position == INVALID_POSITION {
                Seq::<u32>::empty()
            } else {
                seq![self.item_position]
            }),
    {
        let mut r: Vec<u32> = Vec::new();
        if self.item_position != INVALID_POSITION {
            r.push(self.item_position);
        }
        r
    }

    /// The first position in `[start_pos, end_pos)` that holds `chat_list`,
    /// or the invalid position.
    pub fn find_item_position(&self, chat_list: u64, start_pos: u32, end_pos: u32) -> (r: u32)
        requires
            self.wf(),
        ensures
            r == found_position(self.item_seq(), chat_list, start_pos as int, end_pos as int),
    {
        proof {
            lemma_first_position(self.item_seq(), chat_list, start_pos as int, end_pos as int);
        }
        match &self.items {
            Some(v) => {
                if start_pos >= end_pos {
                    return INVALID_POSITION;
                }
                let mut pos = start_pos;
                while pos < end_pos
                    invariant
                        start_pos <= pos <= end_pos,
                        v@ == self.item_seq(),
                        self.wf(),
                        first_position(v@, chat_list, pos as int, end_pos as int)
                            == first_position(v@, chat_list, start_pos as int, end_pos as int),
                    decreases end_pos - pos,
                {
                    if (pos as usize) < v.len() && v[pos as usize] == chat_list {
                        return pos;
                    }
                    pos = pos + 1;
                }
                INVALID_POSITION
            },
            None => INVALID_POSITION,
        }
    }

    /// Replaces the model; the selected position is kept as it is. Gives
    /// the change of items to announce: all old items replaced by all new.
    pub fn set_model(&mut self, items: Option<Vec<u64>>) -> (change: ItemsChange)
        requires
            old(self).wf(),
            match items {
                Some(v) => v@.len() < INVALID_POSITION,
                None => true,
            },
        ensures
            final(self).items == items,
            final(self).item_position == old(self).item_position,
            final(self).selected == old(self).selected,
            final(self).wf(),
            change == (ItemsChange {
                position: 0,
                removed: old(self).item_seq().len() as u32,
                added: final(self).item_seq().len() as u32,
            }),
    {
        let before = self.n_items();
        self.items = items;
        let after = self.n_items();
        ItemsChange { position: 0, removed: before, added: after }
    }

    /// The range whose selection changes when the selected position goes
    /// from `old_position` to `position` in a model of `n` items, if any.
    pub open spec fn changed_range(old_position: u32, position: u32, n: u32) -> Option<SelectionChange> {
        if old_position == INVALID_POSITION && position == INVALID_POSITION {
            None
        } else if old_position == INVALID_POSITION {
            Some(SelectionChange { position, n_items: 1 })
        } else if position == INVALID_POSITION {
            Some(SelectionChange { position: if old_position < n - 1 { old_position } else { (n - 1) as u32 }, n_items: 1 })
        } else if position < old_position {
            let span = old_position - position + 1;
            Some(SelectionChange { position, n_items: if span < n - position { span as u32 } else { (n - position) as u32 } })
        } else {
            Some(SelectionChange { position: old_position, n_items: (position - old_position + 1) as u32 })
        }
    }

    /// The moves of the selected position for which computing the changed
    /// range stays within `u32`: the model is not empty when the selection
    /// is cleared, and a new position before the old one lies within the
    /// model.
    pub open spec fn change_computable(old_position: u32, position: u32, n: u32) -> bool {
        &&& (old_position != INVALID_POSITION && position == INVALID_POSITION) ==> n >= 1
        &&& (old_position != INVALID_POSITION && position != INVALID_POSITION && position < old_position) ==> position <= n
        &&& (old_position != INVALID_POSITION && position != INVALID_POSITION && position >= old_position) ==> position - old_position + 1 <= u32::MAX
    }

    fn set_selected_item_internal(&mut self, item: Option<u64>, position: u32) -> (change: Option<SelectionChange>)
        requires
            old(self).wf(),
            Self::change_computable(old(self).item_position, position, old(self).item_seq().len() as u32),
        ensures
            final(self).items == old(self).items,
            final(self).selected == item,
            final(self).item_position == position,
            change == Self::changed_range(old(self).item_position, position, old(self).item_seq().len() as u32),
    {
        let n = self.n_items();
        self.selected = item;
        let old_position = self.item_position;
        self.item_position = position;
        if old_position != INVALID_POSITION || position != INVALID_POSITION {
            if old_position == INVALID_POSITION {
                Some(SelectionChange { position, n_items: 1 })
            } else if position == INVALID_POSITION {
                let last = n - 1;
                Some(SelectionChange { position: if old_position < last { old_position } else { last }, n_items: 1 })
            } else if position < old_position {
                let span = old_position - position + 1;
                let room = n - position;
                Some(SelectionChange { position, n_items: if span < room { span } else { room } })
            } else {
                Some(SelectionChange { position: old_position, n_items: position - old_position + 1 })
            }
        } else {
            None
        }
    }

    /// Selects the item at `position` (nothing, if the model has no item
    /// there) and gives the range whose selection changed.
    pub fn select_item(&mut self, position: u32) -> (change: Option<SelectionChange>)
        requires
            old(self).wf(),
            Self::change_computable(old(self).item_position, position, old(self).item_seq().len() as u32),
        ensures
            final(self).items == old(self).items,
            final(self).item_position == position,
            final(self).selected == (if position < old(self).item_seq().len() {
                Some(old(self).item_seq()[position as int])
            } else {
                None
            }),
            change == Self::changed_range(old(self).item_position, position, old(self).item_seq().len() as u32),
    {
        let chat_list = self.item(position);
        self.set_selected_item_internal(chat_list, position)
    }

    /// Selects `chat_list` at its first position in the model (none, if it
    /// is not there) and gives the range whose selection changed.
    pub fn set_selected_chat_list(&mut self, chat_list: Option<u64>) -> (change: Option<SelectionChange>)
        requires
            old(self).wf(),
            old(self).item_position != INVALID_POSITION ==> old(self).item_seq().len() >= 1,
        ensures
            final(self).items == old(self).items,
            final(self).selected == chat_list,
            final(self).item_position == (match chat_list {
                Some(c) => found_position(old(self).item_seq(), c, 0, old(self).item_seq().len() as int),
                None => INVALID_POSITION,
            }),
            change == Self::changed_range(old(self).item_position, final(self).item_position, old(self).item_seq().len() as u32),
    {
        proof {
            match chat_list {
                Some(c) => lemma_first_position(self.item_seq(), c, 0, self.item_seq().len() as int),
                None => {},
            }
        }
        let position = match chat_list {
            Some(c) => {
                let n = self.n_items();
                self.find_item_position(c, 0, n)
            },
            None => INVALID_POSITION,
        };
        self.set_selected_item_internal(chat_list, position)
    }

    /// Where the selection stands after `removed` items at `position` were
    /// replaced by `added` items, with `items` the new items: a selected
    /// position before the change stays, one after it moves with it, and one
    /// among the removed items (or a missing one) is looked for among the
    /// added items; the selected chat list is dropped when it is not found
    /// there although it had a position.
    pub open spec fn position_after_change(
        items: Seq<u64>,
        selected: Option<u64>,
        item_position: u32,
        position: u32,
        removed: u32,
        added: u32,
    ) -> (u32, Option<u64>) {
        match selected {
            None => (item_position, None),
            Some(c) => if item_position == INVALID_POSITION {
                (found_position(items, c, position as int, position + added), selected)
            } else if item_position < position {
                (item_position, selected)
            } else if item_position < position + removed {
                let p = found_position(items, c, position as int, position + added);
                (p, if p == INVALID_POSITION { None } else { selected })
            } else {
                (wrap_u32(item_position + added - removed), selected)
            },
        }
    }

    /// Replaces the `removed` items at `position` by `added`, updates the
    /// selection to follow its chat list, and gives the change to announce.
    pub fn items_changed(&mut self, position: u32, removed: u32, added: Vec<u64>) -> (change: ItemsChange)
        requires
            old(self).wf(),
            old(self).items is Some,
            position + removed <= old(self).item_seq().len(),
            old(self).item_seq().len() - removed + added@.len() < INVALID_POSITION,
        ensures
            final(self).items is Some,
            final(self).item_seq() == old(self).item_seq().take(position as int) + added@
                + old(self).item_seq().skip(position + removed),
            (final(self).item_position, final(self).selected) == Self::position_after_change(
                final(self).item_seq(),
                old(self).selected,
                old(self).item_position,
                position,
                removed,
                added@.len() as u32,
            ),
            final(self).wf(),
            change == (ItemsChange { position, removed, added: added@.len() as u32 }),
    {
        let n_added = added.len() as u32;
        let tail_start: u32 = position + removed;
        let ghost before = old(self).item_seq();
        let old_items = self.items.take().unwrap();
        assert(old_items@ == before);
        let mut items: Vec<u64> = Vec::new();
        let mut i: usize = 0;
        while i < position as usize
            invariant
                i <= position <= old_items.len(),
                tail_start == position + removed,
                position + removed <= old_items.len(),
                items@ == old_items@.take(i as int),
            decreases position - i,
        {
            items.push(old_items[i]);
            i = i + 1;
            assert(items@ =~= old_items@.take(i as int));
        }
        let mut j: usize = 0;
        while j < added.len()
            invariant
                i == position,
                tail_start == position + removed,
                position + removed <= old_items.len(),
                j <= added.len(),
                items@ == old_items@.take(position as int) + added@.take(j as int),
            decreases added.len() - j,
        {
            items.push(added[j]);
            j = j + 1;
            assert(items@ =~= old_items@.take(position as int) + added@.take(j as int));
        }
        let mut k: usize = tail_start as usize;
        while k < old_items.len()
            invariant
                position + removed <= k <= old_items.len(),
                items@ == old_items@.take(position as int) + added@ + old_items@.subrange(position + removed, k as int),
            decreases old_items.len() - k,
        {
            items.push(old_items[k]);
            k = k + 1;
            assert(items@ =~= old_items@.take(position as int) + added@ + old_items@.subrange(position + removed, k as int));
        }
        assert(added@.take(added@.len() as int) =~= added@);
        assert(old_items@.subrange(position + removed, k as int) =~= old_items@.skip(position + removed));
        self.items = Some(items);
        match self.selected {
            Some(chat_list) => {
                let item_position = self.item_position;
                if item_position == INVALID_POSITION {
                    self.item_position = self.find_item_position(chat_list, position, position + n_added);
                } else if item_position < position {
                } else if item_position < position + removed {
                    let new_item_position = self.find_item_position(chat_list, position, position + n_added);
                    self.item_position = new_item_position;
                    if new_item_position == INVALID_POSITION {
                        self.selected = None;
                    }
                } else {
                    let shifted: i64 = item_position as i64 + (n_added as i64 - removed as i64);
                    self.item_position = if shifted <= 0xffff_ffff {
                        shifted as u32
                    } else {
                        (shifted - 0x1_0000_0000) as u32
                    };
                }
            },
            None => {},
        }
        ItemsChange { position, removed, added: n_added }
    }
}

/// A change of the model's items keeps the selection consistent: if the
/// selected position held the selected chat list before, it does after.
pub proof fn lemma_items_changed_keeps_consistency(
    before: ChatFolderSelection,
    after: ChatFolderSelection,
    position: u32,
    removed: u32,
    added: Seq<u64>,
)
    requires
        before.consistent(),
        before.items is Some,
        position + removed <= before.item_seq().len(),
        before.item_seq().len() - removed + added.len() < INVALID_POSITION,
        after.items is Some,
        after.item_seq() == before.item_seq().take(position as int) + added + before.item_seq().skip(position + removed),
        (after.item_position, after.selected) == ChatFolderSelection::position_after_change(
            after.item_seq(),
            before.selected,
            before.item_position,
            position,
            removed,
            added.len() as u32,
        ),
    ensures
        after.consistent(),
{
    let old_items = before.item_seq();
    let items = after.item_seq();
    match before.selected {
        None => {
            assert(before.item_position == INVALID_POSITION);
        },
        Some(c) => {
            lemma_first_position(items, c, position as int, position + added.len());
            let p = before.item_position;
            if p == INVALID_POSITION {
            } else if p < position {
                assert(items[p as int] == old_items[p as int]);
            } else if p < position + removed {
            } else {
                let q = p + added.len() - removed;
                assert(items[q] == old_items[p as int]);
            }
        },
    }
}

/// Selecting a chat list makes the selection consistent.
pub proof fn lemma_set_selected_chat_list_is_consistent(
    before: ChatFolderSelection,
    after: ChatFolderSelection,
    chat_list: Option<u64>,
)
    requires
        before.wf(),
        after.items == before.items,
        after.selected == chat_list,
        after.item_position == (match chat_list {
            Some(c) => found_position(before.item_seq(), c, 0, before.item_seq().len() as int),
            None => INVALID_POSITION,
        }),
    ensures
        after.consistent(),
{
    match chat_list {
        Some(c) => lemma_first_position(before.item_seq(), c, 0, before.item_seq().len() as int),
        None => {},
    }
}

/// Selecting a position of the model makes the selection consistent.
pub proof fn lemma_select_item_is_consistent(
    before: ChatFolderSelection,
    after: ChatFolderSelection,
    position: u32,
)
    requires
        position < before.item_seq().len(),
        after.items == before.items,
        after.item_position == position,
        after.selected == Some(before.item_seq()[position as int]),
    ensures
        after.consistent(),
{
}

} // verus!
