//! The picker's state: the items, the filtered list, the cursor and the layout.
use vstd::prelude::*;
use crate::scroll::{up_position, down_position, down_fits};

verus! {

/// Name of the program, shown in its help text.
pub const APP_NAME: &'static str = "CRZ Rough";

/// Everything the picker knows between two events.
pub struct State {
    pub items_key: Vec<String>,
    pub item_values: Option<Vec<String>>,
    pub search_query: String,
    /// Only the indexes of items
    pub filtered_items: Vec<usize>,
    /// Position of the cursor in the filtered list (not the list of all items!)
    pub cursor_pos: usize,
    pub comment: Option<String>,
    /// if search fonctionnality is enabled or not
    pub search: bool,
    pub scroll_offset: usize,
    /// Cursor position within search_query (char index, not bytes)
    pub search_cursor: usize,
    /// Maximum number of list lines to display
    pub max_lines: usize,
    /// Actual visible lines reserved for the list
    pub max_visible: usize,
    /// Layout values computed once at init
    pub comment_lines: usize,
    pub search_lines: usize,
    pub total_lines: usize,
}

/// An item of the list, seen through the state that holds it.
pub struct Item<'a> {
    pub index: usize,
    pub s: &'a State,
}

/// The label (key) of item `index`.
pub open spec fn label_of(s: &State, index: int) -> Seq<char> {
    s.items_key@[index]@
}

/// The value of item `index`: its value when values were given, otherwise its key.
pub open spec fn value_of(s: &State, index: int) -> Seq<char> {
    match s.item_values {
        Some(values) => values@[index]@,
        None => s.items_key@[index]@,
    }
}

/// Whether item `index` has a label and a value to read.
pub open spec fn item_readable(s: &State, index: int) -> bool {
    &&& 0 <= index < s.items_key@.len()
    &&& match s.item_values {
        Some(values) => index < values@.len(),
        None => true,
    }
}

impl State {
    /// Get Item struct from index
    pub fn item(&self, index: usize) -> (r: Item<'_>)
        ensures
            r.index == index,
            r.s == self,
    {
        Item { index, s: self }
    }

    /// The filtered items, in the order of the filtered list, as Item structs.
    pub fn iter_filtered(&self) -> (r: Vec<Item<'_>>)
        ensures
            r@.len() == self.filtered_items@.len(),
            forall|i: int|
                #![trigger r@[i]]
                0 <= i < r@.len() ==> (r@[i].index == self.filtered_items@[i] && r@[i].s == self),
    {
        let mut r: Vec<Item<'_>> = Vec::new();
        let n = self.filtered_items.len();
        for k in 0..n
            invariant
                n == self.filtered_items@.len(),
                r@.len() == k,
                forall|i: int|
                    #![trigger r@[i]]
                    0 <= i < k ==> (r@[i].index == self.filtered_items@[i] && r@[i].s == self),
        {
            r.push(self.item(self.filtered_items[k]));
        }
        r
    }
}

impl<'a> Item<'a> {
    /// Get the label of the item (the key)
    pub fn label(&self) -> (r: &str)
        requires
            self.index < self.s.items_key@.len(),
        ensures
            r@ == label_of(self.s, self.index as int),
    {
        self.s.items_key[self.index].as_str()
    }

    /// Get the value of the item (the value if it exists, otherwise the key)
    pub fn value(&self) -> (r: &str)
        requires
            item_readable(self.s, self.index as int),
        ensures
            r@ == value_of(self.s, self.index as int),
    {
        match &self.s.item_values {
            Some(values) => values[self.index].as_str(),
            None => self.s.items_key[self.index].as_str(),
        }
    }
}

/// The list part of the state on its own: items, filter, cursor and viewport.
pub struct ListState {
    pub cursor_pos: usize,
    pub scroll_offset: usize,
    pub items_key: Vec<String>,
    pub item_values: Option<Vec<String>>,
    pub search_query: String,
    /// Only the indexes of items
    pub filtered_items: Vec<usize>,
    /// Actual visible lines reserved for the list
    pub max_visible: usize,
}

/// `b` is `a` with at most the cursor and the scroll offset changed.
pub open spec fn list_same_but_position(a: ListState, b: ListState) -> bool {
    &&& b.items_key == a.items_key
    &&& b.item_values == a.item_values
    &&& b.search_query == a.search_query
    &&& b.filtered_items == a.filtered_items
    &&& b.max_visible == a.max_visible
}

impl ListState {
    /// Moves the cursor one entry up.
    pub fn move_up(&mut self)
        ensures
            list_same_but_position(*old(self), *final(self)),
            (final(self).cursor_pos as int, final(self).scroll_offset as int) == up_position(
                old(self).cursor_pos as int,
                old(self).scroll_offset as int,
            ),
    {
        if self.cursor_pos > 0 {
            self.cursor_pos -= 1;
            // Row 0 of the viewport is a "..." when scroll_offset > 0.
            if self.cursor_pos < self.scroll_offset {
                self.scroll_offset = self.cursor_pos;
            } else if self.scroll_offset > 0 && self.cursor_pos == self.scroll_offset {
                // Keeps the cursor off the "..." row.
                self.scroll_offset = self.scroll_offset.saturating_sub(1);
            }
        }
    }

    /// Moves the cursor one entry down.
    pub fn move_down(&mut self)
        requires
            down_fits(
                old(self).cursor_pos as int,
                old(self).scroll_offset as int,
                old(self).filtered_items@.len() as int,
                old(self).max_visible as int,
            ),
        ensures
            list_same_but_position(*old(self), *final(self)),
            (final(self).cursor_pos as int, final(self).scroll_offset as int) == down_position(
                old(self).cursor_pos as int,
                old(self).scroll_offset as int,
                old(self).filtered_items@.len() as int,
                old(self).max_visible as int,
            ),
    {
        let max_idx = self.filtered_items.len().saturating_sub(1);
        if self.cursor_pos < max_idx {
            self.cursor_pos += 1;
            // The last row of the viewport is a "..." when entries overflow below.
            let would_be_last = self.cursor_pos == self.scroll_offset + self.max_visible - 1;
            let more_below = self.scroll_offset + self.max_visible < self.filtered_items.len();
            if self.cursor_pos >= self.scroll_offset + self.max_visible {
                self.scroll_offset = self.cursor_pos + 1 - self.max_visible;
            } else if would_be_last && more_below {
                self.scroll_offset += 1;
            }
        }
    }
}

} // verus!
