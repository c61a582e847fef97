//! Moving the list cursor and keeping the viewport (the scroll offset) around it.
use vstd::prelude::*;
use crate::common::State;

verus! {

/// Largest cursor position in a list of `len` entries (0 for an empty list).
pub open spec fn last_index(len: int) -> int {
    if len > 0 {
        len - 1
    } else {
        0
    }
}

/// Cursor and scroll offset after one step up.
/// Row 0 of the viewport shows "..." when the offset is above 0, so the offset
/// steps back as well when the cursor would land on that row.
pub open spec fn up_position(cursor: int, scroll: int) -> (int, int) {
    if cursor > 0 {
        let c = cursor - 1;
        if c < scroll {
            (c, c)
        } else if scroll > 0 && c == scroll {
            (c, scroll - 1)
        } else {
            (c, scroll)
        }
    } else {
        (cursor, scroll)
    }
}

/// Cursor and scroll offset after one step down in a list of `len` entries shown
/// through `visible` rows. The last row shows "..." when entries are hidden below,
/// so the offset steps forward as well when the cursor would land on that row.
pub open spec fn down_position(cursor: int, scroll: int, len: int, visible: int) -> (int, int) {
    if cursor < last_index(len) {
        let c = cursor + 1;
        if c >= scroll + visible {
            (c, c + 1 - visible)
        } else if c == scroll + visible - 1 && scroll + visible < len {
            (c, scroll + 1)
        } else {
            (c, scroll)
        }
    } else {
        (cursor, scroll)
    }
}

/// Cursor and scroll offset brought back within a list of `len` entries.
pub open spec fn clamp_position(cursor: int, scroll: int, len: int) -> (int, int) {
    let c = if cursor > last_index(len) {
        last_index(len)
    } else {
        cursor
    };
    (c, if scroll > c {
        c
    } else {
        scroll
    })
}

/// What a step down computes without overflow: the sums it forms fit in `usize`.
pub open spec fn down_fits(cursor: int, scroll: int, len: int, visible: int) -> bool {
    cursor < last_index(len) ==> 1 <= scroll + visible <= usize::MAX
}

/// `b` is `a` with at most the cursor and the scroll offset changed.
pub open spec fn same_but_position(a: State, b: State) -> bool {
    &&& b.items_key == a.items_key
    &&& b.item_values == a.item_values
    &&& b.search_query == a.search_query
    &&& b.filtered_items == a.filtered_items
    &&& b.comment == a.comment
    &&& b.search == a.search
    &&& b.search_cursor == a.search_cursor
    &&& b.max_lines == a.max_lines
    &&& b.max_visible == a.max_visible
    &&& b.comment_lines == a.comment_lines
    &&& b.search_lines == a.search_lines
    &&& b.total_lines == a.total_lines
}

/// The cursor and scroll offset of `b` are the pair `p`.
pub open spec fn at_position(b: State, p: (int, int)) -> bool {
    b.cursor_pos == p.0 && b.scroll_offset == p.1
}

/// Moves the cursor one entry up.
pub fn move_up(state: &mut State)
    ensures
        same_but_position(*old(state), *final(state)),
        at_position(
            *final(state),
            up_position(old(state).cursor_pos as int, old(state).scroll_offset as int),
        ),
{
    if state.cursor_pos > 0 {
        state.cursor_pos -= 1;
        // Row 0 of the viewport is a "..." when scroll_offset > 0.
        if state.cursor_pos < state.scroll_offset {
            state.scroll_offset = state.cursor_pos;
        } else if state.scroll_offset > 0 && state.cursor_pos == state.scroll_offset {
            // Keeps the cursor off the "..." row.
            state.scroll_offset = state.scroll_offset.saturating_sub(1);
        }
    }
}

/// Moves the cursor one entry down.
pub fn move_down(state: &mut State)
    requires
        down_fits(
            old(state).cursor_pos as int,
            old(state).scroll_offset as int,
            old(state).filtered_items@.len() as int,
            old(state).max_visible as int,
        ),
    ensures
        same_but_position(*old(state), *final(state)),
        at_position(
            *final(state),
            down_position(
                old(state).cursor_pos as int,
                old(state).scroll_offset as int,
                old(state).filtered_items@.len() as int,
                old(state).max_visible as int,
            ),
        ),
{
    let max_idx = state.filtered_items.len().saturating_sub(1);
    if state.cursor_pos < max_idx {
        state.cursor_pos += 1;
        // The last row of the viewport is a "..." when entries overflow below.
        let would_be_last = state.cursor_pos == state.scroll_offset + state.max_visible - 1;
        let more_below = state.scroll_offset + state.max_visible < state.filtered_items.len();
        if state.cursor_pos >= state.scroll_offset + state.max_visible {
            state.scroll_offset = state.cursor_pos + 1 - state.max_visible;
        } else if would_be_last && more_below {
            state.scroll_offset += 1;
        }
    }
}

/// Brings the cursor back within the filtered list, and the scroll offset no
/// further than the cursor.
pub fn clamp_list_cursor(state: &mut State)
    ensures
        same_but_position(*old(state), *final(state)),
        at_position(
            *final(state),
            clamp_position(
                old(state).cursor_pos as int,
                old(state).scroll_offset as int,
                old(state).filtered_items@.len() as int,
            ),
        ),
{
    // Keeps the cursor within the bounds of the filtered list.
    let max_idx = state.filtered_items.len().saturating_sub(1);
    if state.cursor_pos > max_idx {
        state.cursor_pos = max_idx;
    }
    if state.scroll_offset > state.cursor_pos {
        state.scroll_offset = state.cursor_pos;
    }
}

} // verus!
