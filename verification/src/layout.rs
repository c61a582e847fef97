//! How many terminal lines each part of the picker takes.
use vstd::prelude::*;
use crate::common::State;

verus! {

/// One line for the comment when a non-empty comment is given.
pub open spec fn comment_line_count(comment: Option<String>) -> int {
    match comment {
        Some(c) => if c@.len() > 0 {
            1
        } else {
            0
        },
        None => 0,
    }
}

/// One line for the search bar when search is on.
pub open spec fn search_line_count(search: bool) -> int {
    if search {
        1
    } else {
        0
    }
}

/// Lines reserved for the list: at most `max_lines`, and at most one per item
/// (counting an empty list as one item); so at least one when `max_lines` is at
/// least one.
pub open spec fn visible_line_count(max_lines: int, n_items: int) -> int {
    let at_least_one = if n_items > 1 {
        n_items
    } else {
        1
    };
    if max_lines < at_least_one {
        max_lines
    } else {
        at_least_one
    }
}

/// The layout that `init_layout` gives to `s`: its lines for the comment, the list,
/// the search bar and in all.
pub open spec fn layout_of(s: State) -> (int, int, int, int) {
    let c = comment_line_count(s.comment);
    let v = visible_line_count(s.max_lines as int, s.items_key@.len() as int);
    let q = search_line_count(s.search);
    (c, v, q, c + v + q)
}

/// Whether `init_layout` can take `state`: the total of its layout fits in `usize`.
pub fn can_lay_out(state: &State) -> (r: bool)
    ensures
        r == (layout_of(*state).3 <= usize::MAX),
{
    let comment_lines: usize = match &state.comment {
        Some(c) if !c.as_str().is_empty() => 1,
        _ => 0,
    };
    let search_lines: usize = if state.search {
        1
    } else {
        0
    };
    let visible = state.max_lines.min(state.items_key.len().max(1));
    visible <= usize::MAX - comment_lines - search_lines
}

/// Computes the layout values of the state once, at start.
pub fn init_layout(state: &mut State)
    requires
        layout_of(*old(state)).3 <= usize::MAX,
    ensures
        final(state).comment_lines == layout_of(*old(state)).0,
        final(state).max_visible == layout_of(*old(state)).1,
        final(state).search_lines == layout_of(*old(state)).2,
        final(state).total_lines == layout_of(*old(state)).3,
        final(state).items_key == old(state).items_key,
        final(state).item_values == old(state).item_values,
        final(state).search_query == old(state).search_query,
        final(state).filtered_items == old(state).filtered_items,
        final(state).cursor_pos == old(state).cursor_pos,
        final(state).comment == old(state).comment,
        final(state).search == old(state).search,
        final(state).scroll_offset == old(state).scroll_offset,
        final(state).search_cursor == old(state).search_cursor,
        final(state).max_lines == old(state).max_lines,
{
    // One comment line when a comment is given.
    state.comment_lines = match &state.comment {
        Some(c) if !c.as_str().is_empty() => 1,
        _ => 0,
    };
    // One search bar line when search is on.
    state.search_lines = if state.search {
        1
    } else {
        0
    };

    // The list shows at least 1 line.
    let min_visible = state.items_key.len().max(1);
    state.max_visible = state.max_lines.min(min_visible);
    // Total, to bring the cursor back to the top of the block.
    state.total_lines = state.comment_lines + state.max_visible + state.search_lines;
}

} // verus!
