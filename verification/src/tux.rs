//! The decisions of the terminal session: the state it starts from and the value
//! it hands back. The session loop itself, which reads events and draws, runs outside.
use vstd::prelude::*;
use crate::cli::Args;
use crate::common::{State, item_readable, value_of};

verus! {

broadcast use vstd::string::group_string_axioms;

/// The zero-based cursor position for the one-based `index` in a list of `len`
/// entries: `index - 1`, brought within the list, and 0 for an index of 0.
pub open spec fn start_position(index: int, len: int) -> int {
    let m = if index < len {
        index
    } else {
        len
    };
    if m > 0 {
        m - 1
    } else {
        0
    }
}

/// The state a session starts from, for the lines `items` and the options `args`:
/// every item is listed, the cursor is on the one-based `index` (within the list,
/// 0 for 0), the query is the default query, and the layout is still to compute.
pub fn initial_state(args: &Args, items: Vec<String>) -> (s: State)
    ensures
        s.items_key@ == items@,
        s.item_values is None,
        s.search_query@ == (match args.search_default {
            Some(q) => q@,
            None => Seq::<char>::empty(),
        }),
        s.filtered_items@.len() == items@.len(),
        forall|i: int| 0 <= i < items@.len() ==> #[trigger] s.filtered_items@[i] == i,
        s.cursor_pos == start_position(args.index as int, items@.len() as int),
        s.comment == args.comment,
        s.search == !args.no_search,
        s.scroll_offset == 0,
        s.search_cursor == 0,
        s.max_lines == (if args.lines > 1 {
            args.lines as int
        } else {
            1
        }),
        s.max_visible == 0,
        s.comment_lines == 0,
        s.search_lines == 0,
        s.total_lines == 0,
{
    let n = items.len();
    let mut filtered_items: Vec<usize> = Vec::new();
    for i in 0..n
        invariant
            filtered_items@.len() == i,
            forall|j: int| 0 <= j < i ==> #[trigger] filtered_items@[j] == j,
    {
        filtered_items.push(i);
    }
    let search_query = match &args.search_default {
        Some(q) => q.clone(),
        None => String::new(),
    };
    let comment = match &args.comment {
        Some(c) => Some(c.clone()),
        None => None,
    };
    State {
        items_key: items,
        item_values: None,
        search_query,
        // All items are listed at first.
        filtered_items,
        // One-based index to zero-based position.
        cursor_pos: args.index.min(n).saturating_sub(1),
        comment,
        search: !args.no_search,
        scroll_offset: 0,
        search_cursor: 0,
        max_lines: args.lines.max(1) as usize,
        max_visible: 0,
        comment_lines: 0,
        search_lines: 0,
        total_lines: 0,
    }
}

/// The value handed back when the session ends on a selection: the value of the
/// item under the cursor, or nothing when the filtered list has no entry there.
pub fn selected_value(state: &State) -> (r: Option<String>)
    requires
        state.cursor_pos < state.filtered_items@.len() ==> item_readable(
            state,
            state.filtered_items@[state.cursor_pos as int] as int,
        ),
    ensures
        r is Some <==> state.cursor_pos < state.filtered_items@.len(),
        r matches Some(v) ==> v@ == value_of(
            state,
            state.filtered_items@[state.cursor_pos as int] as int,
        ),
{
    if state.cursor_pos < state.filtered_items.len() {
        let real_idx = state.filtered_items[state.cursor_pos];
        Some(state.item(real_idx).value().to_string())
    } else {
        None
    }
}

} // verus!
