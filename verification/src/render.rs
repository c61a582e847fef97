//! What each line of the picker shows; the terminal output itself is drawn elsewhere.
use vstd::prelude::*;
use crate::common::State;
use crate::text::char_count;

verus! {

broadcast use vstd::string::group_string_axioms;

/// What one row of the list shows.
#[derive(PartialEq, Eq, Debug, Clone, Copy, Structural)]
pub enum Row {
    /// "..." : entries are hidden on this side.
    More,
    /// The entry of item `real_idx`; `selected` when the cursor is on it.
    Entry { real_idx: usize, selected: bool },
    /// Nothing (past the end of the list).
    Blank,
}

/// The row `row` of the list of `s`: "..." on the first row when entries are
/// hidden above, "..." on the last row when entries are hidden below, else the
/// entry at `scroll_offset + row`, or nothing past the end.
pub open spec fn row_at(s: State, row: int) -> Row {
    let total = s.filtered_items@.len();
    let filtered_idx = s.scroll_offset + row;
    if row == 0 && s.scroll_offset > 0 {
        Row::More
    } else if row == s.max_visible - 1 && s.scroll_offset + s.max_visible < total {
        Row::More
    } else if filtered_idx < total {
        Row::Entry {
            real_idx: s.filtered_items@[filtered_idx],
            selected: filtered_idx == s.cursor_pos,
        }
    } else {
        Row::Blank
    }
}

/// The `max_visible` rows of the list, top to bottom.
pub fn list_rows(state: &State) -> (rows: Vec<Row>)
    requires
        state.scroll_offset + state.max_visible <= usize::MAX,
    ensures
        rows@.len() == state.max_visible,
        forall|i: int| 0 <= i < rows@.len() ==> #[trigger] rows@[i] == row_at(*state, i),
{
    let total_items = state.filtered_items.len();
    let has_more_above = state.scroll_offset > 0;
    let has_more_below = state.scroll_offset + state.max_visible < total_items;
    let mut rows: Vec<Row> = Vec::new();
    for row in 0..state.max_visible
        invariant
            total_items == state.filtered_items@.len(),
            has_more_above == (state.scroll_offset > 0),
            has_more_below == (state.scroll_offset + state.max_visible < total_items),
            state.scroll_offset + state.max_visible <= usize::MAX,
            rows@.len() == row,
            forall|i: int| 0 <= i < row ==> #[trigger] rows@[i] == row_at(*state, i),
    {
        let filtered_idx = state.scroll_offset + row;
        // First row: "..." when entries are hidden above.
        let r = if row == 0 && has_more_above {
            Row::More
            // Last row: "..." when entries are hidden below.
        } else if row == state.max_visible - 1 && has_more_below {
            Row::More
        } else if filtered_idx < total_items {
            Row::Entry {
                real_idx: state.filtered_items[filtered_idx],
                selected: filtered_idx == state.cursor_pos,
            }
        } else {
            Row::Blank
        };
        rows.push(r);
    }
    rows
}

/// Text of the search bar when the query is empty.
pub const PLACEHOLDER: &'static str = "Fuzzy search here...";

/// The search bar split around its cursor: the text before it, the character
/// under it, and the text after it. `placeholder` when the query is empty and the
/// placeholder text is shown instead.
pub struct SearchLine {
    pub placeholder: bool,
    pub before: String,
    pub under: String,
    pub after: String,
}

/// Splits the search bar around the cursor at character `cursor` of `query`.
/// An empty query shows the placeholder with the cursor on its first character;
/// a cursor at or past the end shows a space under it.
pub fn search_line(query: &str, cursor: usize) -> (r: SearchLine)
    ensures
        r.placeholder == (query@.len() == 0),
        query@.len() == 0 ==> {
            &&& r.before@ == Seq::<char>::empty()
            &&& r.under@ == PLACEHOLDER@.take(1)
            &&& r.after@ == PLACEHOLDER@.skip(1)
        },
        query@.len() > 0 && cursor >= query@.len() ==> {
            &&& r.before@ == query@
            &&& r.under@ == seq![' ']
            &&& r.after@ == Seq::<char>::empty()
        },
        query@.len() > 0 && cursor < query@.len() ==> {
            &&& r.before@ == query@.take(cursor as int)
            &&& r.under@ == seq![query@[cursor as int]]
            &&& r.after@ == query@.skip(cursor + 1)
        },
{
    if query.is_empty() {
        // Placeholder: the first char highlighted as the cursor.
        let placeholder = PLACEHOLDER;
        proof {
            reveal_strlit("Fuzzy search here...");
        }
        let n = char_count(placeholder);
        let cursor_char = placeholder.substring_char(0, 1);
        let rest = placeholder.substring_char(1, n);
        proof {
            assert(PLACEHOLDER@.subrange(0, 1) =~= PLACEHOLDER@.take(1));
            assert(PLACEHOLDER@.subrange(1, n as int) =~= PLACEHOLDER@.skip(1));
        }
        SearchLine {
            placeholder: true,
            before: String::new(),
            under: cursor_char.to_string(),
            after: rest.to_string(),
        }
    } else {
        let char_count = char_count(query);
        let cursor_at_end = cursor >= char_count;
        // Splits the query: before the cursor | char under the cursor | after it.
        if cursor_at_end {
            let before = query.substring_char(0, char_count);
            proof {
                reveal_strlit(" ");
                assert(query@.subrange(0, char_count as int) =~= query@);
            }
            SearchLine {
                placeholder: false,
                before: before.to_string(),
                under: " ".to_string(),
                after: String::new(),
            }
        } else {
            let before = query.substring_char(0, cursor);
            let ch = query.substring_char(cursor, cursor + 1);
            let rest = query.substring_char(cursor + 1, char_count);
            proof {
                assert(query@.subrange(0, cursor as int) =~= query@.take(cursor as int));
                assert(query@.subrange(cursor as int, cursor + 1) =~= seq![query@[cursor as int]]);
                assert(query@.subrange(cursor + 1, char_count as int) =~= query@.skip(cursor + 1));
            }
            SearchLine {
                placeholder: false,
                before: before.to_string(),
                under: ch.to_string(),
                after: rest.to_string(),
            }
        }
    }
}

} // verus!
