//! Properties that hold across the operations of the picker.
use vstd::prelude::*;
use crate::common::{State, ListState};
use crate::input::{InputEvent, InputAction, Key, KeyPress, MouseKind, event_outcome};
use crate::render::{Row, row_at};
use crate::scroll::{
    last_index, up_position, down_position, clamp_position, same_but_position, at_position,
};
use crate::search::{
    is_subsequence, embeds, lemma_empty_subsequence, matching_upto, filter_result, inserted,
    deleted_left, word_start_at, word_bounds,
};
use crate::text::{lowercase, ascii_lower, ascii_lower_seq};
use vstd::utf8::is_ascii_chars;
use crate::layout::{visible_line_count, layout_of};
use crate::tux::start_position;

verus! {

// ---------------------------------------------------------------------------
// Cursor and viewport
// ---------------------------------------------------------------------------

/// The cursor lies within the filtered list (on 0 when the list is empty).
pub open spec fn in_bounds(cursor: int, len: int) -> bool {
    0 <= cursor <= last_index(len)
}

/// The cursor lies within the list, shows in the viewport, and sits on none of the
/// "..." rows that mark entries hidden above or below.
pub open spec fn well_placed(cursor: int, scroll: int, len: int, visible: int) -> bool {
    &&& in_bounds(cursor, len)
    &&& 0 <= scroll <= cursor < scroll + visible
    &&& !(scroll > 0 && cursor == scroll)
    &&& !(scroll + visible < len && cursor == scroll + visible - 1)
}

/// A session starts with its cursor within the list of all items.
pub proof fn lemma_start_in_bounds(index: int, len: int)
    requires
        0 <= index,
        0 <= len,
    ensures
        in_bounds(start_position(index, len), len),
{
}

/// The one-based `index` picks the entry at `index - 1`; an index past the list
/// picks the last entry, and 0 the first.
pub proof fn lemma_start_position(index: int, len: int)
    requires
        0 <= index,
        0 <= len,
    ensures
        1 <= index <= len ==> start_position(index, len) == index - 1,
        index > len >= 1 ==> start_position(index, len) == len - 1,
        index == 0 || len == 0 ==> start_position(index, len) == 0,
{
}

/// The list always gets at least one line, and never more than asked for; with
/// items, never more than one line per item.
pub proof fn lemma_visible_lines(max_lines: int, n_items: int)
    requires
        max_lines >= 1,
        n_items >= 0,
    ensures
        1 <= visible_line_count(max_lines, n_items) <= max_lines,
        n_items >= 1 ==> visible_line_count(max_lines, n_items) <= n_items,
{
}

/// A step up moves the cursor up by one entry unless it is already at the top, and
/// never scrolls the viewport down: the offset stays or, when the cursor was in
/// view, goes back by at most one.
pub proof fn lemma_up_step(cursor: int, scroll: int)
    requires
        0 <= scroll,
        0 <= cursor,
    ensures
        up_position(cursor, scroll).0 == if cursor > 0 {
            cursor - 1
        } else {
            cursor
        },
        up_position(cursor, scroll).1 <= scroll,
        0 <= up_position(cursor, scroll).1,
        scroll <= cursor ==> up_position(cursor, scroll).1 >= scroll - 1
            && up_position(cursor, scroll).1 <= up_position(cursor, scroll).0,
{
}

/// A step down moves the cursor down by one entry unless it is already on the
/// last one. When the cursor was in view, the offset never goes back and moves
/// forward by at most one; and the viewport never scrolls past the end of the list
/// if it was not past it already.
pub proof fn lemma_down_step(cursor: int, scroll: int, len: int, visible: int)
    requires
        0 <= scroll,
        0 <= cursor,
        0 <= len,
        visible >= 1,
    ensures
        down_position(cursor, scroll, len, visible).0 == if cursor < last_index(len) {
            cursor + 1
        } else {
            cursor
        },
        scroll <= cursor < scroll + visible ==> scroll <= down_position(
            cursor,
            scroll,
            len,
            visible,
        ).1 <= scroll + 1,
        scroll <= cursor < scroll + visible && scroll + visible <= (if len > visible {
            len
        } else {
            visible
        }) ==> down_position(cursor, scroll, len, visible).1 + visible <= (if len > visible {
            len
        } else {
            visible
        }),
{
}

/// A step up keeps the cursor well placed, when the viewport has at least 3 rows.
pub proof fn lemma_up_keeps_placement(cursor: int, scroll: int, len: int, visible: int)
    requires
        visible >= 3,
        well_placed(cursor, scroll, len, visible),
    ensures
        well_placed(up_position(cursor, scroll).0, up_position(cursor, scroll).1, len, visible),
{
}

/// A step down keeps the cursor well placed, when the viewport has at least 3 rows.
pub proof fn lemma_down_keeps_placement(cursor: int, scroll: int, len: int, visible: int)
    requires
        visible >= 3,
        well_placed(cursor, scroll, len, visible),
    ensures
        well_placed(
            down_position(cursor, scroll, len, visible).0,
            down_position(cursor, scroll, len, visible).1,
            len,
            visible,
        ),
{
}

/// The top of the list, where typing in the search bar puts the cursor, is well
/// placed when the viewport has at least 2 rows.
pub proof fn lemma_top_is_well_placed(len: int, visible: int)
    requires
        visible >= 2,
    ensures
        well_placed(0, 0, len, visible),
{
}

/// Every step up or down keeps the cursor within the list; bringing it back
/// within a list puts it there, with the scroll offset no further than it.
pub proof fn lemma_steps_keep_bounds(cursor: int, scroll: int, len: int, visible: int)
    requires
        in_bounds(cursor, len),
    ensures
        in_bounds(up_position(cursor, scroll).0, len),
        in_bounds(down_position(cursor, scroll, len, visible).0, len),
        forall|old_cursor: int, old_scroll: int, new_len: int|
            0 <= old_cursor && 0 <= old_scroll ==> {
                let p = #[trigger] clamp_position(old_cursor, old_scroll, new_len);
                in_bounds(p.0, new_len) && 0 <= p.1 <= p.0
            },
{
}

/// A step down undoes a step up, and a step up undoes a step down, as far as the
/// cursor goes (the viewport may differ).
pub proof fn lemma_up_down_undo(cursor: int, scroll: int, len: int, visible: int)
    requires
        in_bounds(cursor, len),
    ensures
        cursor > 0 ==> down_position(
            up_position(cursor, scroll).0,
            up_position(cursor, scroll).1,
            len,
            visible,
        ).0 == cursor,
        cursor < last_index(len) ==> up_position(
            down_position(cursor, scroll, len, visible).0,
            down_position(cursor, scroll, len, visible).1,
        ).0 == cursor,
{
}

/// The cursor of `s` is well placed in its viewport.
pub open spec fn state_well_placed(s: State) -> bool {
    well_placed(
        s.cursor_pos as int,
        s.scroll_offset as int,
        s.filtered_items@.len() as int,
        s.max_visible as int,
    )
}

/// `move_up` and `move_down` (as their contracts give the new state) keep the
/// cursor well placed, when the viewport has at least 3 rows.
pub proof fn lemma_moves_keep_state_placement(a: State, b: State)
    requires
        a.max_visible >= 3,
        state_well_placed(a),
        same_but_position(a, b),
    ensures
        at_position(b, up_position(a.cursor_pos as int, a.scroll_offset as int))
            ==> state_well_placed(b),
        at_position(
            b,
            down_position(
                a.cursor_pos as int,
                a.scroll_offset as int,
                a.filtered_items@.len() as int,
                a.max_visible as int,
            ),
        ) ==> state_well_placed(b),
{
    lemma_up_keeps_placement(
        a.cursor_pos as int,
        a.scroll_offset as int,
        a.filtered_items@.len() as int,
        a.max_visible as int,
    );
    lemma_down_keeps_placement(
        a.cursor_pos as int,
        a.scroll_offset as int,
        a.filtered_items@.len() as int,
        a.max_visible as int,
    );
}

/// The up arrow and the wheel up do exactly what `move_up` does, and the down
/// arrow and the wheel down exactly what `move_down` does, whatever the Control
/// key and the search flag; nothing else changes and the loop goes on.
pub proof fn lemma_arrow_events_move(a: State, ev: InputEvent, b: State, act: InputAction)
    requires
        event_outcome(a, ev, b, act),
    ensures
        (ev == InputEvent::Mouse(MouseKind::ScrollUp) || (ev matches InputEvent::Key(k) && k.code
            == Key::Up)) ==> {
            &&& act == InputAction::Continue
            &&& same_but_position(a, b)
            &&& at_position(b, up_position(a.cursor_pos as int, a.scroll_offset as int))
        },
        (ev == InputEvent::Mouse(MouseKind::ScrollDown) || (ev matches InputEvent::Key(k)
            && k.code == Key::Down)) ==> {
            &&& act == InputAction::Continue
            &&& same_but_position(a, b)
            &&& at_position(
                b,
                down_position(
                    a.cursor_pos as int,
                    a.scroll_offset as int,
                    a.filtered_items@.len() as int,
                    a.max_visible as int,
                ),
            )
        },
{
}

/// Ctrl+C cancels: whatever the state (search on or off), the action is `Quit`
/// and nothing changes.
pub proof fn lemma_ctrl_c_quits(a: State, b: State, act: InputAction)
    requires
        event_outcome(a, InputEvent::Key(KeyPress { code: Key::Char('c'), ctrl: true }), b, act),
    ensures
        act == InputAction::Quit,
        b == a,
{
}

/// Esc cancels, with or without Control: the action is `Quit` and nothing changes.
pub proof fn lemma_esc_quits(a: State, ctrl: bool, b: State, act: InputAction)
    requires
        event_outcome(a, InputEvent::Key(KeyPress { code: Key::Esc, ctrl }), b, act),
    ensures
        act == InputAction::Quit,
        b == a,
{
}

/// Enter (with or without Control) and a left click pick the entry under the
/// cursor: whatever the state (search on or off), the action is `Select` and
/// nothing changes.
pub proof fn lemma_enter_and_click_select(
    a: State,
    ctrl: bool,
    b1: State,
    act1: InputAction,
    b2: State,
    act2: InputAction,
)
    requires
        event_outcome(a, InputEvent::Key(KeyPress { code: Key::Enter, ctrl }), b1, act1),
        event_outcome(a, InputEvent::Mouse(MouseKind::LeftDown), b2, act2),
    ensures
        act1 == InputAction::Select,
        b1 == a,
        act2 == InputAction::Select,
        b2 == a,
{
}

/// The layout: one comment line exactly when a non-empty comment is given, one
/// search line exactly when search is on, and for the list the smaller of
/// `max_lines` and the number of items (an empty list counting as one item); the
/// total adds the three.
pub proof fn lemma_layout(s: State)
    ensures
        ({
            let (c, v, q, t) = layout_of(s);
            let n = s.items_key@.len() as int;
            let wanted = if n >= 1 {
                n
            } else {
                1
            };
            &&& c == (if s.comment matches Some(x) && x@.len() > 0 {
                1int
            } else {
                0int
            })
            &&& q == (if s.search {
                1int
            } else {
                0int
            })
            &&& v <= s.max_lines
            &&& v <= wanted
            &&& (v == s.max_lines || v == wanted)
            &&& t == c + v + q
        }),
{
}

/// Events the picker does not tell apart, and mouse events other than the wheel
/// and the left button, change nothing and the loop goes on.
pub proof fn lemma_other_events_ignored(a: State, k: bool, b: State, act: InputAction)
    requires
        event_outcome(a, InputEvent::Other, b, act) || event_outcome(
            a,
            InputEvent::Mouse(MouseKind::Other),
            b,
            act,
        ) || event_outcome(a, InputEvent::Key(KeyPress { code: Key::Other, ctrl: k }), b, act),
    ensures
        act == InputAction::Continue,
        b == a,
{
}

/// With search off, the keys that edit the query (Left, Right, Backspace, any
/// character but Ctrl+C) change nothing.
pub proof fn lemma_search_off_ignores_text(a: State, code: Key, ctrl: bool, b: State, act: InputAction)
    requires
        !a.search,
        code == Key::Left || code == Key::Right || code == Key::Backspace || code is Char,
        !(ctrl && code == Key::Char('c')),
        event_outcome(a, InputEvent::Key(KeyPress { code, ctrl }), b, act),
    ensures
        act == InputAction::Continue,
        b == a,
{
}

/// With search on, Left and Right move the search cursor by one character, not
/// before the start nor past the end of the query, and change nothing else.
pub proof fn lemma_search_cursor_keys(a: State, ctrl: bool, b1: State, act1: InputAction, b2: State, act2: InputAction)
    requires
        a.search,
        a.search_cursor <= a.search_query@.len(),
        event_outcome(a, InputEvent::Key(KeyPress { code: Key::Left, ctrl }), b1, act1),
        event_outcome(a, InputEvent::Key(KeyPress { code: Key::Right, ctrl }), b2, act2),
    ensures
        act1 == InputAction::Continue && act2 == InputAction::Continue,
        b1.search_cursor == (if a.search_cursor > 0 {
            a.search_cursor - 1
        } else {
            0
        }),
        b2.search_cursor == (if a.search_cursor < a.search_query@.len() {
            a.search_cursor + 1
        } else {
            a.search_cursor as int
        }),
        b1.search_query == a.search_query && b2.search_query == a.search_query,
        b1.filtered_items == a.filtered_items && b2.filtered_items == a.filtered_items,
        b1.cursor_pos == a.cursor_pos && b2.cursor_pos == a.cursor_pos,
        b1.scroll_offset == a.scroll_offset && b2.scroll_offset == a.scroll_offset,
{
}

/// With search on, typing a character puts it in the query right at the search
/// cursor (at the end when the cursor is past it), moves the search cursor past
/// it, filters the items by the new query and brings the list back to its top.
pub proof fn lemma_typing(a: State, c: char, b: State, act: InputAction)
    requires
        a.search,
        a.search_cursor <= a.search_query@.len(),
        event_outcome(a, InputEvent::Key(KeyPress { code: Key::Char(c), ctrl: false }), b, act),
    ensures
        ({
            let q = a.search_query@;
            let k = a.search_cursor as int;
            &&& act == InputAction::Continue
            &&& b.search_query@.len() == q.len() + 1
            &&& b.search_query@[k] == c
            &&& b.search_query@.take(k) == q.take(k)
            &&& b.search_query@.skip(k + 1) == q.skip(k)
            &&& b.search_cursor == k + 1
            &&& b.filtered_items@ == filter_result(a.items_key@, b.search_query@)
            &&& b.cursor_pos == 0
            &&& b.scroll_offset == 0
            &&& b.items_key == a.items_key
        }),
{
    let q = a.search_query@;
    let k = a.search_cursor as int;
    let t = b.search_query@;
    assert(t == q.take(k) + seq![c] + q.skip(k));
    assert(t.take(k) =~= q.take(k));
    assert(t.skip(k + 1) =~= q.skip(k));
}

/// With search on, Backspace after the first character removes the character
/// just before the search cursor, moves the search cursor back by one, filters the
/// items by the new query and brings the list cursor back within the list; at the
/// start of the query it changes nothing.
pub proof fn lemma_backspace(a: State, b: State, act: InputAction)
    requires
        a.search,
        a.search_cursor <= a.search_query@.len(),
        event_outcome(a, InputEvent::Key(KeyPress { code: Key::Backspace, ctrl: false }), b, act),
    ensures
        act == InputAction::Continue,
        a.search_cursor == 0 ==> b == a,
        a.search_cursor > 0 ==> ({
            let q = a.search_query@;
            let k = a.search_cursor as int;
            &&& b.search_query@.len() == q.len() - 1
            &&& b.search_query@.take(k - 1) == q.take(k - 1)
            &&& b.search_query@.skip(k - 1) == q.skip(k)
            &&& b.search_cursor == k - 1
            &&& b.filtered_items@ == filter_result(a.items_key@, b.search_query@)
            &&& in_bounds(b.cursor_pos as int, b.filtered_items@.len() as int)
            &&& b.scroll_offset <= b.cursor_pos
            &&& b.cursor_pos <= a.cursor_pos
        }),
{
    if a.search_cursor > 0 {
        let q = a.search_query@;
        let k = a.search_cursor as int;
        let t = b.search_query@;
        assert(t == q.take(k - 1) + q.skip(k));
        assert(t.take(k - 1) =~= q.take(k - 1));
        assert(t.skip(k - 1) =~= q.skip(k));
    }
}

/// Bringing the cursor back within a list takes the smaller of the cursor and the
/// last index, and the smaller of the scroll offset and that new cursor.
pub proof fn lemma_clamp(cursor: int, scroll: int, len: int)
    requires
        0 <= cursor,
        0 <= scroll,
        0 <= len,
    ensures
        ({
            let (c, o) = clamp_position(cursor, scroll, len);
            &&& c <= cursor && in_bounds(c, len)
            &&& (c == cursor || c == len - 1 || (len == 0 && c == 0))
            &&& o <= scroll && o <= c
            &&& (o == scroll || o == c)
        }),
{
}

/// `ListState::move_up` and `ListState::move_down` move the cursor and the scroll
/// offset exactly as `scroll::move_up` and `scroll::move_down` do on a `State`
/// with the same cursor, offset, viewport height and filtered-list length.
pub proof fn lemma_list_state_moves_like_state(l0: ListState, l1: ListState, s0: State, s1: State)
    requires
        l0.cursor_pos == s0.cursor_pos,
        l0.scroll_offset == s0.scroll_offset,
        l0.max_visible == s0.max_visible,
        l0.filtered_items@.len() == s0.filtered_items@.len(),
    ensures
        ((l1.cursor_pos as int, l1.scroll_offset as int) == up_position(
            l0.cursor_pos as int,
            l0.scroll_offset as int,
        ) && at_position(s1, up_position(s0.cursor_pos as int, s0.scroll_offset as int)))
            ==> l1.cursor_pos == s1.cursor_pos && l1.scroll_offset == s1.scroll_offset,
        ((l1.cursor_pos as int, l1.scroll_offset as int) == down_position(
            l0.cursor_pos as int,
            l0.scroll_offset as int,
            l0.filtered_items@.len() as int,
            l0.max_visible as int,
        ) && at_position(
            s1,
            down_position(
                s0.cursor_pos as int,
                s0.scroll_offset as int,
                s0.filtered_items@.len() as int,
                s0.max_visible as int,
            ),
        )) ==> l1.cursor_pos == s1.cursor_pos && l1.scroll_offset == s1.scroll_offset,
{
}

/// The rows of the list: only the first row (when entries are hidden above) and
/// the last row (when entries are hidden below) show "..."; every other row shows
/// the entry of the filtered list at the scroll offset plus the row, highlighted
/// exactly when the cursor is on it, or nothing past the end of the list.
pub proof fn lemma_rows(s: State, row: int)
    requires
        0 <= row < s.max_visible,
    ensures
        (row_at(s, row) == Row::More) <==> ((row == 0 && s.scroll_offset > 0) || (row
            == s.max_visible - 1 && s.scroll_offset + s.max_visible
            < s.filtered_items@.len())),
        row_at(s, row) != Row::More ==> {
            let i = s.scroll_offset + row;
            if i < s.filtered_items@.len() {
                row_at(s, row) == (Row::Entry {
                    real_idx: s.filtered_items@[i],
                    selected: i == s.cursor_pos,
                })
            } else {
                row_at(s, row) == Row::Blank
            }
        },
{
}

/// A well placed cursor always has its entry drawn, highlighted, on its row.
pub proof fn lemma_cursor_row_drawn(s: State)
    requires
        s.cursor_pos < s.filtered_items@.len(),
        well_placed(
            s.cursor_pos as int,
            s.scroll_offset as int,
            s.filtered_items@.len() as int,
            s.max_visible as int,
        ),
    ensures
        row_at(s, s.cursor_pos - s.scroll_offset) == (Row::Entry {
            real_idx: s.filtered_items@[s.cursor_pos as int],
            selected: true,
        }),
{
}

/// No event takes the list cursor out of the filtered list, nor the search cursor
/// past the end of the query.
pub proof fn lemma_event_keeps_cursors(a: State, ev: InputEvent, b: State, act: InputAction)
    requires
        in_bounds(a.cursor_pos as int, a.filtered_items@.len() as int),
        a.search_cursor <= a.search_query@.len(),
        event_outcome(a, ev, b, act),
    ensures
        in_bounds(b.cursor_pos as int, b.filtered_items@.len() as int),
        b.search_cursor <= b.search_query@.len(),
{
    let q = a.search_query@;
    let sc = a.search_cursor as int;
    if let InputEvent::Key(k) = ev {
        if word_start_at(q, sc, b.search_cursor as int) {
            assert((q.take(b.search_cursor as int) + q.skip(sc)).len() >= b.search_cursor);
        }
    }
}

// ---------------------------------------------------------------------------
// Editing the query
// ---------------------------------------------------------------------------

/// Deleting left of the position just after an inserted character removes it again:
/// `char_delete_left(s, pos + 1)` right after `char_insert(s, pos, c)`, with `pos`
/// within the string, gives back the string (and, by its contract, returns `pos`).
pub proof fn lemma_insert_then_delete(s: Seq<char>, pos: int, c: char)
    requires
        0 <= pos <= s.len(),
    ensures
        deleted_left(inserted(s, pos, c), pos + 1) == s,
{
    let t = inserted(s, pos, c);
    assert(t.len() == s.len() + 1);
    assert(t.take(pos) =~= s.take(pos));
    assert(t.skip(pos + 1) =~= s.skip(pos));
    assert(s.take(pos) + s.skip(pos) =~= s);
}

/// Inserting keeps the characters before the position, puts `c` there (at the end
/// when the position is past it), and shifts the rest by one.
pub proof fn lemma_inserted_shape(s: Seq<char>, pos: int, c: char)
    requires
        0 <= pos,
    ensures
        ({
            let k = if pos < s.len() {
                pos
            } else {
                s.len() as int
            };
            let t = inserted(s, pos, c);
            &&& t.len() == s.len() + 1
            &&& t[k] == c
            &&& forall|i: int| 0 <= i < k ==> t[i] == s[i]
            &&& forall|i: int| k <= i < s.len() ==> t[i + 1] == s[i]
        }),
{
}

/// Deleting left of a position inside the string (past its first character)
/// removes exactly the character before it; elsewhere nothing changes.
pub proof fn lemma_deleted_left_shape(s: Seq<char>, pos: int)
    ensures
        1 <= pos <= s.len() ==> ({
            let t = deleted_left(s, pos);
            &&& t.len() == s.len() - 1
            &&& forall|i: int| 0 <= i < pos - 1 ==> t[i] == s[i]
            &&& forall|i: int| pos - 1 <= i < t.len() ==> t[i] == s[i + 1]
        }),
        (pos <= 0 || pos > s.len()) ==> deleted_left(s, pos) == s,
{
    if pos <= 0 {
        assert(s.take(0) + s.skip(0) =~= s);
    } else if pos > s.len() {
        assert(s.take(s.len() as int) + s.skip(s.len() as int) =~= s);
    }
}

/// Where the word left of a position starts is determined by the text and the position.
pub proof fn lemma_word_start_unique(s: Seq<char>, pos: int, r1: int, r2: int)
    requires
        word_start_at(s, pos, r1),
        word_start_at(s, pos, r2),
    ensures
        r1 == r2,
{
    let m1 = choose|m: int| word_bounds(s, pos, m, r1);
    let m2 = choose|m: int| word_bounds(s, pos, m, r2);
    if m1 < m2 {
        assert(s[m2 - 1] == ' ');
    } else if m2 < m1 {
        assert(s[m1 - 1] == ' ');
    }
    assert(m1 == m2);
    if r1 < r2 {
        assert(s[r2 - 1] != ' ');
    } else if r2 < r1 {
        assert(s[r1 - 1] != ' ');
    }
}

// ---------------------------------------------------------------------------
// Fuzzy matching and filtering
// ---------------------------------------------------------------------------

/// The empty pattern matches every text, and every text matches itself.
pub proof fn lemma_match_trivial(t: Seq<char>)
    ensures
        is_subsequence(Seq::<char>::empty(), t),
        is_subsequence(t, t),
{
    lemma_empty_subsequence(t);
    let f = Seq::new(t.len(), |i: int| i);
    assert(embeds(t, t, f));
}

/// Typing one more character in the pattern never brings back a text that no
/// longer matched: a text that matches the longer pattern matches the shorter one.
pub proof fn lemma_match_narrows(p: Seq<char>, c: char, t: Seq<char>)
    requires
        is_subsequence(p.push(c), t),
    ensures
        is_subsequence(p, t),
{
    let g = choose|g: Seq<int>| embeds(p.push(c), t, g);
    let f = g.drop_last();
    assert forall|i: int| 0 <= i < f.len() implies 0 <= #[trigger] f[i] && f[i] < t.len() && t[f[i]]
        == p[i] by {
        assert(g[i] == f[i]);
        assert(p.push(c)[i] == p[i]);
    }
    assert forall|i: int, j: int| 0 <= i < j < f.len() implies #[trigger] f[i] < #[trigger] f[j] by {
        assert(g[i] == f[i] && g[j] == f[j]);
    }
    assert(embeds(p, t, f));
}

/// The first `n` keys filtered: increasing indices below `n`, holding exactly the
/// keys that match.
pub proof fn lemma_matching_upto(keys: Seq<String>, q: Seq<char>, n: int)
    requires
        0 <= n <= keys.len() <= usize::MAX,
    ensures
        forall|i: int|
            0 <= i < matching_upto(keys, q, n).len() ==> #[trigger] matching_upto(keys, q, n)[i]
                < n,
        forall|i: int, j: int|
            0 <= i < j < matching_upto(keys, q, n).len() ==> #[trigger] matching_upto(keys, q, n)[i]
                < #[trigger] matching_upto(keys, q, n)[j],
        forall|k: int|
            0 <= k < n ==> (matching_upto(keys, q, n).contains(k as usize) <==> is_subsequence(
                q,
                lowercase(#[trigger] keys[k]@),
            )),
    decreases n,
{
    if n > 0 {
        lemma_matching_upto(keys, q, n - 1);
        let prev = matching_upto(keys, q, n - 1);
        let cur = matching_upto(keys, q, n);
        let last = (n - 1) as usize;
        if is_subsequence(q, lowercase(keys[n - 1]@)) {
            assert(cur == prev.push(last));
            assert forall|i: int| 0 <= i < cur.len() implies #[trigger] cur[i] < n by {
                if i < prev.len() {
                    assert(cur[i] == prev[i]);
                }
            }
            assert forall|i: int, j: int| 0 <= i < j < cur.len() implies #[trigger] cur[i]
                < #[trigger] cur[j] by {
                assert(cur[i] == prev[i]);
                if j < prev.len() {
                    assert(cur[j] == prev[j]);
                }
            }
            assert forall|k: int| 0 <= k < n implies (cur.contains(k as usize) <==> is_subsequence(
                q,
                lowercase(#[trigger] keys[k]@),
            )) by {
                if k < n - 1 {
                    if cur.contains(k as usize) {
                        let i = choose|i: int| 0 <= i < cur.len() && cur[i] == k as usize;
                        if i < prev.len() {
                            assert(prev[i] == cur[i]);
                        }
                    }
                    if prev.contains(k as usize) {
                        let i = choose|i: int| 0 <= i < prev.len() && prev[i] == k as usize;
                        assert(cur[i] == prev[i]);
                    }
                } else {
                    assert(cur[prev.len() as int] == last);
                }
            }
        } else {
            assert(cur == prev);
            assert forall|k: int| 0 <= k < n implies (cur.contains(k as usize) <==> is_subsequence(
                q,
                lowercase(#[trigger] keys[k]@),
            )) by {
                if k == n - 1 && cur.contains(k as usize) {
                    let i = choose|i: int| 0 <= i < cur.len() && cur[i] == k as usize;
                    assert(prev[i] < n - 1);
                }
            }
        }
    }
}

/// The filtered list holds, in increasing order, exactly the indices of the keys
/// that match the query, both taken in lowercase.
pub proof fn lemma_filter_result(keys: Seq<String>, query: Seq<char>)
    requires
        keys.len() <= usize::MAX,
    ensures
        forall|i: int|
            0 <= i < filter_result(keys, query).len() ==> #[trigger] filter_result(keys, query)[i]
                < keys.len(),
        forall|i: int, j: int|
            0 <= i < j < filter_result(keys, query).len() ==> #[trigger] filter_result(
                keys,
                query,
            )[i] < #[trigger] filter_result(keys, query)[j],
        forall|k: int|
            0 <= k < keys.len() ==> (filter_result(keys, query).contains(k as usize)
                <==> is_subsequence(lowercase(query), lowercase(#[trigger] keys[k]@))),
{
    lemma_matching_upto(keys, lowercase(query), keys.len() as int);
}

/// Filtering the first `n` keys by a pattern with one more character keeps a
/// subsequence of what the shorter pattern keeps.
pub proof fn lemma_matching_narrows(keys: Seq<String>, p: Seq<char>, x: char, n: int)
    requires
        0 <= n <= keys.len(),
    ensures
        is_subsequence(matching_upto(keys, p.push(x), n), matching_upto(keys, p, n)),
    decreases n,
{
    let a = matching_upto(keys, p.push(x), n);
    let b = matching_upto(keys, p, n);
    if n <= 0 {
        assert(embeds(a, b, Seq::<int>::empty()));
    } else {
        lemma_matching_narrows(keys, p, x, n - 1);
        let a0 = matching_upto(keys, p.push(x), n - 1);
        let b0 = matching_upto(keys, p, n - 1);
        let f = choose|f: Seq<int>| embeds(a0, b0, f);
        assert(embeds(a0, b0, f));
        let t = lowercase(keys[n - 1]@);
        if is_subsequence(p.push(x), t) {
            lemma_match_narrows(p, x, t);
            let g = f.push(b0.len() as int);
            assert forall|i: int| 0 <= i < g.len() implies 0 <= #[trigger] g[i] && g[i] < b.len()
                && b[g[i]] == a[i] by {
                if i < f.len() {
                    assert(g[i] == f[i]);
                }
            }
            assert forall|i: int, j: int| 0 <= i < j < g.len() implies #[trigger] g[i]
                < #[trigger] g[j] by {
                assert(g[i] == f[i]);
                if j < f.len() {
                    assert(g[j] == f[j]);
                }
            }
            assert(embeds(a, b, g));
        } else {
            assert(a == a0);
            assert forall|i: int| 0 <= i < f.len() implies 0 <= #[trigger] f[i] && f[i] < b.len()
                && b[f[i]] == a[i] by {
                assert(b0[f[i]] == a0[i]);
            }
            assert(embeds(a, b, f));
        }
    }
}

/// A search query whose lowercase form has one more character at the end lists a
/// subsequence of the items that the shorter query lists.
pub proof fn lemma_filter_narrows(keys: Seq<String>, q1: Seq<char>, q2: Seq<char>, x: char)
    requires
        lowercase(q2) == lowercase(q1).push(x),
    ensures
        is_subsequence(filter_result(keys, q2), filter_result(keys, q1)),
{
    lemma_matching_narrows(keys, lowercase(q1), x, keys.len() as int);
}

/// Typing one more character into an ASCII query never brings back an item that
/// was hidden: the filtered list for the longer query (filtered as `update_filter`
/// does for ASCII queries) is a subsequence of the one for the shorter query.
pub proof fn lemma_ascii_typing_narrows(keys: Seq<String>, q: Seq<char>, c: char)
    requires
        is_ascii_chars(q.push(c)),
    ensures
        is_subsequence(
            matching_upto(keys, ascii_lower_seq(q.push(c)), keys.len() as int),
            matching_upto(keys, ascii_lower_seq(q), keys.len() as int),
        ),
{
    assert(ascii_lower_seq(q.push(c)) =~= ascii_lower_seq(q).push(ascii_lower(c)));
    lemma_matching_narrows(keys, ascii_lower_seq(q), ascii_lower(c), keys.len() as int);
}

} // verus!
