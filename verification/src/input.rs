//! Turns a keyboard or mouse event into a change of the state and a logical action.
use vstd::prelude::*;
use vstd::utf8::encode_scalar;
use crate::common::State;
use crate::scroll::{
    move_up, move_down, clamp_list_cursor, up_position, down_position, clamp_position,
    down_fits, same_but_position, at_position,
};
use crate::search::{
    char_insert, char_delete_left, delete_word_left, update_filter, filter_result,
    word_start_at, inserted, deleted_left,
};
use crate::text::{byte_len, char_count, utf8_width};

verus! {

/// What the event loop does after an event.
#[derive(PartialEq, Eq, Debug, Structural)]
pub enum InputAction {
    /// Nothing to do but wait for the next event.
    Continue,
    Quit,
    Select,
}

/// The kinds of mouse event that the picker tells apart.
#[derive(PartialEq, Eq, Debug, Clone, Copy, Structural)]
pub enum MouseKind {
    ScrollUp,
    ScrollDown,
    /// The left button pressed.
    LeftDown,
    Other,
}

/// The keys that the picker tells apart.
#[derive(PartialEq, Eq, Debug, Clone, Copy, Structural)]
pub enum Key {
    Up,
    Down,
    Left,
    Right,
    Enter,
    Esc,
    Backspace,
    Char(char),
    Other,
}

/// A key press: the key, and whether Control was held.
#[derive(PartialEq, Eq, Debug, Clone, Copy, Structural)]
pub struct KeyPress {
    pub code: Key,
    pub ctrl: bool,
}

/// A terminal event, as far as the picker reads it.
#[derive(PartialEq, Eq, Debug, Clone, Copy, Structural)]
pub enum InputEvent {
    Mouse(MouseKind),
    Key(KeyPress),
    Other,
}

/// Ctrl+C.
pub open spec fn is_interrupt(k: KeyPress) -> bool {
    k.ctrl && k.code == Key::Char('c')
}

/// Ctrl+Backspace, as terminals send it (Backspace, ^H or ^W with Control), while
/// search is on.
pub open spec fn is_word_delete(search: bool, k: KeyPress) -> bool {
    &&& search
    &&& k.ctrl
    &&& (k.code == Key::Backspace || k.code == Key::Char('h') || k.code == Key::Char('w'))
}

/// `b` is `a` with at most the search query, the search cursor, the filtered list,
/// the cursor and the scroll offset changed.
pub open spec fn same_but_search(a: State, b: State) -> bool {
    &&& b.items_key == a.items_key
    &&& b.item_values == a.item_values
    &&& b.comment == a.comment
    &&& b.search == a.search
    &&& b.max_lines == a.max_lines
    &&& b.max_visible == a.max_visible
    &&& b.comment_lines == a.comment_lines
    &&& b.search_lines == a.search_lines
    &&& b.total_lines == a.total_lines
}

/// `b` is `a` with the query `query`, the search cursor `cursor` and the filtered
/// list that this query gives.
pub open spec fn refiltered(a: State, b: State, query: Seq<char>, cursor: int) -> bool {
    &&& same_but_search(a, b)
    &&& b.search_query@ == query
    &&& b.search_cursor == cursor
    &&& b.filtered_items@ == filter_result(a.items_key@, query)
}

/// `b` is `a` with the list cursor moved as `p` says.
pub open spec fn moved(a: State, b: State, p: (int, int)) -> bool {
    same_but_position(a, b) && at_position(b, p)
}

/// `b` is `a` with only the search cursor set to `cursor`.
pub open spec fn search_cursor_set(a: State, b: State, cursor: int) -> bool {
    &&& same_but_search(a, b)
    &&& b.search_query == a.search_query
    &&& b.filtered_items == a.filtered_items
    &&& b.cursor_pos == a.cursor_pos
    &&& b.scroll_offset == a.scroll_offset
    &&& b.search_cursor == cursor
}

/// The state `b` and the action `act` that the key press `k` leads to from `a`.
pub open spec fn key_outcome(a: State, k: KeyPress, b: State, act: InputAction) -> bool {
    let q = a.search_query@;
    let sc = a.search_cursor as int;
    if is_interrupt(k) {
        act == InputAction::Quit && b == a
    } else if is_word_delete(a.search, k) {
        &&& act == InputAction::Continue
        &&& word_start_at(q, sc, b.search_cursor as int)
        &&& refiltered(a, b, q.take(b.search_cursor as int) + q.skip(sc), b.search_cursor as int)
        &&& at_position(
            b,
            clamp_position(
                a.cursor_pos as int,
                a.scroll_offset as int,
                b.filtered_items@.len() as int,
            ),
        )
    } else {
        match k.code {
            Key::Up => act == InputAction::Continue && moved(
                a,
                b,
                up_position(a.cursor_pos as int, a.scroll_offset as int),
            ),
            Key::Down => act == InputAction::Continue && moved(
                a,
                b,
                down_position(
                    a.cursor_pos as int,
                    a.scroll_offset as int,
                    a.filtered_items@.len() as int,
                    a.max_visible as int,
                ),
            ),
            Key::Left if a.search => act == InputAction::Continue && search_cursor_set(
                a,
                b,
                if sc > 0 {
                    sc - 1
                } else {
                    sc
                },
            ),
            Key::Right if a.search => act == InputAction::Continue && search_cursor_set(
                a,
                b,
                if sc < q.len() {
                    sc + 1
                } else {
                    sc
                },
            ),
            Key::Enter => act == InputAction::Select && b == a,
            Key::Esc => act == InputAction::Quit && b == a,
            Key::Backspace if a.search => act == InputAction::Continue && if sc > 0 {
                &&& refiltered(a, b, deleted_left(q, sc), sc - 1)
                &&& at_position(
                    b,
                    clamp_position(
                        a.cursor_pos as int,
                        a.scroll_offset as int,
                        b.filtered_items@.len() as int,
                    ),
                )
            } else {
                b == a
            },
            Key::Char(c) if a.search => {
                &&& act == InputAction::Continue
                &&& refiltered(a, b, inserted(q, sc, c), sc + 1)
                &&& b.cursor_pos == 0
                &&& b.scroll_offset == 0
            },
            _ => act == InputAction::Continue && b == a,
        }
    }
}

/// The state `b` and the action `act` that the event `ev` leads to from `a`.
pub open spec fn event_outcome(a: State, ev: InputEvent, b: State, act: InputAction) -> bool {
    match ev {
        InputEvent::Mouse(MouseKind::ScrollUp) => act == InputAction::Continue && moved(
            a,
            b,
            up_position(a.cursor_pos as int, a.scroll_offset as int),
        ),
        InputEvent::Mouse(MouseKind::ScrollDown) => act == InputAction::Continue && moved(
            a,
            b,
            down_position(
                a.cursor_pos as int,
                a.scroll_offset as int,
                a.filtered_items@.len() as int,
                a.max_visible as int,
            ),
        ),
        InputEvent::Mouse(MouseKind::LeftDown) => act == InputAction::Select && b == a,
        InputEvent::Key(k) => key_outcome(a, k, b, act),
        _ => act == InputAction::Continue && b == a,
    }
}

/// The event can be handled without a panic: the sums it forms fit, the search
/// cursor lies within the query where a word is deleted, and the query can grow.
pub open spec fn event_fits(a: State, ev: InputEvent) -> bool {
    let down_ok = down_fits(
        a.cursor_pos as int,
        a.scroll_offset as int,
        a.filtered_items@.len() as int,
        a.max_visible as int,
    );
    match ev {
        InputEvent::Mouse(MouseKind::ScrollDown) => down_ok,
        InputEvent::Key(k) => if is_interrupt(k) {
            true
        } else if is_word_delete(a.search, k) {
            a.search_cursor <= a.search_query@.len()
        } else {
            match k.code {
                Key::Down => down_ok,
                Key::Char(c) => a.search ==> a.search_cursor < usize::MAX && byte_len(
                    a.search_query@,
                ) + encode_scalar(c as u32).len() <= isize::MAX,
                _ => true,
            }
        },
        _ => true,
    }
}

/// Whether `handle_event` can take `event` in `state`: it tells the inputs on
/// which handling would overflow or index past the query apart from the others.
pub fn can_handle(state: &State, event: InputEvent) -> (r: bool)
    ensures
        r == event_fits(*state, event),
{
    let down_ok = state.cursor_pos >= state.filtered_items.len().saturating_sub(1) || (
    state.scroll_offset <= usize::MAX - state.max_visible && state.scroll_offset
        + state.max_visible >= 1);
    match event {
        InputEvent::Mouse(MouseKind::ScrollDown) => down_ok,
        InputEvent::Key(key) => {
            if key.ctrl && key.code == Key::Char('c') {
                true
            } else if state.search && key.ctrl && (key.code == Key::Backspace || key.code
                == Key::Char('h') || key.code == Key::Char('w')) {
                state.search_cursor <= char_count(state.search_query.as_str())
            } else {
                match key.code {
                    Key::Down => down_ok,
                    Key::Char(c) => {
                        let bytes = state.search_query.as_str().as_bytes().len();
                        !state.search || (state.search_cursor < usize::MAX && bytes <= (
                        isize::MAX as usize) - utf8_width(c))
                    },
                    _ => true,
                }
            }
        },
        _ => true,
    }
}

/// Applies a key press to the state.
fn handle_key(state: &mut State, key: KeyPress) -> (act: InputAction)
    requires
        event_fits(*old(state), InputEvent::Key(key)),
    ensures
        key_outcome(*old(state), key, *final(state), act),
{
    // Ctrl+C cancels.
    if key.ctrl && key.code == Key::Char('c') {
        return InputAction::Quit;
    }
    // Ctrl+Backspace deletes the word left of the cursor.
    let is_ctrl_bs = state.search && key.ctrl && match key.code {
        Key::Backspace => true,
        Key::Char(c) => c == 'h' || c == 'w',
        _ => false,
    };
    if is_ctrl_bs {
        state.search_cursor = delete_word_left(&mut state.search_query, state.search_cursor);
        update_filter(state);
        clamp_list_cursor(state);
        return InputAction::Continue;
    }
    match key.code {
        // List navigation
        Key::Up => {
            move_up(state);
            InputAction::Continue
        },
        Key::Down => {
            move_down(state);
            InputAction::Continue
        },
        // Moving the cursor in the search bar
        Key::Left => {
            if state.search && state.search_cursor > 0 {
                state.search_cursor -= 1;
            }
            InputAction::Continue
        },
        Key::Right => {
            if state.search {
                let len = char_count(state.search_query.as_str());
                if state.search_cursor < len {
                    state.search_cursor += 1;
                }
            }
            InputAction::Continue
        },
        Key::Enter => InputAction::Select,
        Key::Esc => InputAction::Quit,
        Key::Backspace => {
            // Deletes the char left of the cursor.
            if state.search && state.search_cursor > 0 {
                state.search_cursor = char_delete_left(
                    &mut state.search_query,
                    state.search_cursor,
                );
                update_filter(state);
                clamp_list_cursor(state);
            }
            InputAction::Continue
        },
        Key::Char(c) => {
            if state.search {
                // Typing inserts at the cursor position.
                char_insert(&mut state.search_query, state.search_cursor, c);
                state.search_cursor += 1;
                update_filter(state);
                state.cursor_pos = 0;
                state.scroll_offset = 0;
            }
            InputAction::Continue
        },
        _ => InputAction::Continue,
    }
}

/// Turns a keyboard or mouse event into a logical action, updating the state.
pub fn handle_event(state: &mut State, event: InputEvent) -> (act: InputAction)
    requires
        event_fits(*old(state), event),
    ensures
        event_outcome(*old(state), event, *final(state), act),
{
    match event {
        InputEvent::Mouse(kind) => match kind {
            MouseKind::ScrollUp => {
                // Same as the Up key.
                move_up(state);
                InputAction::Continue
            },
            MouseKind::ScrollDown => {
                // Same as the Down key.
                move_down(state);
                InputAction::Continue
            },
            MouseKind::LeftDown => InputAction::Select,
            _ => InputAction::Continue,
        },
        InputEvent::Key(key) => handle_key(state, key),
        _ => InputAction::Continue,
    }
}

} // verus!
