use crz_rough::common::State;
use crz_rough::input::{can_handle, handle_event, InputAction, InputEvent, Key, KeyPress, MouseKind};

fn state_of(keys: &[&str], max_visible: usize) -> State {
    State {
        items_key: keys.iter().map(|k| k.to_string()).collect(),
        item_values: None,
        search_query: String::new(),
        filtered_items: (0..keys.len()).collect(),
        cursor_pos: 0,
        comment: None,
        search: true,
        scroll_offset: 0,
        search_cursor: 0,
        max_lines: max_visible,
        max_visible,
        comment_lines: 0,
        search_lines: 1,
        total_lines: max_visible + 1,
    }
}

fn key(code: Key) -> InputEvent {
    InputEvent::Key(KeyPress { code, ctrl: false })
}

fn ctrl(code: Key) -> InputEvent {
    InputEvent::Key(KeyPress { code, ctrl: true })
}

fn fruits() -> State {
    state_of(&["apple", "banana", "cherry", "grape", "melon"], 3)
}

#[test]
fn ctrl_c_quits_without_change() {
    let mut s = fruits();
    s.cursor_pos = 2;
    assert_eq!(handle_event(&mut s, ctrl(Key::Char('c'))), InputAction::Quit);
    assert_eq!(s.cursor_pos, 2);
    assert_eq!(s.search_query, "");
}

#[test]
fn enter_and_click_select_esc_quits() {
    let mut s = fruits();
    assert_eq!(handle_event(&mut s, key(Key::Enter)), InputAction::Select);
    assert_eq!(handle_event(&mut s, InputEvent::Mouse(MouseKind::LeftDown)), InputAction::Select);
    assert_eq!(handle_event(&mut s, key(Key::Esc)), InputAction::Quit);
    assert_eq!(handle_event(&mut s, InputEvent::Mouse(MouseKind::Other)), InputAction::Continue);
    assert_eq!(handle_event(&mut s, InputEvent::Other), InputAction::Continue);
    assert_eq!(handle_event(&mut s, key(Key::Other)), InputAction::Continue);
}

#[test]
fn arrows_and_wheel_move_the_cursor() {
    let mut s = fruits();
    assert_eq!(handle_event(&mut s, key(Key::Down)), InputAction::Continue);
    assert_eq!((s.cursor_pos, s.scroll_offset), (1, 0));
    handle_event(&mut s, InputEvent::Mouse(MouseKind::ScrollDown));
    assert_eq!((s.cursor_pos, s.scroll_offset), (2, 1));
    handle_event(&mut s, key(Key::Up));
    assert_eq!((s.cursor_pos, s.scroll_offset), (1, 0));
    handle_event(&mut s, InputEvent::Mouse(MouseKind::ScrollUp));
    assert_eq!((s.cursor_pos, s.scroll_offset), (0, 0));
}

#[test]
fn typing_filters_and_resets_cursor() {
    let mut s = fruits();
    s.cursor_pos = 3;
    s.scroll_offset = 2;
    assert_eq!(handle_event(&mut s, key(Key::Char('a'))), InputAction::Continue);
    assert_eq!(s.search_query, "a");
    assert_eq!(s.search_cursor, 1);
    assert_eq!(s.filtered_items, vec![0, 1, 3]);
    assert_eq!((s.cursor_pos, s.scroll_offset), (0, 0));
    handle_event(&mut s, key(Key::Char('N')));
    assert_eq!(s.search_query, "aN");
    assert_eq!(s.filtered_items, vec![1]);
}

#[test]
fn cursor_keys_move_within_query() {
    let mut s = fruits();
    for c in "ae".chars() {
        handle_event(&mut s, key(Key::Char(c)));
    }
    assert_eq!(s.search_cursor, 2);
    handle_event(&mut s, key(Key::Right));
    assert_eq!(s.search_cursor, 2);
    handle_event(&mut s, key(Key::Left));
    handle_event(&mut s, key(Key::Left));
    handle_event(&mut s, key(Key::Left));
    assert_eq!(s.search_cursor, 0);
    handle_event(&mut s, key(Key::Char('p')));
    assert_eq!(s.search_query, "pae");
    assert_eq!(s.search_cursor, 1);
    handle_event(&mut s, key(Key::Right));
    assert_eq!(s.search_cursor, 2);
}

#[test]
fn backspace_deletes_and_refilters() {
    let mut s = fruits();
    for c in "mx".chars() {
        handle_event(&mut s, key(Key::Char(c)));
    }
    assert_eq!(s.filtered_items, Vec::<usize>::new());
    assert_eq!(handle_event(&mut s, key(Key::Backspace)), InputAction::Continue);
    assert_eq!(s.search_query, "m");
    assert_eq!(s.search_cursor, 1);
    assert_eq!(s.filtered_items, vec![4]);
    handle_event(&mut s, key(Key::Left));
    handle_event(&mut s, key(Key::Backspace));
    assert_eq!(s.search_query, "m");
    assert_eq!(s.search_cursor, 0);
}

#[test]
fn backspace_clamps_list_cursor() {
    let mut s = state_of(&["aa", "ab", "b", "c", "ad"], 3);
    s.search_query = String::from("ab");
    s.search_cursor = 2;
    s.filtered_items = vec![1];
    s.cursor_pos = 0;
    handle_event(&mut s, key(Key::Backspace));
    assert_eq!(s.search_query, "a");
    assert_eq!(s.filtered_items, vec![0, 1, 4]);
    assert_eq!((s.cursor_pos, s.scroll_offset), (0, 0));

    let mut t = state_of(&["aa", "ab", "b", "c", "ad"], 3);
    t.search_query = String::from("x");
    t.search_cursor = 1;
    t.cursor_pos = 4;
    t.scroll_offset = 2;
    t.filtered_items = vec![0, 1, 2, 3, 4];
    handle_event(&mut t, key(Key::Backspace));
    assert_eq!(t.filtered_items, vec![0, 1, 2, 3, 4]);
    assert_eq!((t.cursor_pos, t.scroll_offset), (4, 2));
}

#[test]
fn ctrl_word_delete_variants() {
    for code in [Key::Backspace, Key::Char('h'), Key::Char('w')] {
        let mut s = fruits();
        for c in "ap me".chars() {
            handle_event(&mut s, key(Key::Char(c)));
        }
        s.cursor_pos = 0;
        assert_eq!(handle_event(&mut s, ctrl(code)), InputAction::Continue);
        assert_eq!(s.search_query, "ap ");
        assert_eq!(s.search_cursor, 3);
        assert_eq!(s.filtered_items, Vec::<usize>::new());
    }
}

#[test]
fn search_off_ignores_text_keys() {
    let mut s = fruits();
    s.search = false;
    s.search_query = String::from("ap");
    s.search_cursor = 1;
    handle_event(&mut s, key(Key::Char('z')));
    handle_event(&mut s, key(Key::Backspace));
    handle_event(&mut s, key(Key::Left));
    handle_event(&mut s, key(Key::Right));
    handle_event(&mut s, ctrl(Key::Char('w')));
    assert_eq!(s.search_query, "ap");
    assert_eq!(s.search_cursor, 1);
    assert_eq!(s.filtered_items, vec![0, 1, 2, 3, 4]);
}

#[test]
fn ctrl_with_other_char_types_it() {
    let mut s = fruits();
    handle_event(&mut s, ctrl(Key::Char('a')));
    assert_eq!(s.search_query, "a");
}

#[test]
fn cursors_stay_in_bounds_over_a_session() {
    let mut s = fruits();
    let events = [
        key(Key::Down), key(Key::Down), key(Key::Down), key(Key::Char('e')), key(Key::Down),
        key(Key::Down), key(Key::Backspace), key(Key::Left), key(Key::Backspace),
        key(Key::Char('r')), key(Key::Right), key(Key::Right), ctrl(Key::Backspace), key(Key::Up),
    ];
    for ev in events {
        handle_event(&mut s, ev);
        let last = s.filtered_items.len().saturating_sub(1);
        assert!(s.cursor_pos <= last);
        assert!(s.search_cursor <= s.search_query.chars().count());
    }
}

#[test]
fn can_handle_tells_panicking_inputs_apart() {
    let mut s = fruits();
    assert!(can_handle(&s, key(Key::Down)));
    assert!(can_handle(&s, key(Key::Char('x'))));
    s.max_visible = 0;
    assert!(!can_handle(&s, key(Key::Down)));
    assert!(!can_handle(&s, InputEvent::Mouse(MouseKind::ScrollDown)));
    s.cursor_pos = 4;
    assert!(can_handle(&s, key(Key::Down)));
    s.search_cursor = 3;
    assert!(!can_handle(&s, ctrl(Key::Char('w'))));
    assert!(can_handle(&s, ctrl(Key::Char('c'))));
    s.search_cursor = usize::MAX;
    assert!(!can_handle(&s, key(Key::Char('x'))));
    s.search = false;
    assert!(can_handle(&s, key(Key::Char('x'))));
}

#[test]
fn arrows_do_what_moves_do_whatever_modifiers() {
    use_moves(true, true);
    use_moves(false, false);
}

fn use_moves(with_ctrl: bool, search: bool) {
    let mut a = fruits();
    a.search = search;
    let mut b = fruits();
    b.search = search;
    let down = InputEvent::Key(KeyPress { code: Key::Down, ctrl: with_ctrl });
    let up = InputEvent::Key(KeyPress { code: Key::Up, ctrl: with_ctrl });
    for _ in 0..4 {
        assert_eq!(handle_event(&mut a, down), InputAction::Continue);
        crz_rough::scroll::move_down(&mut b);
        assert_eq!((a.cursor_pos, a.scroll_offset), (b.cursor_pos, b.scroll_offset));
    }
    for _ in 0..2 {
        assert_eq!(handle_event(&mut a, up), InputAction::Continue);
        crz_rough::scroll::move_up(&mut b);
        assert_eq!((a.cursor_pos, a.scroll_offset), (b.cursor_pos, b.scroll_offset));
    }
    assert_eq!(handle_event(&mut a, InputEvent::Mouse(MouseKind::ScrollUp)), InputAction::Continue);
    crz_rough::scroll::move_up(&mut b);
    assert_eq!((a.cursor_pos, a.scroll_offset), (b.cursor_pos, b.scroll_offset));
    assert_eq!(a.search_query, b.search_query);
}
