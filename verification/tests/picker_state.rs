use crz_rough::cli::Args;
use crz_rough::common::{ListState, State, APP_NAME};
use crz_rough::layout::{can_lay_out, init_layout};
use crz_rough::render::{list_rows, search_line, Row};
use crz_rough::scroll::{clamp_list_cursor, move_down, move_up};
use crz_rough::search::update_filter;
use crz_rough::tux::{initial_state, selected_value};

fn state_of(keys: &[&str], max_visible: usize) -> State {
    State {
        items_key: keys.iter().map(|k| k.to_string()).collect(),
        item_values: None,
        search_query: String::new(),
        filtered_items: (0..keys.len()).collect(),
        cursor_pos: 0,
        comment: None,
        search: true,
        scroll_offset: 0,
        search_cursor: 0,
        max_lines: max_visible,
        max_visible,
        comment_lines: 0,
        search_lines: 1,
        total_lines: max_visible + 1,
    }
}

fn ten() -> Vec<&'static str> {
    vec!["a0", "a1", "a2", "a3", "a4", "a5", "a6", "a7", "a8", "a9"]
}

#[test]
fn app_name_is_set() {
    assert_eq!(APP_NAME, "CRZ Rough");
}

#[test]
fn move_down_scrolls_before_the_marker_row() {
    let mut s = state_of(&ten(), 3);
    let expected = [(1, 0), (2, 1), (3, 2), (4, 3), (5, 4), (6, 5), (7, 6), (8, 7), (9, 7), (9, 7)];
    for (c, o) in expected {
        move_down(&mut s);
        assert_eq!((s.cursor_pos, s.scroll_offset), (c, o));
    }
}

#[test]
fn move_up_scrolls_before_the_marker_row() {
    let mut s = state_of(&ten(), 3);
    s.cursor_pos = 9;
    s.scroll_offset = 7;
    let expected = [(8, 7), (7, 6), (6, 5), (5, 4), (4, 3), (3, 2), (2, 1), (1, 0), (0, 0), (0, 0)];
    for (c, o) in expected {
        move_up(&mut s);
        assert_eq!((s.cursor_pos, s.scroll_offset), (c, o));
    }
}

#[test]
fn move_up_jumps_back_to_cursor_above_viewport() {
    let mut s = state_of(&ten(), 3);
    s.cursor_pos = 2;
    s.scroll_offset = 5;
    move_up(&mut s);
    assert_eq!((s.cursor_pos, s.scroll_offset), (1, 1));
}

#[test]
fn move_down_catches_up_with_cursor_below_viewport() {
    let mut s = state_of(&ten(), 3);
    s.cursor_pos = 5;
    s.scroll_offset = 0;
    move_down(&mut s);
    assert_eq!((s.cursor_pos, s.scroll_offset), (6, 4));
}

#[test]
fn up_then_down_restores_cursor() {
    let mut s = state_of(&ten(), 4);
    s.cursor_pos = 5;
    s.scroll_offset = 3;
    move_up(&mut s);
    move_down(&mut s);
    assert_eq!(s.cursor_pos, 5);
    move_down(&mut s);
    move_up(&mut s);
    assert_eq!(s.cursor_pos, 5);
}

#[test]
fn moves_on_empty_list_stay_at_zero() {
    let mut s = state_of(&[], 1);
    move_down(&mut s);
    assert_eq!((s.cursor_pos, s.scroll_offset), (0, 0));
    move_up(&mut s);
    assert_eq!((s.cursor_pos, s.scroll_offset), (0, 0));
}

#[test]
fn clamp_brings_cursor_back() {
    let mut s = state_of(&["x", "y", "z"], 3);
    s.cursor_pos = 5;
    s.scroll_offset = 4;
    clamp_list_cursor(&mut s);
    assert_eq!((s.cursor_pos, s.scroll_offset), (2, 2));
    s.filtered_items = vec![];
    clamp_list_cursor(&mut s);
    assert_eq!((s.cursor_pos, s.scroll_offset), (0, 0));
}

#[test]
fn list_state_moves_like_state() {
    let mut l = ListState {
        cursor_pos: 0,
        scroll_offset: 0,
        items_key: ten().iter().map(|k| k.to_string()).collect(),
        item_values: None,
        search_query: String::new(),
        filtered_items: (0..10).collect(),
        max_visible: 3,
    };
    l.move_down();
    l.move_down();
    assert_eq!((l.cursor_pos, l.scroll_offset), (2, 1));
    l.move_up();
    assert_eq!((l.cursor_pos, l.scroll_offset), (1, 0));
    l.move_up();
    l.move_up();
    assert_eq!((l.cursor_pos, l.scroll_offset), (0, 0));
}

#[test]
fn update_filter_fuzzy_lowercase() {
    let mut s = state_of(&["Apple", "banana", "Grape", "apricot"], 4);
    s.search_query = String::from("ap");
    update_filter(&mut s);
    assert_eq!(s.filtered_items, vec![0, 2, 3]);
    s.search_query = String::from("AP");
    update_filter(&mut s);
    assert_eq!(s.filtered_items, vec![0, 2, 3]);
    s.search_query = String::from("APR");
    update_filter(&mut s);
    assert_eq!(s.filtered_items, vec![3]);
    s.search_query = String::from("zz");
    update_filter(&mut s);
    assert_eq!(s.filtered_items, Vec::<usize>::new());
}

#[test]
fn update_filter_empty_query_keeps_all() {
    let mut s = state_of(&["one", "two", "three"], 3);
    s.filtered_items = vec![1];
    update_filter(&mut s);
    assert_eq!(s.filtered_items, vec![0, 1, 2]);
}

#[test]
fn longer_query_never_widens_filter() {
    let keys = ["alpha", "alpine", "beta", "apple", "maple"];
    let mut s = state_of(&keys, 3);
    let mut previous: Vec<usize> = (0..keys.len()).collect();
    for q in ["a", "al", "alp", "alpi"] {
        s.search_query = String::from(q);
        update_filter(&mut s);
        assert!(s.filtered_items.iter().all(|i| previous.contains(i)));
        previous = s.filtered_items.clone();
    }
    assert_eq!(previous, vec![1]);
}

#[test]
fn init_layout_counts_lines() {
    let mut s = state_of(&["a", "b", "c"], 0);
    s.max_lines = 10;
    s.comment = Some(String::from("pick one"));
    init_layout(&mut s);
    assert_eq!((s.comment_lines, s.max_visible, s.search_lines, s.total_lines), (1, 3, 1, 5));

    s.comment = Some(String::new());
    s.search = false;
    s.max_lines = 2;
    init_layout(&mut s);
    assert_eq!((s.comment_lines, s.max_visible, s.search_lines, s.total_lines), (0, 2, 0, 2));

    let mut e = state_of(&[], 0);
    e.max_lines = 10;
    init_layout(&mut e);
    assert_eq!((e.comment_lines, e.max_visible, e.search_lines, e.total_lines), (0, 1, 1, 2));
}

#[test]
fn list_rows_marks_hidden_entries() {
    let mut s = state_of(&ten(), 3);
    assert_eq!(
        list_rows(&s),
        vec![
            Row::Entry { real_idx: 0, selected: true },
            Row::Entry { real_idx: 1, selected: false },
            Row::More
        ]
    );
    s.scroll_offset = 2;
    s.cursor_pos = 3;
    assert_eq!(
        list_rows(&s),
        vec![Row::More, Row::Entry { real_idx: 3, selected: true }, Row::More]
    );
    s.scroll_offset = 7;
    s.cursor_pos = 9;
    assert_eq!(
        list_rows(&s),
        vec![
            Row::More,
            Row::Entry { real_idx: 8, selected: false },
            Row::Entry { real_idx: 9, selected: true }
        ]
    );
}

#[test]
fn list_rows_blank_past_end_and_filtered_indices() {
    let mut s = state_of(&["a", "b", "c", "d"], 3);
    s.filtered_items = vec![3];
    assert_eq!(
        list_rows(&s),
        vec![Row::Entry { real_idx: 3, selected: true }, Row::Blank, Row::Blank]
    );
}

#[test]
fn cursor_row_is_drawn_after_moves() {
    let mut s = state_of(&ten(), 4);
    for _ in 0..9 {
        move_down(&mut s);
        let row = s.cursor_pos - s.scroll_offset;
        assert_eq!(
            list_rows(&s)[row],
            Row::Entry { real_idx: s.cursor_pos, selected: true }
        );
    }
}

#[test]
fn search_line_placeholder() {
    let l = search_line("", 0);
    assert!(l.placeholder);
    assert_eq!((l.before.as_str(), l.under.as_str(), l.after.as_str()), ("", "F", "uzzy search here..."));
}

#[test]
fn search_line_splits_at_cursor() {
    let l = search_line("aéc", 1);
    assert!(!l.placeholder);
    assert_eq!((l.before.as_str(), l.under.as_str(), l.after.as_str()), ("a", "é", "c"));
    let l = search_line("aéc", 0);
    assert_eq!((l.before.as_str(), l.under.as_str(), l.after.as_str()), ("", "a", "éc"));
    let l = search_line("aéc", 3);
    assert_eq!((l.before.as_str(), l.under.as_str(), l.after.as_str()), ("aéc", " ", ""));
    let l = search_line("aéc", 7);
    assert_eq!((l.before.as_str(), l.under.as_str(), l.after.as_str()), ("aéc", " ", ""));
}

#[test]
fn item_label_and_value() {
    let mut s = state_of(&["k0", "k1"], 2);
    assert_eq!(s.item(1).label(), "k1");
    assert_eq!(s.item(1).value(), "k1");
    s.item_values = Some(vec![String::from("v0"), String::from("v1")]);
    assert_eq!(s.item(0).label(), "k0");
    assert_eq!(s.item(0).value(), "v0");
    let it = s.item(1);
    assert_eq!(it.index, 1);
}

#[test]
fn iter_filtered_follows_filter() {
    let mut s = state_of(&["k0", "k1", "k2"], 3);
    s.filtered_items = vec![2, 0];
    let items = s.iter_filtered();
    let labels: Vec<&str> = items.iter().map(|i| i.label()).collect();
    assert_eq!(labels, vec!["k2", "k0"]);
    let idx: Vec<usize> = s.iter_filtered().iter().map(|i| i.index).collect();
    assert_eq!(idx, vec![2, 0]);
}

#[test]
fn selected_value_under_cursor() {
    let mut s = state_of(&["k0", "k1", "k2"], 3);
    s.filtered_items = vec![2, 0];
    s.cursor_pos = 1;
    assert_eq!(selected_value(&s), Some(String::from("k0")));
    s.item_values = Some(vec![String::from("v0"), String::from("v1"), String::from("v2")]);
    s.cursor_pos = 0;
    assert_eq!(selected_value(&s), Some(String::from("v2")));
    s.filtered_items = vec![];
    assert_eq!(selected_value(&s), None);
}

fn args(index: usize, lines: u32) -> Args {
    Args {
        delim: String::from(","),
        index,
        lines,
        comment: Some(String::from("hello")),
        search_default: None,
        no_search: false,
    }
}

#[test]
fn initial_state_from_args() {
    let items = vec![String::from("a"), String::from("b"), String::from("c")];
    let s = initial_state(&args(0, 10), items.clone());
    assert_eq!(s.items_key, items);
    assert_eq!(s.filtered_items, vec![0, 1, 2]);
    assert_eq!(s.cursor_pos, 0);
    assert_eq!(s.max_lines, 10);
    assert_eq!(s.comment, Some(String::from("hello")));
    assert!(s.search);
    assert_eq!(s.search_query, "");

    assert_eq!(initial_state(&args(2, 10), items.clone()).cursor_pos, 1);
    assert_eq!(initial_state(&args(3, 10), items.clone()).cursor_pos, 2);
    assert_eq!(initial_state(&args(9, 10), items.clone()).cursor_pos, 2);
    assert_eq!(initial_state(&args(1, 0), items.clone()).max_lines, 1);

    let mut a = args(1, 5);
    a.search_default = Some(String::from("b"));
    a.no_search = true;
    let s = initial_state(&a, items);
    assert_eq!(s.search_query, "b");
    assert!(!s.search);
}

#[test]
fn two_row_viewport_can_put_cursor_on_marker() {
    let mut s = state_of(&["a", "b", "c", "d"], 2);
    move_down(&mut s);
    assert_eq!((s.cursor_pos, s.scroll_offset), (1, 1));
    assert_eq!(list_rows(&s), vec![Row::More, Row::More]);
}

#[test]
fn cursor_never_on_marker_with_three_rows() {
    let mut s = state_of(&ten(), 3);
    for step in 0..30 {
        if step % 7 < 4 {
            move_down(&mut s);
        } else {
            move_up(&mut s);
        }
        let row = s.cursor_pos - s.scroll_offset;
        assert!(row < s.max_visible);
        assert_eq!(list_rows(&s)[row], Row::Entry { real_idx: s.cursor_pos, selected: true });
    }
}

#[test]
fn can_lay_out_tells_overflow_apart() {
    let mut s = state_of(&["a", "b"], 0);
    s.max_lines = usize::MAX;
    s.comment = Some(String::from("c"));
    assert!(can_lay_out(&s));
    let mut t = state_of(&[], 0);
    t.max_lines = usize::MAX;
    t.comment = Some(String::from("c"));
    assert!(can_lay_out(&t));
    s.max_lines = 5;
    assert!(can_lay_out(&s));
}

#[test]
fn empty_query_lists_every_item() {
    let mut s = state_of(&["B", "a", "ç"], 3);
    s.filtered_items = vec![];
    s.search_query = String::new();
    update_filter(&mut s);
    assert_eq!(s.filtered_items, vec![0, 1, 2]);
}

#[test]
fn ascii_typing_narrows_filter() {
    let keys = ["Map", "maple", "Ample", "lamp", "AMP", "ma"];
    let mut s = state_of(&keys, 3);
    let mut previous: Vec<usize> = (0..keys.len()).collect();
    let mut q = String::new();
    for c in "MaP".chars() {
        q.push(c);
        s.search_query = q.clone();
        update_filter(&mut s);
        let mut it = previous.iter();
        assert!(s.filtered_items.iter().all(|x| it.any(|y| y == x)));
        previous = s.filtered_items.clone();
    }
    assert_eq!(previous, vec![0, 1]);
}
