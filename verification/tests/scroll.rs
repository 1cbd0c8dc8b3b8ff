use now_playing::scroll::{
    fit_window, make_visual_len, pad, rotate_left, scroll_by, scroll_step,
};
use now_playing::width::visual_len;

#[test]
fn short_text_is_padded_to_the_width() {
    assert_eq!(make_visual_len("Hi", 10), "Hi        ");
    assert_eq!(make_visual_len("Hi", 10).chars().count(), 10);
}

#[test]
fn long_text_is_cut_at_the_width() {
    assert_eq!(make_visual_len("abcdefghijklmno", 10), "abcdefghij");
}

#[test]
fn text_of_exactly_the_width_is_shown_whole() {
    assert_eq!(make_visual_len("abcdefghij", 10), "abcdefghij");
}

#[test]
fn empty_text_renders_as_spaces() {
    assert_eq!(make_visual_len("", 3), "   ");
}

#[test]
fn zero_width_window_is_empty() {
    assert_eq!(make_visual_len("abc", 0), "");
    assert_eq!(make_visual_len("", 0), "");
}

#[test]
fn wide_character_that_does_not_fit_is_left_out() {
    assert_eq!(make_visual_len("中中", 3), "中 ");
    assert_eq!(make_visual_len("a中b", 2), "a ");
    assert_eq!(make_visual_len("中", 1), " ");
}

#[test]
fn the_walk_stops_at_the_first_character_that_does_not_fit() {
    assert_eq!(make_visual_len("中中a", 3), "中 ");
}

#[test]
fn wide_text_fills_the_window_by_columns() {
    assert_eq!(make_visual_len("日本語", 6), "日本語");
    assert_eq!(make_visual_len("日本", 6), "日本  ");
    assert_eq!(visual_len(&make_visual_len("日本語のうた", 7)), 7);
}

#[test]
fn rendered_window_has_the_width() {
    for text in ["", "Hi", "abcdefghijklmno", "日本語のうた", "a中b中c", "ö\u{301}x"] {
        for width in 0..9usize {
            assert_eq!(visual_len(&make_visual_len(text, width)), width);
        }
    }
}

#[test]
fn rendering_twice_gives_the_same_window() {
    let text = String::from(" Artist - A rather long title  ");
    let first = make_visual_len(&text, 10);
    let second = make_visual_len(&text, 10);
    assert_eq!(first, second);
    assert_eq!(text, " Artist - A rather long title  ");
}

#[test]
fn rendering_a_window_again_changes_nothing() {
    for text in ["", "Hi", "abcdefghijklmno", "日本語のうた", "a中b中c"] {
        for width in 0..9usize {
            let window = make_visual_len(text, width);
            assert_eq!(make_visual_len(&window, width), window);
        }
    }
}

#[test]
fn rotation_moves_the_first_character_to_the_end() {
    assert_eq!(rotate_left("abc"), "bca");
    assert_eq!(rotate_left("a"), "a");
}

#[test]
fn rotation_of_empty_text_is_empty() {
    assert_eq!(rotate_left(""), "");
}

#[test]
fn rotation_moves_a_character_not_a_byte() {
    assert_eq!(rotate_left("öa"), "aö");
    assert_eq!(rotate_left("中ab"), "ab中");
}

#[test]
fn rotation_keeps_the_width() {
    assert_eq!(visual_len(&rotate_left("中ab")), visual_len("中ab"));
}

#[test]
fn as_many_rotations_as_characters_restore_the_text() {
    let start = String::from("日本語 abc");
    let mut text = start.clone();
    for _ in 0..start.chars().count() {
        text = rotate_left(&text);
    }
    assert_eq!(text, start);
}

#[test]
fn scroll_step_rotates_wide_text() {
    let mut text = String::from(" abcdef  ");
    scroll_step(&mut text, 5);
    assert_eq!(text, "abcdef   ");
    scroll_step(&mut text, 5);
    assert_eq!(text, "bcdef   a");
}

#[test]
fn scroll_step_pads_narrow_text() {
    let mut text = String::from("Hi");
    scroll_step(&mut text, 10);
    assert_eq!(text, "Hi        ");
    scroll_step(&mut text, 10);
    assert_eq!(text, "Hi        ");
}

#[test]
fn scroll_step_pads_by_columns() {
    // Four characters of two bytes each, four columns wide.
    let mut text = String::from("öööö");
    scroll_step(&mut text, 6);
    assert_eq!(text, "öööö  ");
    let mut wide = String::from("中");
    scroll_step(&mut wide, 5);
    assert_eq!(wide, "中   ");
}

#[test]
fn scroll_step_leaves_fitting_text() {
    let mut text = String::from("abcde");
    scroll_step(&mut text, 5);
    assert_eq!(text, "abcde");
}

#[test]
fn scroll_step_on_empty_text() {
    let mut text = String::new();
    scroll_step(&mut text, 0);
    assert_eq!(text, "");
    scroll_step(&mut text, 3);
    assert_eq!(text, "   ");
}

#[test]
fn window_over_cells_of_given_widths() {
    let cells = vec![('a', 1), ('W', 2), ('b', 1)];
    assert_eq!(fit_window(&cells, 0), "");
    assert_eq!(fit_window(&cells, 1), "a");
    assert_eq!(fit_window(&cells, 2), "a ");
    assert_eq!(fit_window(&cells, 3), "aW");
    assert_eq!(fit_window(&cells, 4), "aWb");
    assert_eq!(fit_window(&cells, 6), "aWb  ");
}

#[test]
fn window_keeps_cells_without_width() {
    let cells = vec![('a', 0), ('b', 0), ('c', 3)];
    assert_eq!(fit_window(&cells, 0), "ab");
    assert_eq!(fit_window(&cells, 2), "ab  ");
    assert_eq!(fit_window(&cells, 3), "abc");
}

#[test]
fn window_with_a_cell_wider_than_any_window() {
    let cells = vec![('a', 1), ('b', usize::MAX), ('c', 1)];
    assert_eq!(fit_window(&cells, 3), "a  ");
    let huge = vec![('b', usize::MAX)];
    assert_eq!(fit_window(&huge, 2), "  ");
}

#[test]
fn window_over_no_cells_is_spaces() {
    assert_eq!(fit_window(&Vec::new(), 4), "    ");
    assert_eq!(fit_window(&Vec::new(), 0), "");
}

#[test]
fn pad_appends_spaces() {
    let mut text = String::from("ab");
    pad(&mut text, 3);
    assert_eq!(text, "ab   ");
    pad(&mut text, 0);
    assert_eq!(text, "ab   ");
}

#[test]
fn scroll_by_a_given_width() {
    let mut wide = String::from("abc");
    scroll_by(&mut wide, 6, 5);
    assert_eq!(wide, "bca");
    let mut narrow = String::from("abc");
    scroll_by(&mut narrow, 2, 5);
    assert_eq!(narrow, "abc   ");
    let mut exact = String::from("abc");
    scroll_by(&mut exact, 5, 5);
    assert_eq!(exact, "abc");
    let mut empty = String::new();
    scroll_by(&mut empty, 1, 0);
    assert_eq!(empty, "");
}
