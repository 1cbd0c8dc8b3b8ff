use now_playing::width::{char_columns, columns_from, measure, visual_len};

#[test]
fn wide_and_narrow_character_take_three_columns() {
    assert_eq!(visual_len("中a"), 3);
    assert_eq!(visual_len("a中"), 3);
}

#[test]
fn empty_text_has_no_width() {
    assert_eq!(visual_len(""), 0);
}

#[test]
fn ascii_text_is_as_wide_as_it_is_long() {
    assert_eq!(visual_len("Hi"), 2);
    assert_eq!(visual_len("No player available"), 19);
}

#[test]
fn width_counts_columns_not_bytes() {
    assert_eq!(visual_len("ö"), 1);
    assert_eq!(visual_len("é"), 2);
    assert_eq!(visual_len("日本語"), 6);
}

#[test]
fn control_characters_take_no_column() {
    assert_eq!(visual_len("a\tb\n"), 2);
    assert_eq!(char_columns('\n'), 0);
    assert_eq!(char_columns('\u{7f}'), 0);
    assert_eq!(char_columns('\0'), 0);
}

#[test]
fn ambiguous_characters_are_wide() {
    // U+00A1 INVERTED EXCLAMATION MARK is of ambiguous width.
    assert_eq!(char_columns('¡'), 2);
    assert_eq!(visual_len("¡"), 2);
}

#[test]
fn columns_of_single_characters() {
    assert_eq!(char_columns(' '), 1);
    assert_eq!(char_columns('~'), 1);
    assert_eq!(char_columns('a'), 1);
    assert_eq!(char_columns('中'), 2);
    assert_eq!(char_columns('Ｈ'), 2);
    assert_eq!(char_columns('\u{301}'), 0);
}

#[test]
fn width_of_text_is_sum_of_its_characters() {
    let text = "a中\u{301}ö ¡~";
    let sum: usize = text.chars().map(char_columns).sum();
    assert_eq!(visual_len(text), sum);
    assert_eq!(sum, 8);
}

#[test]
fn measured_text_pairs_characters_with_columns() {
    assert_eq!(measure("a中\n"), vec![('a', 1), ('中', 2), ('\n', 0)]);
    assert_eq!(measure(""), Vec::<(char, usize)>::new());
}

#[test]
fn measured_columns_add_up_to_the_width() {
    let text = "日本語 abc ¡";
    let sum: usize = measure(text).iter().map(|cell| cell.1).sum();
    assert_eq!(sum, visual_len(text));
}

#[test]
fn columns_from_the_table_answer() {
    assert_eq!(columns_from('中', Some(2)), 2);
    assert_eq!(columns_from('\u{301}', Some(0)), 0);
    assert_eq!(columns_from('\n', None), 0);
    assert_eq!(columns_from('\u{85}', None), 0);
}

#[test]
fn printable_ascii_is_one_column_whatever_the_answer() {
    assert_eq!(columns_from(' ', None), 1);
    assert_eq!(columns_from('~', Some(2)), 1);
    assert_eq!(columns_from('a', Some(0)), 1);
}

#[test]
fn outside_printable_ascii_the_answer_counts() {
    assert_eq!(columns_from('\u{7f}', Some(5)), 5);
    assert_eq!(columns_from('\u{1f}', Some(1)), 1);
    assert_eq!(columns_from('\u{7f}', None), 0);
}
