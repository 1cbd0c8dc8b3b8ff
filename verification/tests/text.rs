use now_playing::text::{contains_text, same_text, to_chars};

#[test]
fn characters_of_a_string() {
    assert_eq!(to_chars("aé中"), vec!['a', 'é', '中']);
    assert_eq!(to_chars(""), Vec::<char>::new());
}

#[test]
fn same_text_compares_characters() {
    assert!(same_text("Playing", "Playing"));
    assert!(same_text("", ""));
    assert!(!same_text("Playing", "playing"));
    assert!(!same_text("Playing", "Playin"));
    assert!(!same_text("Playin", "Playing"));
    assert!(!same_text("", "a"));
}

#[test]
fn substring_is_found_anywhere() {
    assert!(contains_text("spotify", "spot"));
    assert!(contains_text("spotify", "tify"));
    assert!(contains_text("spotify", "oti"));
    assert!(contains_text("spotify", "spotify"));
}

#[test]
fn empty_text_occurs_everywhere() {
    assert!(contains_text("spotify", ""));
    assert!(contains_text("", ""));
}

#[test]
fn absent_substring_is_not_found() {
    assert!(!contains_text("spotify", "spotifyd"));
    assert!(!contains_text("spotify", "Spot"));
    assert!(!contains_text("spotify", "sptify"));
    assert!(!contains_text("", "a"));
    assert!(!contains_text("aab", "abb"));
}

#[test]
fn substring_after_a_false_start() {
    assert!(contains_text("aaab", "aab"));
    assert!(contains_text("日本語の歌", "語の"));
}

#[test]
fn substring_search_agrees_with_the_standard_library() {
    let hays = ["", "a", "ab", "aab", "abab", "firefox.instance_1_42"];
    let needles = ["", "a", "b", "ab", "ba", "aab", "fox.", "_42", "42_"];
    for hay in hays {
        for needle in needles {
            assert_eq!(contains_text(hay, needle), hay.contains(needle));
        }
    }
}
