use dusk_warden::text::{chars_of, contains_text};

#[test]
fn finds_marker_anywhere() {
    assert!(contains_text("404 at the start", "404"));
    assert!(contains_text("in the 404 middle", "404"));
    assert!(contains_text("at the end 404", "404"));
    assert!(contains_text("404", "404"));
}

#[test]
fn misses_what_is_not_there() {
    assert!(!contains_text("40 4", "404"));
    assert!(!contains_text("40", "404"));
    assert!(!contains_text("", "404"));
    assert!(!contains_text("4 0 4", "404"));
}

#[test]
fn empty_marker_is_in_every_text() {
    assert!(contains_text("abc", ""));
    assert!(contains_text("", ""));
}

#[test]
fn partial_match_does_not_hide_a_later_one() {
    assert!(contains_text("4404", "404"));
    assert!(contains_text("40404", "404"));
    assert!(contains_text("Resource not Resource not found", "Resource not found"));
}

#[test]
fn agrees_with_std_beyond_ascii() {
    let hay = "naïve ✗ résumé 404 ✓";
    for needle in ["ï", "✗ r", "é 404", "✓", "naive", "404 ✗"] {
        assert_eq!(contains_text(hay, needle), hay.contains(needle), "needle: {needle}");
    }
}

#[test]
fn chars_of_gives_each_character() {
    assert_eq!(chars_of("a✓b"), vec!['a', '✓', 'b']);
    assert_eq!(chars_of(""), Vec::<char>::new());
}
