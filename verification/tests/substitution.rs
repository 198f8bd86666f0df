use async_sqlx_session::{replace_all_occurrences, TABLE_NAME_MARKER};

fn agrees_with_std(text: &str, pattern: &str, replacement: &str) {
    assert_eq!(
        replace_all_occurrences(text, pattern, replacement),
        text.replace(pattern, replacement),
        "text {:?}, pattern {:?}, replacement {:?}",
        text,
        pattern,
        replacement
    );
}

#[test]
fn replaces_every_occurrence() {
    assert_eq!(replace_all_occurrences("a %%TABLE_NAME%% b %%TABLE_NAME%%", TABLE_NAME_MARKER, "t"), "a t b t");
}

#[test]
fn leaves_text_without_the_pattern_unchanged() {
    assert_eq!(replace_all_occurrences("SELECT 1", TABLE_NAME_MARKER, "t"), "SELECT 1");
    assert_eq!(replace_all_occurrences("", TABLE_NAME_MARKER, "t"), "");
    assert_eq!(replace_all_occurrences("%%", TABLE_NAME_MARKER, "t"), "%%");
}

#[test]
fn matches_left_to_right_without_overlap() {
    assert_eq!(replace_all_occurrences("aaa", "aa", "b"), "ba");
    assert_eq!(replace_all_occurrences("aaaa", "aa", "b"), "bb");
    assert_eq!(replace_all_occurrences("%%%TABLE_NAME%%", TABLE_NAME_MARKER, "x"), "%x");
}

#[test]
fn replacement_is_not_searched_again() {
    assert_eq!(replace_all_occurrences("ab", "a", "aa"), "aab");
    assert_eq!(replace_all_occurrences("xx", "x", "x"), "xx");
}

#[test]
fn pattern_may_be_removed() {
    assert_eq!(replace_all_occurrences("a-b-c", "-", ""), "abc");
    assert_eq!(replace_all_occurrences("aabb", "ab", ""), "ab");
}

#[test]
fn agrees_with_str_replace() {
    let cases = [
        ("", "a", "b"),
        ("a", "a", ""),
        ("abcabcab", "abc", "XY"),
        ("ééé", "é", "e"),
        ("日本日本", "本", "x"),
        ("CREATE TABLE %%TABLE_NAME%% (id)", TABLE_NAME_MARKER, "sessions"),
        ("%%TABLE_NAME%%%%TABLE_NAME%%", TABLE_NAME_MARKER, "t"),
        ("ababab", "aba", "-"),
        ("short", "longer pattern", "x"),
    ];
    for (text, pattern, replacement) in cases {
        agrees_with_std(text, pattern, replacement);
    }
}

#[test]
fn empty_pattern_matches_at_every_character_boundary() {
    assert_eq!(replace_all_occurrences("", "", "X"), "X");
    assert_eq!(replace_all_occurrences("ab", "", "X"), "XaXbX");
    agrees_with_std("日本", "", "-");
    agrees_with_std("abc", "", "");
}
