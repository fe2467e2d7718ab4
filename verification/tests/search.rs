use clipboard_manager::history::filter_history;
use clipboard_manager::text::{chars_of, str_contains, text_matches};

fn entries(items: &[(i32, &str)]) -> Vec<(i32, String)> {
    items.iter().map(|(id, s)| (*id, s.to_string())).collect()
}

#[test]
fn chars_of_keeps_every_character() {
    assert_eq!(chars_of("añb"), vec!['a', 'ñ', 'b']);
    assert_eq!(chars_of(""), Vec::<char>::new());
}

#[test]
fn contains_finds_runs_anywhere() {
    assert!(str_contains("clipboard", "clip"));
    assert!(str_contains("clipboard", "board"));
    assert!(str_contains("clipboard", "pbo"));
    assert!(!str_contains("clipboard", "clips"));
    assert!(!str_contains("ab", "abc"));
}

#[test]
fn empty_needle_is_found_everywhere() {
    assert!(str_contains("", ""));
    assert!(str_contains("abc", ""));
}

#[test]
fn contains_is_case_sensitive_on_its_own() {
    assert!(!str_contains("Hello", "hello"));
}

#[test]
fn matching_lowers_both_sides() {
    assert!(text_matches("ÀÉ", "àé"));
    assert!(text_matches("àé", "ÀÉ"));
    assert!(!text_matches("AE", "àé"));
}

#[test]
fn matching_ignores_case() {
    assert!(text_matches("Hello World", "hello"));
    assert!(text_matches("hello world", "WORLD"));
    assert!(text_matches("Straße", "STRASSE") == "straße".contains("strasse"));
    assert!(!text_matches("Hello", "help"));
}

#[test]
fn filter_keeps_matching_entries_in_order() {
    let history = entries(&[(5, "Rust book"), (4, "grocery list"), (3, "RUSTACEAN"), (2, "trust me")]);
    let shown = filter_history(&history, "rust");
    assert_eq!(shown, entries(&[(5, "Rust book"), (3, "RUSTACEAN"), (2, "trust me")]));
}

#[test]
fn filter_with_empty_query_keeps_everything() {
    let history = entries(&[(2, "b"), (1, "a")]);
    assert_eq!(filter_history(&history, ""), history);
}

#[test]
fn filter_without_match_is_empty() {
    let history = entries(&[(2, "b"), (1, "a")]);
    assert!(filter_history(&history, "zzz").is_empty());
}

#[test]
fn filter_twice_is_filter_once() {
    let history = entries(&[(3, "alpha"), (2, "beta"), (1, "ALPHABET")]);
    let once = filter_history(&history, "alp");
    let twice = filter_history(&once, "alp");
    assert_eq!(once, twice);
}

#[test]
fn filter_matches_the_original_rule() {
    let history = entries(&[(3, "Ünïcode TEXT"), (2, "ascii"), (1, "ünï")]);
    let query = "ÜNÏ";
    let expected: Vec<(i32, String)> = history
        .iter()
        .filter(|(_, c)| c.to_lowercase().contains(&query.to_lowercase()))
        .cloned()
        .collect();
    assert_eq!(filter_history(&history, query), expected);
}

#[test]
fn narrower_query_keeps_a_subsequence() {
    let history = entries(&[(4, "Rust book"), (3, "rusty nail"), (2, "crust"), (1, "ru")]);
    let broad = filter_history(&history, "RU");
    let narrow = filter_history(&history, "rust");
    assert_eq!(broad, entries(&[(4, "Rust book"), (3, "rusty nail"), (2, "crust"), (1, "ru")]));
    assert_eq!(narrow, entries(&[(4, "Rust book"), (3, "rusty nail"), (2, "crust")]));
    let mut it = broad.iter();
    assert!(narrow.iter().all(|e| it.any(|b| b == e)));
}
