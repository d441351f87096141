use turn_me_off::config::{listen_address, port_or_default, DEFAULT_PORT, PORT_VARIABLE};
use turn_me_off::text::{characters, contains};

#[test]
fn characters_are_counted_not_bytes() {
    assert_eq!(characters(""), Vec::<char>::new());
    assert_eq!(characters("abc"), vec!['a', 'b', 'c']);
    assert_eq!(characters("é✗a"), vec!['é', '✗', 'a']);
    assert_eq!(characters("héllo").len(), 5);
}

#[test]
fn contains_finds_a_text_at_every_place() {
    assert!(contains("abcdef", "abc"));
    assert!(contains("abcdef", "cd"));
    assert!(contains("abcdef", "def"));
    assert!(contains("abcdef", "abcdef"));
    assert!(contains("abcdef", "f"));
}

#[test]
fn contains_misses_what_is_not_there() {
    assert!(!contains("abcdef", "abd"));
    assert!(!contains("abcdef", "abcdefg"));
    assert!(!contains("abcdef", "fa"));
    assert!(!contains("", "a"));
    assert!(!contains("abc", "ABC"));
}

#[test]
fn the_empty_text_stands_in_every_text() {
    assert!(contains("", ""));
    assert!(contains("abc", ""));
}

#[test]
fn contains_starts_over_after_a_near_miss() {
    assert!(contains("aaab", "aab"));
    assert!(contains("abababc", "ababc"));
    assert!(!contains("ababab", "ababc"));
}

#[test]
fn contains_agrees_with_the_standard_library() {
    let hays = ["", "a", "ab", "aab", "abab", "é✗é", "Interactive authentication required.\n"];
    let needles = ["", "a", "b", "ab", "ba", "é", "✗é", "required.", "required.\n\n"];
    for hay in hays {
        for needle in needles {
            assert_eq!(contains(hay, needle), hay.contains(needle), "{hay:?} {needle:?}");
        }
    }
}

#[test]
fn the_port_defaults_to_3000() {
    assert_eq!(PORT_VARIABLE, "TMF_PORT");
    assert_eq!(DEFAULT_PORT, "3000");
    assert_eq!(port_or_default(None), "3000");
    assert_eq!(port_or_default(Some(String::from("8080"))), "8080");
    assert_eq!(port_or_default(Some(String::new())), "");
}

#[test]
fn the_service_listens_on_every_interface() {
    assert_eq!(listen_address("3000"), "0.0.0.0:3000");
    assert_eq!(listen_address("8080"), "0.0.0.0:8080");
    assert_eq!(listen_address(&port_or_default(None)), "0.0.0.0:3000");
}
