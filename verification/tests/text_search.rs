use bau_client::text::{chars_of, contains_chars, holds, same_chars, spells, text_contains};

#[test]
fn chars_of_keeps_every_character() {
    assert_eq!(chars_of(""), Vec::<char>::new());
    assert_eq!(chars_of("abc"), vec!['a', 'b', 'c']);
    assert_eq!(chars_of("é\n€"), vec!['é', '\n', '€']);
}

#[test]
fn texts_are_compared_as_a_whole() {
    assert!(same_chars(&[], &[]));
    assert!(same_chars(&['x', 'y'], &['x', 'y']));
    assert!(!same_chars(&['x', 'y'], &['y', 'x']));
    assert!(!same_chars(&['x', 'y'], &['x']));
    assert!(!same_chars(&['x'], &['x', 'y']));
    assert!(!same_chars(&[], &['a']));
    assert!(spells(&chars_of("status"), "status"));
    assert!(!spells(&chars_of("status"), "statu"));
    assert!(!spells(&chars_of("statu"), "status"));
    assert!(!spells(&chars_of("status"), "statuS"));
    assert!(spells(&chars_of(""), ""));
    assert!(holds(&chars_of("a check"), "check"));
    assert!(!holds(&chars_of("a chek"), "check"));
}

#[test]
fn text_contains_finds_a_word_anywhere() {
    assert!(text_contains("check", "check"));
    assert!(text_contains("recheck now", "check"));
    assert!(text_contains("xxres", "res"));
    assert!(text_contains("resxx", "res"));
    assert!(text_contains("a res b", "res"));
    assert!(!text_contains("chec", "check"));
    assert!(!text_contains("r e s", "res"));
    assert!(!text_contains("", "res"));
    assert!(!text_contains("re", "res"));
    assert!(!text_contains("chekc", "check"));
}

#[test]
fn the_empty_text_is_in_every_text() {
    assert!(text_contains("", ""));
    assert!(text_contains("abc", ""));
    assert!(contains_chars(&['a'], &[]));
    assert!(!contains_chars(&[], &['a']));
}

#[test]
fn text_contains_matches_after_a_false_start() {
    assert!(text_contains("rres", "res"));
    assert!(text_contains("rerres", "res"));
    assert!(text_contains("chcheck", "check"));
    assert!(!text_contains("rerer", "res"));
}
