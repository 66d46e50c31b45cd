use rencfs_desktop::text::{chars_of, decimal, push_decimal, replaced, text_contains};

#[test]
fn decimal_of_small_and_large_numbers() {
    assert_eq!(decimal(0), "0");
    assert_eq!(decimal(7), "7");
    assert_eq!(decimal(10), "10");
    assert_eq!(decimal(909), "909");
    assert_eq!(decimal(4294967295), "4294967295");
}

#[test]
fn push_decimal_appends() {
    let mut text = String::from("pid ");
    push_decimal(&mut text, 4242);
    assert_eq!(text, "pid 4242");
}

#[test]
fn chars_of_keeps_every_character() {
    assert_eq!(chars_of("a-ß"), vec!['a', '-', 'ß']);
    assert_eq!(chars_of(""), Vec::<char>::new());
}

#[test]
fn contains_finds_text_at_every_position() {
    assert!(text_contains("vault", "va"));
    assert!(text_contains("vault", "aul"));
    assert!(text_contains("vault", "lt"));
    assert!(text_contains("vault", "vault"));
}

#[test]
fn contains_edge_cases() {
    assert!(text_contains("", ""));
    assert!(text_contains("abc", ""));
    assert!(!text_contains("", "a"));
    assert!(!text_contains("ab", "abc"));
    assert!(!text_contains("abab", "bb"));
}

#[test]
fn replaced_changes_every_occurrence() {
    assert_eq!(replaced("a b  c", ' ', '-'), "a-b--c");
    assert_eq!(replaced("abc", ' ', '-'), "abc");
    assert_eq!(replaced("", ' ', '-'), "");
}
