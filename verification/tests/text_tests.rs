use easytier_tui::random::{index_from_nanos, name_from_draws, rand_index, rand_string};
use easytier_tui::text::{byte_prefix, push_char, push_decimal, text_contains};

fn decimal(n: u64) -> String {
    let mut s = String::new();
    push_decimal(&mut s, n);
    s
}

#[test]
fn decimal_of_small_and_large_numbers() {
    assert_eq!(decimal(0), "0");
    assert_eq!(decimal(7), "7");
    assert_eq!(decimal(10), "10");
    assert_eq!(decimal(1234567890), "1234567890");
    assert_eq!(decimal(u64::MAX), "18446744073709551615");
}

#[test]
fn decimal_appends_to_existing_text() {
    let mut s = "n=".to_string();
    push_decimal(&mut s, 42);
    assert_eq!(s, "n=42");
}

#[test]
fn contains_finds_substrings() {
    assert!(text_contains("service is running", "running"));
    assert!(text_contains("running", "running"));
    assert!(!text_contains("runnin", "running"));
    assert!(!text_contains("RUNNING", "running"));
    assert!(text_contains("anything", ""));
    assert!(text_contains("", ""));
    assert!(text_contains("服务 started 了", "started"));
    assert!(text_contains("aab", "ab"));
}

#[test]
fn byte_prefix_keeps_whole_characters() {
    assert_eq!(byte_prefix("hello", 30), "hello");
    assert_eq!(byte_prefix("hello", 3), "hel");
    assert_eq!(byte_prefix("网络abc", 6), "网络");
    assert_eq!(byte_prefix("", 30), "");
    assert_eq!(byte_prefix("abc", 0), "");
}

#[test]
fn push_char_appends() {
    let mut s = "ab".to_string();
    push_char(&mut s, '网');
    assert_eq!(s, "ab网");
}

#[test]
fn index_from_nanos_is_the_remainder() {
    assert_eq!(index_from_nanos(0, 36), 0);
    assert_eq!(index_from_nanos(37, 36), 1);
    assert_eq!(index_from_nanos(999_999_999, 36), 999_999_999 % 36);
    assert_eq!(index_from_nanos(5, 1), 0);
}

#[test]
fn rand_index_is_below_bound() {
    for max in 1..50 {
        assert!(rand_index(max) < max);
    }
}

#[test]
fn rand_string_has_the_length_and_alphabet() {
    for len in [0usize, 1, 8, 40] {
        let s = rand_string(len);
        assert_eq!(s.chars().count(), len);
        assert!(s.chars().all(|c| c.is_ascii_lowercase() || c.is_ascii_digit()));
    }
}

#[test]
fn name_spells_the_draws() {
    assert_eq!(name_from_draws(&vec![0, 25, 26, 35, 7]), "az09h");
    assert_eq!(name_from_draws(&vec![]), "");
}
