use disco_monk::text::{
    chars_of, decimal_text, found_at, is_whitespace, scan, split_fields, CharClass,
};

fn chars(s: &str) -> Vec<char> {
    s.chars().collect()
}

#[test]
fn is_whitespace_agrees_with_the_standard_library() {
    for code in 0..=0x10FFFFu32 {
        if let Some(c) = char::from_u32(code) {
            assert_eq!(is_whitespace(c), c.is_whitespace(), "U+{:04X}", code);
        }
    }
}

#[test]
fn char_classes() {
    assert!(CharClass::Space.test(' '));
    assert!(CharClass::Space.test('\u{2003}'));
    assert!(!CharClass::Space.test('a'));
    assert!(CharClass::Word.test('a'));
    assert!(!CharClass::Word.test('\n'));
    for c in '0'..='9' {
        assert!(CharClass::Digit.test(c));
    }
    assert!(!CharClass::Digit.test('/'));
    assert!(!CharClass::Digit.test(':'));
    assert!(!CharClass::Digit.test('٣'));
    assert!(CharClass::Field.test(' '));
    assert!(!CharClass::Field.test(','));
}

#[test]
fn chars_of_lists_characters_not_bytes() {
    assert_eq!(chars_of(""), Vec::<char>::new());
    assert_eq!(chars_of("añ🦀"), vec!['a', 'ñ', '🦀']);
}

#[test]
fn scan_measures_runs() {
    let text = chars("  ab\tcd");
    assert_eq!(scan(&text, 0, CharClass::Space), 2);
    assert_eq!(scan(&text, 2, CharClass::Space), 2);
    assert_eq!(scan(&text, 2, CharClass::Word), 4);
    assert_eq!(scan(&text, 4, CharClass::Space), 5);
    assert_eq!(scan(&text, 5, CharClass::Word), 7);
    assert_eq!(scan(&text, 7, CharClass::Word), 7);
    assert_eq!(scan(&text, 9, CharClass::Word), 9);
    assert_eq!(scan(&chars("123a"), 0, CharClass::Digit), 3);
    assert_eq!(scan(&chars("a,b"), 0, CharClass::Field), 1);
    assert_eq!(scan(&chars(""), 0, CharClass::Field), 0);
}

#[test]
fn found_at_matches_in_place() {
    let text = chars("hello");
    assert!(found_at(&text, 0, &chars("he")));
    assert!(found_at(&text, 3, &chars("lo")));
    assert!(found_at(&text, 5, &chars("")));
    assert!(found_at(&text, 0, &chars("hello")));
    assert!(!found_at(&text, 1, &chars("he")));
    assert!(!found_at(&text, 4, &chars("lo")));
    assert!(!found_at(&text, 6, &chars("")));
    assert!(!found_at(&text, 0, &chars("hello!")));
    assert!(!found_at(&text, usize::MAX, &chars("h")));
}

#[test]
fn decimal_text_agrees_with_to_string() {
    for n in [0u64, 1, 9, 10, 11, 99, 100, 101, 12345, 1 << 32, u64::MAX - 1, u64::MAX] {
        assert_eq!(decimal_text(n), chars(&n.to_string()));
    }
    assert_eq!(decimal_text(1234567890), chars("1234567890"));
}

#[test]
fn split_fields_agrees_with_split() {
    let samples = [
        "",
        ",",
        ",,",
        "a",
        "a,b",
        "a,,b",
        ",a",
        "a,",
        "politics, makers",
        " spaced , out ",
        "ünï,cödé,🦀",
    ];
    for sample in samples {
        let expected: Vec<String> = sample.split(',').map(|s| s.to_string()).collect();
        assert_eq!(split_fields(sample), expected, "{:?}", sample);
    }
    assert_eq!(split_fields(""), vec![String::new()]);
    assert_eq!(split_fields("a,"), vec!["a".to_string(), String::new()]);
}
