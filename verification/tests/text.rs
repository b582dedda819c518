use adb_agent::text::contains_in_order;
use adb_agent::text::contains_text;
use adb_agent::text::decimal_text;
use adb_agent::text::escape_spaces;
use adb_agent::text::is_before;
use adb_agent::text::is_white;
use adb_agent::text::join;
use adb_agent::text::pad_right;
use adb_agent::text::same_text;
use adb_agent::text::signed_decimal_text;
use adb_agent::text::split_lines;
use adb_agent::text::split_words;
use adb_agent::text::starts_with;
use adb_agent::text::to_lower;
use adb_agent::text::trim;

const SAMPLES: [&str; 14] = [
    "",
    " ",
    "a",
    "\n",
    "\r\n",
    "a\r",
    "a\r\nb\n\nc",
    "a\n\r\n",
    "  lead and trail \t\n",
    "Größe ÄÖÜ straße",
    "tab\tand\u{a0}nbsp\u{2003}em\u{3000}wide",
    "\u{85}next\u{2028}line\u{1680}ogham\u{200b}zero",
    "UPPER lower 123 Z[@`{",
    "x\u{1f600}y \u{10ffff}",
];

#[test]
fn white_space_is_that_of_unicode() {
    for code in 0..=0x10ffffu32 {
        if let Some(c) = char::from_u32(code) {
            assert_eq!(is_white(c), c.is_whitespace(), "{code:x}");
        }
    }
}

#[test]
fn splitting_and_trimming_agree_with_std() {
    for s in SAMPLES {
        assert_eq!(split_lines(s), s.lines().collect::<Vec<_>>(), "{s:?}");
        assert_eq!(split_words(s), s.split_whitespace().collect::<Vec<_>>(), "{s:?}");
        assert_eq!(trim(s), s.trim(), "{s:?}");
        assert_eq!(to_lower(s), s.to_ascii_lowercase(), "{s:?}");
    }
}

#[test]
fn searching_and_comparing_agree_with_std() {
    for a in SAMPLES {
        for b in SAMPLES {
            assert_eq!(contains_text(a, b), a.contains(b), "{a:?} {b:?}");
            assert_eq!(starts_with(a, b), a.starts_with(b), "{a:?} {b:?}");
            assert_eq!(same_text(a, b), a == b, "{a:?} {b:?}");
            assert_eq!(is_before(a, b), a < b, "{a:?} {b:?}");
        }
    }
    assert!(contains_text("abcabd", "abd"));
    assert!(!contains_text("abcab", "abd"));
}

#[test]
fn one_text_behind_another() {
    assert!(contains_in_order("a device 'x' not found", "device", "not found"));
    assert!(contains_in_order("abab", "ab", "ab"));
    assert!(!contains_in_order("aba", "ab", "ba"));
    assert!(!contains_in_order("not found device", "device", "not found"));
    assert!(contains_in_order("not found device not found", "device", "not found"));
    assert!(!contains_in_order("ab", "ab", "ab"));
    assert!(contains_in_order("", "", ""));
    assert!(!contains_in_order("", "", "a"));
}

#[test]
fn spaces_are_escaped_for_input() {
    assert_eq!(escape_spaces("hello world"), "hello%sworld");
    assert_eq!(escape_spaces(" a  b\t"), "%sa%s%sb\t");
    assert_eq!(escape_spaces("plain"), "plain");
    assert!(!escape_spaces("no space  left ").contains(' '));
}

#[test]
fn numbers_are_written_in_decimal() {
    for n in [0u64, 7, 9, 10, 99, 100, 12345, u64::MAX] {
        assert_eq!(decimal_text(n), n.to_string());
    }
    for n in [0i32, 5, -1, -10, 2147483647, -2147483648] {
        assert_eq!(signed_decimal_text(n), n.to_string());
    }
}

#[test]
fn padding_and_joining() {
    assert_eq!(pad_right("7".to_string(), 3), format!("{:<3}", 7));
    assert_eq!(pad_right("1234".to_string(), 3), format!("{:<3}", 1234));
    let list = vec!["a".to_string(), "".to_string(), "b".to_string()];
    assert_eq!(join(&list, ", "), list.join(", "));
    assert_eq!(join(&Vec::new(), ", "), "");
}
