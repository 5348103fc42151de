use judge_engine::text::char_is_whitespace;
use judge_engine::text::chars_of;
use judge_engine::text::joined;
use judge_engine::text::contains_text;
use judge_engine::text::count_text;
use judge_engine::text::decimal_text;
use judge_engine::text::same_chars;
use judge_engine::text::same_text;
use judge_engine::text::trim_bounds;

#[test]
fn whitespace_is_what_std_trims() {
    let mut code: u32 = 0;
    while code <= 0x10FFFF {
        if let Some(c) = char::from_u32(code) {
            assert_eq!(char_is_whitespace(c), c.is_whitespace(), "U+{:04X}", code);
        }
        code += 1;
    }
}

#[test]
fn chars_of_lists_the_characters() {
    assert_eq!(chars_of("héllo"), vec!['h', 'é', 'l', 'l', 'o']);
    assert_eq!(chars_of(""), Vec::<char>::new());
}

#[test]
fn trim_bounds_mark_the_trimmed_text() {
    let v = chars_of("  ab c \n");
    assert_eq!(trim_bounds(&v), (2, 6));
    let blank = chars_of(" \t ");
    let (start, end) = trim_bounds(&blank);
    assert_eq!(start, end);
    let none = chars_of("");
    assert_eq!(trim_bounds(&none), (0, 0));
    let tight = chars_of("xy");
    assert_eq!(trim_bounds(&tight), (0, 2));
}

#[test]
fn contains_text_finds_runs_of_characters() {
    assert!(contains_text("error: Time limit exceeded (5s)", "Time limit exceeded"));
    assert!(contains_text("Time limit exceeded", "Time limit exceeded"));
    assert!(!contains_text("Time limit", "Time limit exceeded"));
    assert!(!contains_text("time limit exceeded", "Time limit exceeded"));
    assert!(contains_text("abc", ""));
    assert!(contains_text("", ""));
    assert!(!contains_text("", "a"));
    assert!(contains_text("aab", "ab"));
    assert!(contains_text("xxab", "ab"));
    assert!(!contains_text("abab", "ba b"));
}

#[test]
fn contains_text_agrees_with_std() {
    let hays = ["", "a", "ab", "aab", "abab", "Time limit exceeded", "xTime limit exceededy", "ééa"];
    let needles = ["", "a", "b", "ab", "ba", "aa", "Time limit exceeded", "é", "éa"];
    for h in hays.iter() {
        for n in needles.iter() {
            assert_eq!(contains_text(h, n), h.contains(n), "{:?} in {:?}", n, h);
        }
    }
}

#[test]
fn decimal_text_prints_as_std_does() {
    assert_eq!(decimal_text(0), "0");
    assert_eq!(decimal_text(7), "7");
    assert_eq!(decimal_text(10), "10");
    assert_eq!(decimal_text(124), "124");
    assert_eq!(decimal_text(-1), "-1");
    assert_eq!(decimal_text(-100), "-100");
    assert_eq!(decimal_text(i32::MAX), "2147483647");
    assert_eq!(decimal_text(i32::MIN), "-2147483648");
    let mut n: i32 = -5000;
    while n <= 5000 {
        assert_eq!(decimal_text(n), n.to_string());
        n += 7;
    }
}

#[test]
fn count_text_prints_as_std_does() {
    assert_eq!(count_text(0), "0");
    assert_eq!(count_text(1), "1");
    assert_eq!(count_text(1000), "1000");
    assert_eq!(count_text(usize::MAX), usize::MAX.to_string());
}

#[test]
fn same_text_is_equality() {
    assert!(same_text("python", "python"));
    assert!(!same_text("python", "Python"));
    assert!(!same_text("c", "cc"));
    assert!(same_text("", ""));
}

#[test]
fn same_chars_compares_ranges() {
    let x = chars_of("hello world");
    let y = chars_of("world");
    assert!(same_chars(&x, 6, 11, &y, 0, 5));
    assert!(!same_chars(&x, 0, 5, &y, 0, 5));
    assert!(!same_chars(&x, 6, 10, &y, 0, 5));
    assert!(same_chars(&x, 3, 3, &y, 5, 5));
}

#[test]
fn concat_joins_two_texts() {
    assert_eq!(joined("solution", ".py"), "solution.py");
    assert_eq!(joined("", ""), "");
    assert_eq!(joined("a", ""), "a");
}
