use judge_engine::judge::comparator::compare_output;

#[test]
fn carriage_returns_are_disregarded() {
    assert!(compare_output("5\n", "5\r\n"));
}

#[test]
fn trailing_whitespace_is_disregarded() {
    assert!(compare_output("5 ", "5"));
}

#[test]
fn different_outputs_do_not_match() {
    assert!(!compare_output("5", "6"));
}

#[test]
fn leading_whitespace_is_disregarded() {
    assert!(compare_output("\n\t 42", "42"));
}

#[test]
fn carriage_returns_inside_are_dropped() {
    assert!(compare_output("1\r\n2\r\n3", "1\n2\n3\n"));
    assert!(compare_output("a\rb", "ab"));
}

#[test]
fn inner_whitespace_counts() {
    assert!(!compare_output("1 2", "12"));
    assert!(!compare_output("1\n2", "1 2"));
    assert!(!compare_output("1  2", "1 2"));
}

#[test]
fn empty_and_blank_outputs_match() {
    assert!(compare_output("", ""));
    assert!(compare_output("", " \r\n\t"));
    assert!(!compare_output("", "x"));
}

#[test]
fn comparison_is_exact_on_case_and_length() {
    assert!(!compare_output("Yes", "yes"));
    assert!(!compare_output("42", "420"));
    assert!(!compare_output("420", "42"));
}

#[test]
fn unicode_whitespace_is_trimmed() {
    assert!(compare_output("\u{00A0}7\u{2003}", "7"));
    assert!(compare_output("\u{3000}7\u{0085}", "7"));
    assert!(!compare_output("\u{200B}7", "7"));
}

#[test]
fn comparator_agrees_with_trim_and_replace() {
    let samples = [
        "", " ", "a", " a ", "a\r", "\ra", "a\r\nb", "a \r b", "\r\n", "x\ty", " \u{1680}z\u{205F} ",
        "line 1\r\nline 2\r\n", "é\r", "\u{2028}q\u{2029}",
    ];
    for e in samples.iter() {
        for a in samples.iter() {
            let expected = e.trim().replace('\r', "") == a.trim().replace('\r', "");
            assert_eq!(compare_output(e, a), expected, "{:?} against {:?}", e, a);
        }
    }
}
