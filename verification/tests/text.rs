use autotest::text::{
    assert_capture_between, chars_of, count_substring, find, matches_at, parse_i32, CaptureError,
};

fn chars(s: &str) -> Vec<char> {
    s.chars().collect()
}

#[test]
fn chars_of_keeps_every_character() {
    assert_eq!(chars_of("a\u{e9}\u{4e2d}z"), vec!['a', '\u{e9}', '\u{4e2d}', 'z']);
    assert!(chars_of("").is_empty());
}

#[test]
fn find_gives_the_first_position() {
    let s = chars("abcabc");
    assert_eq!(find(&s, &chars("bc"), 0), Some(1));
    assert_eq!(find(&s, &chars("bc"), 2), Some(4));
    assert_eq!(find(&s, &chars("bc"), 5), None);
    assert_eq!(find(&s, &chars(""), 6), Some(6));
    assert_eq!(find(&s, &chars(""), 7), None);
    assert_eq!(find(&s, &chars("abcabcd"), 0), None);
    assert!(matches_at(&s, &chars("cab"), 2));
    assert!(!matches_at(&s, &chars("cab"), 3));
}

#[test]
fn count_substring_counts_without_overlap() {
    assert!(count_substring("aaaa", "aa", 2));
    assert!(!count_substring("aaaa", "aa", 3));
    assert!(count_substring("login: login: ", "login:", 2));
    assert!(!count_substring("login: ", "login:", 2));
    assert!(count_substring("x", "", 5));
    assert!(!count_substring("x", "x", 0));
    assert!(!count_substring("x", "", 0));
    assert!(!count_substring("", "x", 1));
}

#[test]
fn capture_between_takes_the_framed_text() {
    assert_eq!(
        assert_capture_between("junkT\nhello-0T\n", "T\n", "T\n"),
        Ok(Some((6, "hello-0".to_string())))
    );
    assert_eq!(assert_capture_between("junkT\nhello-0", "T\n", "T\n"), Ok(None));
    assert_eq!(assert_capture_between("nothing here", "<", ">"), Ok(None));
    assert_eq!(assert_capture_between("a<b>c", "<", ">"), Ok(Some((2, "b".to_string()))));
    assert_eq!(assert_capture_between("<\u{e9}\u{4e2d}>", "<", ">"), Ok(Some((1, "\u{e9}\u{4e2d}".to_string()))));
}

#[test]
fn capture_between_refuses_a_second_capture() {
    assert_eq!(assert_capture_between("<a><b>", "<", ">"), Err(CaptureError::MoreThanOne));
    assert_eq!(assert_capture_between("<a> <b", "<", ">"), Ok(Some((1, "a".to_string()))));
}

#[test]
fn parse_i32_reads_what_std_reads() {
    for s in [
        "0", "7", "-7", "+7", "007", "2147483647", "-2147483648", "2147483648", "-2147483649",
        "99999999999999999999", "", "-", "+", "1a", " 1", "1 ", "--1", "+-1", "\u{664}",
    ] {
        assert_eq!(parse_i32(&chars(s)), s.parse::<i32>().ok(), "input {:?}", s);
    }
}
