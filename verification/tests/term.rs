use autotest::term::{decode_ansi, decode_general, strip_escapes, Ansi, General};
use autotest::tty::{exec_plan, Poll, ReadReply, Term, Tty, TtySetting};

#[test]
fn text_without_escapes_is_kept() {
    assert_eq!(strip_escapes(b"hello\r\nworld"), b"hello\r\nworld".to_vec());
    assert_eq!(strip_escapes(b""), Vec::<u8>::new());
}

#[test]
fn escape_sequences_are_taken_out() {
    assert_eq!(strip_escapes(b"\x1b[1;32mok\x1b[0m done"), b"ok done".to_vec());
    assert_eq!(strip_escapes(b"a\x1b[2Kb\x1b[10;20Hc"), b"abc".to_vec());
    assert_eq!(strip_escapes(b"\x1b]0;title\x07$ ls"), b"$ ls".to_vec());
    assert_eq!(strip_escapes(b"\x1b]0;title\x1b\\$ ls"), b"$ ls".to_vec());
    assert_eq!(strip_escapes(b"x\x1b=y\x1b>z"), b"xyz".to_vec());
    assert_eq!(strip_escapes(b"cut \x1b[12"), b"cut ".to_vec());
    assert_eq!(strip_escapes(b"end\x1b"), b"end".to_vec());
    assert_eq!(strip_escapes(b"\x1b\x1b[mA"), b"[mA".to_vec());
}

#[test]
fn decoding_replaces_what_is_no_utf8() {
    assert_eq!(decode_general("h\u{e9}llo".as_bytes()), "h\u{e9}llo");
    assert_eq!(decode_general(b"a\xffb"), "a\u{fffd}b");
    assert_eq!(decode_general(b"\x1b[m"), "\u{1b}[m");
    assert_eq!(decode_ansi(b"\x1b[1mh\xc3\xa9\x1b[0m"), "h\u{e9}");
    assert_eq!(General::parse_and_strip(b"\x1b[mx"), "\u{1b}[mx");
    assert_eq!(Ansi::parse_and_strip(b"\x1b[mx"), "x");
}

#[test]
fn a_coloured_prompt_does_not_hide_the_answer() {
    let setting = TtySetting { disable_echo: true, linebreak: "\n".to_string() };
    let plan = exec_plan(&setting, "T4g_-x", "ls");
    let mut tty: Tty<Ansi> = Tty::new(setting);
    let stream = b"\x1b[32m$\x1b[0m T4g_-x\n\x1b[1mfile\x1b[0m-0T4g_-x\n".to_vec();
    match tty.exec_poll(ReadReply::Value(stream), &plan) {
        Poll::Ready(Ok(v)) => assert_eq!(v, (0, "file".to_string())),
        other => panic!("unexpected {:?}", other),
    }
}
