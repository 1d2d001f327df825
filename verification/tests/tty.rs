use autotest::evloop::Req;
use autotest::text::chars_of;
use autotest::tty::{
    before_read, deadline, exec_plan, exec_scan, split_exit_code, wait_scan, ConsoleError,
    ConsumeAction, Poll, ReadReply, Term, Tty, TtySetting,
};

struct Utf8;

impl Term for Utf8 {
    fn parse_and_strip(bytes: &[u8]) -> String {
        String::from_utf8_lossy(bytes).to_string()
    }
}

fn setting(disable_echo: bool) -> TtySetting {
    TtySetting { disable_echo, linebreak: "\n".to_string() }
}

fn value(s: &str) -> ReadReply {
    ReadReply::Value(s.as_bytes().to_vec())
}

#[test]
fn exec_plan_wraps_the_command() {
    let p = exec_plan(&setting(true), "abc123", "echo hello");
    assert_eq!(p.cmd, "echo abc123; echo hello; echo -$?abc123\r");
    assert_eq!(p.match_left, "abc123\n");
    assert_eq!(p.match_right, "abc123\n");
    let p = exec_plan(&setting(false), "abc123", "echo hello");
    assert_eq!(p.cmd, "echo hello; echo -$?abc123\r");
    assert_eq!(p.match_left, "abc123\n\r");
    assert_eq!(p.match_right, "abc123\n");
    assert_eq!(p.tag, "abc123");
}

#[test]
fn exec_draws_a_fresh_tag_of_six_characters() {
    let tty: Tty<Utf8> = Tty::new(setting(true));
    let cmd = "true";
    let a = tty.exec(cmd);
    let b = tty.exec(cmd);
    for p in [&a, &b] {
        assert_eq!(p.tag.chars().count(), 6);
        assert!(p.tag.chars().all(|c| c.is_ascii_alphanumeric() || c == '_' || c == '-'));
        assert_ne!(p.tag, cmd);
        assert_eq!(p.cmd, format!("echo {}; true; echo -$?{}\r", p.tag, p.tag));
        assert_eq!(p.match_left, format!("{}\n", p.tag));
    }
    assert_ne!(a.tag, b.tag);
}

#[test]
fn split_exit_code_splits_at_the_last_separator() {
    assert_eq!(split_exit_code("hello-0".to_string()), (0, "hello".to_string()));
    assert_eq!(split_exit_code("-7".to_string()), (7, String::new()));
    assert_eq!(split_exit_code("a-b-12".to_string()), (12, "a-b".to_string()));
    assert_eq!(split_exit_code("hello\n-0".to_string()), (0, "hello\n".to_string()));
    assert_eq!(split_exit_code("3".to_string()), (3, String::new()));
    assert_eq!(split_exit_code("hello".to_string()), (1, "hello".to_string()));
    assert_eq!(split_exit_code("hello-x".to_string()), (1, "hello-x".to_string()));
    assert_eq!(split_exit_code("hello-".to_string()), (1, "hello-".to_string()));
    assert_eq!(split_exit_code(String::new()), (1, String::new()));
    assert_eq!(split_exit_code("out--5".to_string()), (5, "out-".to_string()));
}

#[test]
fn exec_scan_reads_a_framed_answer() {
    match exec_scan("garbageN\nhello-0N\n", "N\n", "N\n") {
        ConsumeAction::BreakValue(v) => assert_eq!(v, (0, "hello".to_string())),
        other => panic!("unexpected {:?}", other),
    }
    assert!(matches!(exec_scan("garbageN\nhello-0", "N\n", "N\n"), ConsumeAction::Continue));
    match exec_scan("N\na-1N\nN\nb-2N\n", "N\n", "N\n") {
        ConsumeAction::BreakValue(v) => assert_eq!(v, (1, "invalid consume regex".to_string())),
        other => panic!("unexpected {:?}", other),
    }
}

#[test]
fn wait_scan_breaks_on_the_pattern() {
    match wait_scan("boot ... READY".to_string(), "READY") {
        ConsumeAction::BreakValue(v) => assert_eq!(v, "boot ... READY"),
        other => panic!("unexpected {:?}", other),
    }
    assert!(matches!(wait_scan("boot ...".to_string(), "READY"), ConsumeAction::Continue));
}

#[test]
fn before_read_looks_at_the_stop_first() {
    assert!(matches!(before_read(true, 10, 5), Some(ConsoleError::Cancel)));
    assert!(matches!(before_read(false, 10, 5), Some(ConsoleError::Timeout)));
    assert!(before_read(false, 5, 5).is_none());
    assert_eq!(deadline(1, 5000), 5001);
    assert_eq!(deadline(u64::MAX - 1, 5000), u64::MAX);
}

#[test]
fn serial_exec_success() {
    let mut tty: Tty<Utf8> = Tty::new(setting(true));
    let plan = exec_plan(&setting(true), "N12345", "echo hello");
    assert!(matches!(tty.exec_poll(value("N12345\nhel"), &plan), Poll::Pending));
    assert_eq!(tty.last_buffer_start(), 0);
    match tty.exec_poll(value("lo-0N12345\n"), &plan) {
        Poll::Ready(Ok(v)) => assert_eq!(v, (0, "hello".to_string())),
        other => panic!("unexpected {:?}", other),
    }
    assert_eq!(tty.last_buffer_start(), tty.history().len());
    assert_eq!(tty.history(), b"N12345\nhello-0N12345\n".to_vec());
}

#[test]
fn serial_exec_nonzero() {
    let mut tty: Tty<Utf8> = Tty::new(setting(true));
    let plan = exec_plan(&setting(true), "N12345", "false");
    match tty.exec_poll(value("N12345\n-7N12345\n"), &plan) {
        Poll::Ready(Ok(v)) => assert_eq!(v, (7, String::new())),
        other => panic!("unexpected {:?}", other),
    }
}

#[test]
fn exec_after_garbage_returns_hello() {
    let mut tty: Tty<Utf8> = Tty::new(setting(true));
    let plan = exec_plan(&setting(true), "Zq_-09", "echo hello");
    match tty.exec_poll(value("\u{1}garbage$ Zq_-09\nhello-0Zq_-09\n"), &plan) {
        Poll::Ready(Ok(v)) => assert_eq!(v, (0, "hello".to_string())),
        other => panic!("unexpected {:?}", other),
    }
}

#[test]
fn second_exec_does_not_see_the_first() {
    let mut tty: Tty<Utf8> = Tty::new(setting(true));
    let first = exec_plan(&setting(true), "aaaaaa", "echo one");
    let second = exec_plan(&setting(true), "aaaaaa", "false");
    match tty.exec_poll(value("aaaaaa\none-0aaaaaa\n"), &first) {
        Poll::Ready(Ok(v)) => assert_eq!(v, (0, "one".to_string())),
        other => panic!("unexpected {:?}", other),
    }
    let cut = tty.last_buffer_start();
    assert!(matches!(tty.exec_poll(value("noise "), &second), Poll::Pending));
    assert_eq!(tty.last_buffer_start(), cut);
    match tty.exec_poll(value("aaaaaa\n-3aaaaaa\n"), &second) {
        Poll::Ready(Ok(v)) => assert_eq!(v, (3, String::new())),
        other => panic!("unexpected {:?}", other),
    }
}

#[test]
fn wait_timeout_leaves_the_buffer() {
    let mut tty: Tty<Utf8> = Tty::new(setting(true));
    let d = deadline(0, 1000);
    assert!(before_read(false, 0, d).is_none());
    assert!(matches!(tty.wait_string(ReadReply::Value(Vec::new()), "READY"), Poll::Pending));
    assert!(matches!(tty.wait_string(ReadReply::TimedOut, "READY"), Poll::Pending));
    assert!(matches!(tty.wait_string(value("boot"), "READY"), Poll::Pending));
    assert!(matches!(before_read(false, 1001, d), Some(ConsoleError::Timeout)));
    assert_eq!(tty.history(), b"boot".to_vec());
    assert_eq!(tty.last_buffer_start(), 0);
    match tty.wait_string(value(" READY\n"), "READY") {
        Poll::Ready(Ok(text)) => assert_eq!(text, "boot READY\n"),
        other => panic!("unexpected {:?}", other),
    }
    assert_eq!(tty.last_buffer_start(), 11);
    assert!(matches!(tty.wait_string(value("more"), "READY"), Poll::Pending));
}

#[test]
fn lost_event_loop_ends_a_wait() {
    let mut tty: Tty<Utf8> = Tty::new(setting(true));
    assert!(matches!(
        tty.wait_string(ReadReply::Disconnected, "x"),
        Poll::Ready(Err(ConsoleError::Timeout))
    ));
    assert!(matches!(
        tty.wait_string(ReadReply::Other, "x"),
        Poll::Ready(Err(ConsoleError::Timeout))
    ));
}

#[test]
fn consume_and_map_cuts_only_on_a_value() {
    let mut tty: Tty<Utf8> = Tty::new(setting(true));
    let r = tty.consume_and_map(value("ab"), |buffer: &[u8], new: &[u8]| {
        assert_eq!(buffer, b"ab");
        assert_eq!(new, b"ab");
        ConsumeAction::<usize>::Continue
    });
    assert!(matches!(r, Poll::Pending));
    assert_eq!(tty.last_buffer_start(), 0);
    let r = tty.consume_and_map(value("cd"), |buffer: &[u8], new: &[u8]| {
        assert_eq!(new, b"cd");
        ConsumeAction::BreakValue(buffer.len())
    });
    assert!(matches!(r, Poll::Ready(Ok(4))));
    assert_eq!(tty.last_buffer_start(), 4);
    let r = tty.consume_and_map(value("e"), |buffer: &[u8], _new: &[u8]| {
        assert_eq!(buffer, b"e");
        ConsumeAction::<usize>::Cancel
    });
    assert!(matches!(r, Poll::Ready(Err(ConsoleError::Cancel))));
    assert_eq!(tty.last_buffer_start(), 4);
}

#[test]
fn write_requests_carry_the_bytes() {
    let tty: Tty<Utf8> = Tty::new(setting(true));
    assert!(matches!(tty.write(b"ls\r"), Req::Write(b) if b == b"ls\r".to_vec()));
    assert!(matches!(tty.write_string("l\u{e9}"), Req::Write(b) if b == "l\u{e9}".as_bytes().to_vec()));
    assert!(matches!(tty.stop_evloop(), Req::Stop));
    assert!(Tty::<Utf8>::written(true).is_ok());
    assert!(matches!(Tty::<Utf8>::written(false), Err(ConsoleError::Timeout)));
    assert_eq!(chars_of("ok"), vec!['o', 'k']);
}
