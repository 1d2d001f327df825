//! Decoders of console output: what a terminal would show of the bytes that
//! a console sends.

use crate::tty::{exec_tick, wait_tick, Poll, StateView, Term};
use vstd::prelude::*;

verus! {

/// The byte that begins an escape sequence.
pub const ESC: u8 = 0x1b;

/// The byte that ends an operating system command.
pub const BEL: u8 = 0x07;

/// Where a reader of console output stands between two bytes.
#[derive(Debug, Clone, Copy, PartialEq, Eq, Structural)]
pub enum Reading {
    /// In text.
    Text,
    /// Behind the byte that begins an escape sequence.
    Escape,
    /// In a control sequence, which ends with a byte from `@` to `~`.
    Control,
    /// In an operating system command, which ends with a bell or with an
    /// escape and one more byte.
    Command,
    /// Behind an escape in an operating system command.
    CommandEscape,
}

/// Where the reader stands behind `byte`.
pub open spec fn read_next(state: Reading, byte: u8) -> Reading {
    match state {
        Reading::Text => if byte == ESC {
            Reading::Escape
        } else {
            Reading::Text
        },
        Reading::Escape => if byte == 0x5b {
            Reading::Control
        } else if byte == 0x5d {
            Reading::Command
        } else {
            Reading::Text
        },
        Reading::Control => if 0x40 <= byte <= 0x7e {
            Reading::Text
        } else {
            Reading::Control
        },
        Reading::Command => if byte == BEL {
            Reading::Text
        } else if byte == ESC {
            Reading::CommandEscape
        } else {
            Reading::Command
        },
        Reading::CommandEscape => Reading::Text,
    }
}

/// Whether `byte`, met in `state`, is text: it is, unless it belongs to an
/// escape sequence.
pub open spec fn is_shown(state: Reading, byte: u8) -> bool {
    state is Text && byte != ESC
}

/// The text among the first `n` bytes, for a reader that began in `state`,
/// and where the reader stands behind them.
pub open spec fn read_through(bytes: Seq<u8>, state: Reading, n: int) -> (Seq<u8>, Reading)
    decreases n,
{
    if n <= 0 || n > bytes.len() {
        (Seq::<u8>::empty(), state)
    } else {
        let (text, at) = read_through(bytes, state, n - 1);
        (
            if is_shown(at, bytes[n - 1]) {
                text.push(bytes[n - 1])
            } else {
                text
            },
            read_next(at, bytes[n - 1]),
        )
    }
}

/// The bytes without the escape sequences among them: control sequences
/// (escape, `[`, up to a byte from `@` to `~`), operating system commands
/// (escape, `]`, up to a bell or an escape and one more byte) and escapes of
/// two bytes.
pub open spec fn stripped(bytes: Seq<u8>) -> Seq<u8> {
    read_through(bytes, Reading::Text, bytes.len() as int).0
}

/// Takes the escape sequences out of console output.
pub fn strip_escapes(bytes: &[u8]) -> (text: Vec<u8>)
    ensures
        text@ == stripped(bytes@),
{
    let n: usize = bytes.len();
    let mut text: Vec<u8> = Vec::new();
    let mut state = Reading::Text;
    let mut i: usize = 0;
    while i < n
        invariant
            n == bytes@.len(),
            i <= n,
            (text@, state) == read_through(bytes@, Reading::Text, i as int),
        decreases n - i,
    {
        let byte = bytes[i];
        let next = match state {
            Reading::Text => {
                if byte == ESC {
                    Reading::Escape
                } else {
                    text.push(byte);
                    Reading::Text
                }
            },
            Reading::Escape => {
                if byte == 0x5b {
                    Reading::Control
                } else if byte == 0x5d {
                    Reading::Command
                } else {
                    Reading::Text
                }
            },
            Reading::Control => {
                if 0x40 <= byte && byte <= 0x7e {
                    Reading::Text
                } else {
                    Reading::Control
                }
            },
            Reading::Command => {
                if byte == BEL {
                    Reading::Text
                } else if byte == ESC {
                    Reading::CommandEscape
                } else {
                    Reading::Command
                }
            },
            Reading::CommandEscape => Reading::Text,
        };
        state = next;
        i += 1;
    }
    text
}

/// Bytes without an escape among them are text as they stand.
pub proof fn lemma_plain_text_is_kept(bytes: Seq<u8>, n: int)
    requires
        0 <= n <= bytes.len(),
        forall|i: int| 0 <= i < n ==> bytes[i] != ESC,
    ensures
        read_through(bytes, Reading::Text, n) == (bytes.take(n), Reading::Text),
    decreases n,
{
    if n > 0 {
        lemma_plain_text_is_kept(bytes, n - 1);
        assert(bytes.take(n - 1).push(bytes[n - 1]) =~= bytes.take(n));
    } else {
        assert(bytes.take(0) =~= Seq::<u8>::empty());
    }
}

/// The text that `bytes` write in UTF-8, with the replacement character in
/// the place of whatever is no UTF-8.
pub uninterp spec fn utf8_lossy(bytes: Seq<u8>) -> Seq<char>;

/// Decodes with `String::from_utf8_lossy`, whose outcome depends on the bytes
/// alone; it is named [`utf8_lossy`].
#[verifier::external_body]
fn decode_lossy(bytes: &[u8]) -> (text: String)
    ensures
        text@ == utf8_lossy(bytes@),
{
    String::from_utf8_lossy(bytes).into_owned()
}

/// Shows the bytes as text, escape sequences and all.
pub struct General;

/// Shows the bytes as text without the escape sequences among them.
pub struct Ansi;

/// Decodes console output as it stands.
pub fn decode_general(bytes: &[u8]) -> (text: String)
    ensures
        text@ == utf8_lossy(bytes@),
{
    decode_lossy(bytes)
}

/// Decodes console output without its escape sequences.
pub fn decode_ansi(bytes: &[u8]) -> (text: String)
    ensures
        text@ == utf8_lossy(stripped(bytes@)),
{
    let text = strip_escapes(bytes);
    decode_lossy(text.as_slice())
}

impl Term for General {
    /// The text that the bytes write in UTF-8, escape sequences and all.
    fn parse_and_strip(bytes: &[u8]) -> (text: String)
        ensures
            text@ == utf8_lossy(bytes@),
    {
        decode_general(bytes)
    }
}

impl Term for Ansi {
    /// The text that the bytes write in UTF-8 once their escape sequences
    /// are taken out.
    fn parse_and_strip(bytes: &[u8]) -> (text: String)
        ensures
            text@ == utf8_lossy(stripped(bytes@)),
    {
        decode_ansi(bytes)
    }
}

/// A wait on a terminal that takes the escape sequences out searches the
/// text of the bytes behind the cut without their escape sequences: what a
/// tick of [`crate::tty::Tty::wait_string`] promises of the terminal's text,
/// it promises of that text.
pub proof fn lemma_ansi_wait_reads_stripped_text(
    before: StateView,
    recv: Seq<u8>,
    pattern: Seq<char>,
    after: StateView,
    r: Poll<String>,
    buffer: &[u8],
    shown: String,
)
    requires
        buffer@ == before.received(recv).buffer(),
        call_ensures(Ansi::parse_and_strip, (buffer,), shown),
        wait_tick(before, recv, pattern, shown@, after, r),
    ensures
        shown@ == utf8_lossy(stripped(before.received(recv).buffer())),
        wait_tick(
            before,
            recv,
            pattern,
            utf8_lossy(stripped(before.received(recv).buffer())),
            after,
            r,
        ),
{
}

/// A wait for a command's answer on a terminal that takes the escape
/// sequences out scans the text of the bytes behind the cut without their
/// escape sequences.
pub proof fn lemma_ansi_answer_is_read_from_stripped_text(
    before: StateView,
    recv: Seq<u8>,
    left: Seq<char>,
    right: Seq<char>,
    after: StateView,
    r: Poll<(i32, String)>,
    buffer: &[u8],
    shown: String,
)
    requires
        buffer@ == before.received(recv).buffer(),
        call_ensures(Ansi::parse_and_strip, (buffer,), shown),
        exec_tick(before, recv, left, right, shown@, after, r),
    ensures
        shown@ == utf8_lossy(stripped(before.received(recv).buffer())),
        exec_tick(
            before,
            recv,
            left,
            right,
            utf8_lossy(stripped(before.received(recv).buffer())),
            after,
            r,
        ),
{
}

/// A wait on a terminal that reads the bytes as they are searches the text
/// of the bytes behind the cut, escape sequences and all.
pub proof fn lemma_general_wait_reads_whole_text(
    before: StateView,
    recv: Seq<u8>,
    pattern: Seq<char>,
    after: StateView,
    r: Poll<String>,
    buffer: &[u8],
    shown: String,
)
    requires
        buffer@ == before.received(recv).buffer(),
        call_ensures(General::parse_and_strip, (buffer,), shown),
        wait_tick(before, recv, pattern, shown@, after, r),
    ensures
        shown@ == utf8_lossy(before.received(recv).buffer()),
        wait_tick(before, recv, pattern, utf8_lossy(before.received(recv).buffer()), after, r),
{
}

} // verus!
