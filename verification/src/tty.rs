//! Line-oriented conversation with a shell behind a byte-stream console.
//!
//! A [`Tty`] keeps what the console has sent, cut behind the last text that a
//! wait or a command has consumed, and decides tick by tick how a wait goes
//! on. The caller keeps the clock, sleeps and talks to the console's event
//! loop.

use crate::evloop::{deadline_after, Req};
use crate::text::{
    all_digits, assert_capture_between, capture_between, chars_of, count_substring,
    decimal_digits, find_from, is_digit, lemma_count_skips_to_first, lemma_decimal_round_trip,
    occurs_at, parse_i32, parse_i32_spec,
};
use core::marker::PhantomData;
use vstd::prelude::*;
use vstd::slice::{slice_subrange, slice_to_vec};
use vstd::string::{StrSliceExecFns, StringExecFns, StringSliceAdditionalSpecFns};

verus! {

/// Pause before a command is written, so that the prompt is on screen, in
/// milliseconds.
pub const EXEC_SETTLE_MS: u64 = 70;

/// Pause before each read of a wait, in milliseconds.
pub const POLL_INTERVAL_MS: u64 = 1000;

/// How long a wait lets one read take, in milliseconds.
pub const READ_TIMEOUT_MS: u64 = 1000;

/// Number of characters in the tag that frames a command's output.
pub const TAG_LEN: usize = 6;

/// How the terminal behind a console treats what is typed into it.
pub struct TtySetting {
    /// The terminal does not echo input back.
    pub disable_echo: bool,
    /// What the terminal sends at the end of a line.
    pub linebreak: String,
}

/// Why an operation on a console failed.
#[derive(Debug)]
pub enum ConsoleError {
    /// The deadline came before the operation succeeded.
    Timeout,
    /// A stop was asked for while the operation waited.
    Cancel,
    /// The console is not there or could not be opened.
    NoConnection(String),
}

/// What to tell a person about an error.
pub open spec fn error_text(e: ConsoleError) -> Seq<char> {
    match e {
        ConsoleError::Timeout => "timeout"@,
        ConsoleError::Cancel => "cancel"@,
        ConsoleError::NoConnection(reason) => "no connection, "@ + reason@,
    }
}

impl ConsoleError {
    /// What to tell a person about this error.
    pub fn describe(&self) -> (text: String)
        ensures
            text@ == error_text(*self),
    {
        match self {
            ConsoleError::Timeout => String::from_str("timeout"),
            ConsoleError::Cancel => String::from_str("cancel"),
            ConsoleError::NoConnection(reason) => {
                let mut text = String::from_str("no connection, ");
                text.append(reason.as_str());
                text
            },
        }
    }
}

/// A terminal's way of turning raw console output into the text that waits
/// search. What the text is, is for each terminal to say: one may read the
/// bytes as they are, another may leave out the escape sequences among them.
pub trait Term {
    /// The text that stands for `bytes`.
    fn parse_and_strip(bytes: &[u8]) -> String;
}

/// What a scan of the console's text decides.
#[derive(Debug)]
pub enum ConsumeAction<T> {
    /// The wait is over with this value.
    BreakValue(T),
    /// Nothing yet: wait on.
    Continue,
    /// Give the wait up.
    Cancel,
}

/// What the event loop answered to the `Read` request of one tick.
#[derive(Debug)]
pub enum ReadReply {
    /// The bytes that are new since the previous read.
    Value(Vec<u8>),
    /// An answer that is no value.
    Other,
    /// No answer came in time.
    TimedOut,
    /// The event loop is gone.
    Disconnected,
}

/// Where a wait stands after one tick.
#[derive(Debug)]
pub enum Poll<V> {
    /// The wait is over.
    Ready(Result<V, ConsoleError>),
    /// The wait goes on with another tick.
    Pending,
}

/// The instant at which a wait that starts at `now` gives up.
pub fn deadline(now: u64, timeout: u64) -> (d: u64)
    ensures
        d == deadline_after(now, timeout),
{
    now.saturating_add(timeout)
}

/// Decides at the start of a tick whether the wait ends before it reads: a
/// stop cancels it, and past the deadline it has timed out. The stop is looked
/// at first.
pub fn before_read(stop: bool, now: u64, deadline: u64) -> (r: Option<ConsoleError>)
    ensures
        stop ==> r == Some(ConsoleError::Cancel),
        !stop && now > deadline ==> r == Some(ConsoleError::Timeout),
        !stop && now <= deadline ==> r is None,
{
    if stop {
        Some(ConsoleError::Cancel)
    } else if now > deadline {
        Some(ConsoleError::Timeout)
    } else {
        None
    }
}

/// What a wait does with the answer of a scan.
pub open spec fn poll_of<V>(action: ConsumeAction<V>) -> Poll<V> {
    match action {
        ConsumeAction::BreakValue(v) => Poll::Ready(Ok(v)),
        ConsumeAction::Continue => Poll::Pending,
        ConsumeAction::Cancel => Poll::Ready(Err(ConsoleError::Cancel)),
    }
}

/// Abstract state of a [`State`].
pub struct StateView {
    /// Every byte that the reads of this console's waits have delivered.
    pub history: Seq<u8>,
    /// The cut: where the text begins that the next scan looks at.
    pub last_buffer_start: nat,
}

impl StateView {
    /// The bytes behind the cut.
    pub open spec fn buffer(self) -> Seq<u8> {
        self.history.subrange(self.last_buffer_start as int, self.history.len() as int)
    }

    /// The state after `recv` has arrived.
    pub open spec fn received(self, recv: Seq<u8>) -> StateView {
        StateView { history: self.history + recv, ..self }
    }

    /// The state after the cut has moved behind everything received.
    pub open spec fn cut(self) -> StateView {
        StateView { last_buffer_start: self.history.len(), ..self }
    }

    /// The state after a tick that received `recv` and whose scan ended the
    /// wait with a value (`matched`) or did not.
    pub open spec fn after_tick(self, recv: Seq<u8>, matched: bool) -> StateView {
        if matched {
            self.received(recv).cut()
        } else {
            self.received(recv)
        }
    }
}

/// What a console has delivered, and the cut behind the last match.
pub struct State {
    /// The history before the cut.
    consumed: Vec<u8>,
    /// The history behind the cut.
    pending: Vec<u8>,
}

impl View for State {
    type V = StateView;

    closed spec fn view(&self) -> StateView {
        StateView {
            history: self.consumed@ + self.pending@,
            last_buffer_start: self.consumed@.len(),
        }
    }
}

impl State {
    /// The state of a console that has delivered nothing.
    pub fn new() -> (s: State)
        ensures
            s@.history == Seq::<u8>::empty(),
            s@.last_buffer_start == 0,
    {
        State { consumed: Vec::new(), pending: Vec::new() }
    }

    /// The whole history.
    pub fn history(&self) -> (h: Vec<u8>)
        ensures
            h@ == self@.history,
    {
        let mut h = slice_to_vec(self.consumed.as_slice());
        h.extend_from_slice(self.pending.as_slice());
        assert(h@ =~= self.consumed@ + self.pending@);
        h
    }

    /// The cut.
    pub fn last_buffer_start(&self) -> (i: usize)
        ensures
            i == self@.last_buffer_start,
            i <= self@.history.len(),
    {
        self.consumed.len()
    }

    /// The bytes behind the cut.
    pub fn buffer(&self) -> (b: &[u8])
        ensures
            b@ == self@.buffer(),
    {
        assert(self.pending@ =~= self@.buffer());
        self.pending.as_slice()
    }

    /// Appends newly delivered bytes to the history.
    pub fn receive(&mut self, recv: &[u8])
        ensures
            final(self)@ == old(self)@.received(recv@),
    {
        self.pending.extend_from_slice(recv);
        assert(self@.history =~= old(self)@.history + recv@);
    }

    /// Moves the cut behind everything delivered so far.
    pub fn cut(&mut self)
        ensures
            final(self)@ == old(self)@.cut(),
    {
        self.consumed.append(&mut self.pending);
        assert(self@.history =~= old(self)@.history);
    }
}

/// The text contains `pattern`.
pub open spec fn contains(text: Seq<char>, pattern: Seq<char>) -> bool {
    find_from(text, pattern, 0) is Some
}

/// The scan of a wait for `pattern`: the wait is over, with the whole text,
/// as soon as the text contains the pattern.
pub fn wait_scan(text: String, pattern: &str) -> (a: ConsumeAction<String>)
    ensures
        contains(text@, pattern@) ==> a == ConsumeAction::BreakValue(text),
        !contains(text@, pattern@) ==> a is Continue,
{
    proof {
        if pattern@.len() > 0 {
            lemma_count_skips_to_first(text@, pattern@, 0);
        } else {
            assert(occurs_at(text@, pattern@, 0));
        }
    }
    if count_substring(text.as_str(), pattern, 1) {
        ConsumeAction::BreakValue(text)
    } else {
        ConsumeAction::Continue
    }
}

/// The separator between a command's output and its exit code.
pub const RES_FLAG_SEP: char = '-';

/// The last position of `c` in `s`.
pub open spec fn last_position(s: Seq<char>, c: char) -> Option<int>
    decreases s.len(),
{
    if s.len() == 0 {
        None
    } else if s.last() == c {
        Some(s.len() - 1)
    } else {
        last_position(s.drop_last(), c)
    }
}

/// The exit code and the output that a captured answer holds.
///
/// The answer is split at its last separator: what follows is the exit code,
/// what precedes is the output. An answer without a separator that is a number
/// is an exit code without output. An answer whose code cannot be read is
/// handed back whole, with the code 1.
pub open spec fn exit_code_and_output(captured: Seq<char>) -> (i32, Seq<char>) {
    match last_position(captured, RES_FLAG_SEP) {
        Some(i) => match parse_i32_spec(captured.subrange(i + 1, captured.len() as int)) {
            Some(code) => (code, captured.subrange(0, i)),
            None => (1, captured),
        },
        None => match parse_i32_spec(captured) {
            Some(code) => (code, Seq::<char>::empty()),
            None => (1, captured),
        },
    }
}

/// What the scan of a command's output decides on the text behind the cut.
///
/// While the anchors frame nothing the wait goes on. Exactly one framed answer
/// ends it with the answer's exit code and output. A second framed answer
/// means that the terminal is garbled: that ends the wait with the code 1.
pub open spec fn exec_scan_spec(text: Seq<char>, left: Seq<char>, right: Seq<char>) -> ConsumeAction<
    (i32, Seq<char>),
> {
    match capture_between(text, left, right) {
        Err(_) => ConsumeAction::BreakValue((1, "invalid consume regex"@)),
        Ok(None) => ConsumeAction::Continue,
        Ok(Some((_, captured))) => ConsumeAction::BreakValue(exit_code_and_output(captured)),
    }
}

/// Finds the last position of `c` in `s`.
fn rfind_char(s: &[char], c: char) -> (r: Option<usize>)
    ensures
        match r {
            Some(i) => last_position(s@, c) == Some(i as int) && i < s@.len(),
            None => last_position(s@, c) is None,
        },
{
    let mut k: usize = s.len();
    assert(s@.take(k as int) =~= s@);
    while k > 0
        invariant
            k <= s@.len(),
            last_position(s@, c) == last_position(s@.take(k as int), c),
        decreases k,
    {
        if s[k - 1] == c {
            return Some(k - 1);
        }
        assert(s@.take(k as int).drop_last() =~= s@.take(k - 1));
        k -= 1;
    }
    None
}

/// Splits a captured answer into exit code and output.
pub fn split_exit_code(captured: String) -> (r: (i32, String))
    ensures
        r.0 == exit_code_and_output(captured@).0,
        r.1@ == exit_code_and_output(captured@).1,
{
    let chars = chars_of(captured.as_str());
    let len: usize = chars.len();
    match rfind_char(chars.as_slice(), RES_FLAG_SEP) {
        Some(i) => {
            match parse_i32(slice_subrange(chars.as_slice(), i + 1, len)) {
                Some(code) => (code, captured.as_str().substring_char(0, i).to_owned()),
                None => (1, captured),
            }
        },
        None => {
            match parse_i32(chars.as_slice()) {
                Some(code) => (code, String::new()),
                None => (1, captured),
            }
        },
    }
}

/// Scans the text behind the cut for the framed answer of a command.
pub fn exec_scan(text: &str, left: &str, right: &str) -> (a: ConsumeAction<(i32, String)>)
    ensures
        match exec_scan_spec(text@, left@, right@) {
            ConsumeAction::BreakValue((code, output)) => {
                &&& a matches ConsumeAction::BreakValue((c, o))
                &&& c == code
                &&& o@ == output
            },
            ConsumeAction::Continue => a is Continue,
            ConsumeAction::Cancel => a is Cancel,
        },
{
    match assert_capture_between(text, left, right) {
        Err(_) => ConsumeAction::BreakValue((1, String::from_str("invalid consume regex"))),
        Ok(None) => ConsumeAction::Continue,
        Ok(Some((_, captured))) => ConsumeAction::BreakValue(split_exit_code(captured)),
    }
}

/// `c` may stand in a tag: a letter or digit of ASCII, `_` or `-`.
pub open spec fn is_tag_char(c: char) -> bool {
    ||| 'a' <= c <= 'z'
    ||| 'A' <= c <= 'Z'
    ||| '0' <= c <= '9'
    ||| c == '_'
    ||| c == '-'
}

/// `tag` is a tag of `len` characters.
pub open spec fn is_tag(tag: Seq<char>, len: nat) -> bool {
    &&& tag.len() == len
    &&& forall|i: int| 0 <= i < tag.len() ==> is_tag_char(#[trigger] tag[i])
}

/// Draws a random tag with `nanoid::format`, fed by `nanoid::rngs::default`
/// and `nanoid::alphabet::SAFE`. The claim, read off that function: it returns
/// as soon as it has pushed `size` characters, each of them taken from the
/// alphabet, which holds the 64 characters of [`is_tag_char`]. The sizes left
/// out are those on which it would not return (0) or overflow.
#[verifier::external_body]
fn random_tag(size: usize) -> (tag: String)
    requires
        0 < size <= 0x0fff_ffff,
    ensures
        is_tag(tag@, size as nat),
{
    nanoid::format(nanoid::rngs::default, &nanoid::alphabet::SAFE, size)
}

/// The command line that runs `cmd` so that its output and exit code come
/// back framed by `tag`.
pub open spec fn wrapped_command(disable_echo: bool, tag: Seq<char>, cmd: Seq<char>) -> Seq<char> {
    if disable_echo {
        "echo "@ + tag + "; "@ + cmd + "; echo -$?"@ + tag + "\r"@
    } else {
        cmd + "; echo -$?"@ + tag + "\r"@
    }
}

/// What stands before a command's answer on the terminal.
pub open spec fn left_anchor(disable_echo: bool, linebreak: Seq<char>, tag: Seq<char>) -> Seq<char> {
    if disable_echo {
        tag + linebreak
    } else {
        tag + linebreak + "\r"@
    }
}

/// What stands behind a command's answer on the terminal.
pub open spec fn right_anchor(linebreak: Seq<char>, tag: Seq<char>) -> Seq<char> {
    tag + linebreak
}

/// A command ready to be written, with the anchors that frame its answer.
#[derive(Debug)]
pub struct ExecPlan {
    /// The tag that marks this run of the command.
    pub tag: String,
    /// What to write to the console.
    pub cmd: String,
    /// What stands before the answer.
    pub match_left: String,
    /// What stands behind the answer.
    pub match_right: String,
}

impl ExecPlan {
    /// The plan is the one that `setting`, `tag` and `cmd` determine.
    pub open spec fn is_plan_for(self, setting: TtySetting, tag: Seq<char>, cmd: Seq<char>) -> bool {
        &&& self.tag@ == tag
        &&& self.cmd@ == wrapped_command(setting.disable_echo, tag, cmd)
        &&& self.match_left@ == left_anchor(setting.disable_echo, setting.linebreak@, tag)
        &&& self.match_right@ == right_anchor(setting.linebreak@, tag)
    }
}

/// Wraps `cmd` for a terminal with this setting, framed by `tag`.
pub fn exec_plan(setting: &TtySetting, tag: &str, cmd: &str) -> (plan: ExecPlan)
    ensures
        plan.is_plan_for(*setting, tag@, cmd@),
{
    let mut line = if setting.disable_echo {
        let mut line = String::from_str("echo ");
        line.append(tag);
        line.append("; ");
        line.append(cmd);
        line
    } else {
        String::from_str(cmd)
    };
    line.append("; echo -$?");
    line.append(tag);
    line.append("\r");
    let mut right = String::from_str(tag);
    right.append(setting.linebreak.as_str());
    let mut left = String::from_str(tag);
    left.append(setting.linebreak.as_str());
    if !setting.disable_echo {
        left.append("\r");
    }
    ExecPlan { tag: String::from_str(tag), cmd: line, match_left: left, match_right: right }
}

/// One console's conversation state, for a terminal decoded by `T`.
pub struct Tty<T: Term> {
    state: State,
    setting: TtySetting,
    phantom: PhantomData<T>,
}

impl<T: Term> View for Tty<T> {
    type V = StateView;

    closed spec fn view(&self) -> StateView {
        self.state@
    }
}

impl<T: Term> Tty<T> {
    /// The setting this console was made with.
    pub closed spec fn setting(&self) -> TtySetting {
        self.setting
    }

    /// A console that has delivered nothing yet.
    pub fn new(setting: TtySetting) -> (tty: Self)
        ensures
            tty@.history == Seq::<u8>::empty(),
            tty@.last_buffer_start == 0,
            tty.setting() == setting,
    {
        Tty { state: State::new(), setting, phantom: PhantomData }
    }

    /// The whole history.
    pub fn history(&self) -> (h: Vec<u8>)
        ensures
            h@ == self@.history,
    {
        self.state.history()
    }

    /// The cut.
    pub fn last_buffer_start(&self) -> (i: usize)
        ensures
            i == self@.last_buffer_start,
            i <= self@.history.len(),
    {
        self.state.last_buffer_start()
    }

    /// The request that ends the console's event loop.
    pub fn stop_evloop(&self) -> (req: Req)
        ensures
            req == Req::Stop,
    {
        Req::Stop
    }

    /// The request that writes `s` to the console.
    pub fn write(&self, s: &[u8]) -> (req: Req)
        ensures
            req matches Req::Write(bytes) && bytes@ == s@,
    {
        Req::Write(slice_to_vec(s))
    }

    /// The request that writes the text `s` to the console, as UTF-8.
    pub fn write_string(&self, s: &str) -> (req: Req)
        ensures
            req matches Req::Write(bytes) && bytes@ == s.spec_bytes(),
    {
        Req::Write(s.as_bytes_vec())
    }

    /// What a write has come to: it fails with a timeout unless the event
    /// loop answered in time.
    pub fn written(answered: bool) -> (r: Result<(), ConsoleError>)
        ensures
            answered ==> r is Ok,
            !answered ==> r == Err::<(), ConsoleError>(ConsoleError::Timeout),
    {
        if answered {
            Ok(())
        } else {
            Err(ConsoleError::Timeout)
        }
    }

    /// One tick of a wait, after its read: takes in what the read delivered
    /// and lets `f` scan the bytes behind the cut.
    ///
    /// An empty or late answer leaves everything as it is and the wait goes
    /// on. An answer that is no value, or a lost event loop, ends the wait as
    /// timed out. New bytes are appended to the history, then `f` sees the
    /// bytes behind the cut and the new bytes: if it ends the wait with a
    /// value the cut moves behind everything received, so that the next wait
    /// does not see this text again; otherwise the cut stays.
    pub fn consume_and_map<V, F: Fn(&[u8], &[u8]) -> ConsumeAction<V>>(
        &mut self,
        reply: ReadReply,
        f: F,
    ) -> (r: Poll<V>)
        requires
            forall|buffer: &[u8], new: &[u8]| call_requires(f, (buffer, new)),
        ensures
            final(self).setting() == old(self).setting(),
            match reply {
                ReadReply::Value(recv) => if recv@.len() == 0 {
                    r is Pending && final(self)@ == old(self)@
                } else {
                    exists|buffer: &[u8], new: &[u8], action: ConsumeAction<V>|
                        {
                            &&& buffer@ == old(self)@.received(recv@).buffer()
                            &&& new@ == recv@
                            &&& call_ensures(f, (buffer, new), action)
                            &&& r == poll_of(action)
                            &&& final(self)@ == old(self)@.after_tick(recv@, action is BreakValue)
                        }
                },
                ReadReply::TimedOut => r is Pending && final(self)@ == old(self)@,
                ReadReply::Other | ReadReply::Disconnected => {
                    &&& r == Poll::<V>::Ready(Err(ConsoleError::Timeout))
                    &&& final(self)@ == old(self)@
                },
            },
    {
        match reply {
            ReadReply::Value(recv) => {
                if recv.len() == 0 {
                    return Poll::Pending;
                }
                self.state.receive(recv.as_slice());
                let action = f(self.state.buffer(), recv.as_slice());
                match action {
                    ConsumeAction::BreakValue(v) => {
                        self.state.cut();
                        Poll::Ready(Ok(v))
                    },
                    ConsumeAction::Continue => Poll::Pending,
                    ConsumeAction::Cancel => Poll::Ready(Err(ConsoleError::Cancel)),
                }
            },
            ReadReply::TimedOut => Poll::Pending,
            ReadReply::Other => Poll::Ready(Err(ConsoleError::Timeout)),
            ReadReply::Disconnected => Poll::Ready(Err(ConsoleError::Timeout)),
        }
    }
}

/// What a tick of [`Tty::wait_string`] comes to when new bytes have arrived
/// and the terminal shows `text` for the bytes behind the cut.
pub open spec fn wait_tick(
    before: StateView,
    recv: Seq<u8>,
    pattern: Seq<char>,
    text: Seq<char>,
    after: StateView,
    r: Poll<String>,
) -> bool {
    if contains(text, pattern) {
        &&& r matches Poll::Ready(Ok(v))
        &&& v@ == text
        &&& after == before.after_tick(recv, true)
    } else {
        &&& r is Pending
        &&& after == before.after_tick(recv, false)
    }
}

/// What a tick of [`Tty::exec_poll`] comes to when new bytes have arrived and
/// the terminal shows `text` for the bytes behind the cut.
pub open spec fn exec_tick(
    before: StateView,
    recv: Seq<u8>,
    left: Seq<char>,
    right: Seq<char>,
    text: Seq<char>,
    after: StateView,
    r: Poll<(i32, String)>,
) -> bool {
    match exec_scan_spec(text, left, right) {
        ConsumeAction::BreakValue((code, output)) => {
            &&& r matches Poll::Ready(Ok((c, o)))
            &&& c == code
            &&& o@ == output
            &&& after == before.after_tick(recv, true)
        },
        _ => {
            &&& r is Pending
            &&& after == before.after_tick(recv, false)
        },
    }
}

impl<T: Term> Tty<T> {
    /// One tick of a wait for `pattern`, after its read.
    ///
    /// New bytes are appended to the history, and the terminal is asked for
    /// the text of the bytes behind the cut, the new ones included. If that
    /// text contains the pattern the wait is over with the text, and the cut
    /// moves behind everything received. Otherwise the wait goes on and the
    /// cut stays. Without new bytes nothing changes; an answer that is no
    /// value, or a lost event loop, ends the wait as timed out.
    pub fn wait_string(&mut self, reply: ReadReply, pattern: &str) -> (r: Poll<String>)
        ensures
            final(self).setting() == old(self).setting(),
            match reply {
                ReadReply::Value(recv) => if recv@.len() == 0 {
                    r is Pending && final(self)@ == old(self)@
                } else {
                    exists|buffer: &[u8], shown: String|
                        {
                            &&& buffer@ == old(self)@.received(recv@).buffer()
                            &&& call_ensures(T::parse_and_strip, (buffer,), shown)
                            &&& wait_tick(old(self)@, recv@, pattern@, shown@, final(self)@, r)
                        }
                },
                ReadReply::TimedOut => r is Pending && final(self)@ == old(self)@,
                ReadReply::Other | ReadReply::Disconnected => {
                    &&& r == Poll::<String>::Ready(Err(ConsoleError::Timeout))
                    &&& final(self)@ == old(self)@
                },
            },
    {
        match reply {
            ReadReply::Value(recv) => {
                if recv.len() == 0 {
                    return Poll::Pending;
                }
                self.state.receive(recv.as_slice());
                let buffer = self.state.buffer();
                let ghost seen = buffer;
                let text = T::parse_and_strip(buffer);
                let ghost shown = text;
                let r = match wait_scan(text, pattern) {
                    ConsumeAction::BreakValue(v) => {
                        self.state.cut();
                        Poll::Ready(Ok(v))
                    },
                    _ => Poll::Pending,
                };
                assert({
                    &&& seen@ == old(self)@.received(recv@).buffer()
                    &&& call_ensures(T::parse_and_strip, (seen,), shown)
                    &&& wait_tick(old(self)@, recv@, pattern@, shown@, self@, r)
                });
                r
            },
            ReadReply::TimedOut => Poll::Pending,
            ReadReply::Other => Poll::Ready(Err(ConsoleError::Timeout)),
            ReadReply::Disconnected => Poll::Ready(Err(ConsoleError::Timeout)),
        }
    }

    /// Prepares the run of `cmd`: draws a fresh tag and wraps the command for
    /// this console's terminal. The caller waits [`EXEC_SETTLE_MS`], writes
    /// the plan's command and polls with [`Tty::exec_poll`].
    pub fn exec(&self, cmd: &str) -> (plan: ExecPlan)
        ensures
            is_tag(plan.tag@, TAG_LEN as nat),
            plan.is_plan_for(self.setting(), plan.tag@, cmd@),
    {
        let tag = random_tag(TAG_LEN);
        exec_plan(&self.setting, tag.as_str(), cmd)
    }

    /// One tick of the wait for a command's answer, after its read.
    ///
    /// New bytes are appended to the history, the terminal is asked for the
    /// text of the bytes behind the cut, the new ones included, and that text
    /// is scanned as [`exec_scan_spec`] says. When the scan ends the
    /// wait, the cut moves behind everything received; while it does not, the
    /// cut stays, so that a command that times out leaves its text to the next
    /// wait. Without new bytes nothing changes; an answer that is no value, or
    /// a lost event loop, ends the wait as timed out.
    pub fn exec_poll(&mut self, reply: ReadReply, plan: &ExecPlan) -> (r: Poll<(i32, String)>)
        ensures
            final(self).setting() == old(self).setting(),
            match reply {
                ReadReply::Value(recv) => if recv@.len() == 0 {
                    r is Pending && final(self)@ == old(self)@
                } else {
                    exists|buffer: &[u8], shown: String|
                        {
                            &&& buffer@ == old(self)@.received(recv@).buffer()
                            &&& call_ensures(T::parse_and_strip, (buffer,), shown)
                            &&& exec_tick(
                                old(self)@,
                                recv@,
                                plan.match_left@,
                                plan.match_right@,
                                shown@,
                                final(self)@,
                                r,
                            )
                        }
                },
                ReadReply::TimedOut => r is Pending && final(self)@ == old(self)@,
                ReadReply::Other | ReadReply::Disconnected => {
                    &&& r == Poll::<(i32, String)>::Ready(Err(ConsoleError::Timeout))
                    &&& final(self)@ == old(self)@
                },
            },
    {
        match reply {
            ReadReply::Value(recv) => {
                if recv.len() == 0 {
                    return Poll::Pending;
                }
                self.state.receive(recv.as_slice());
                let buffer = self.state.buffer();
                let ghost seen = buffer;
                let text = T::parse_and_strip(buffer);
                let r = match exec_scan(
                    text.as_str(),
                    plan.match_left.as_str(),
                    plan.match_right.as_str(),
                ) {
                    ConsumeAction::BreakValue(v) => {
                        self.state.cut();
                        Poll::Ready(Ok(v))
                    },
                    _ => Poll::Pending,
                };
                assert({
                    &&& seen@ == old(self)@.received(recv@).buffer()
                    &&& call_ensures(T::parse_and_strip, (seen,), text)
                    &&& exec_tick(
                        old(self)@,
                        recv@,
                        plan.match_left@,
                        plan.match_right@,
                        text@,
                        self@,
                        r,
                    )
                });
                r
            },
            ReadReply::TimedOut => Poll::Pending,
            ReadReply::Other => Poll::Ready(Err(ConsoleError::Timeout)),
            ReadReply::Disconnected => Poll::Ready(Err(ConsoleError::Timeout)),
        }
    }
}

/// A tick that ends a wait with a value leaves nothing behind the cut, and
/// any other tick leaves the cut where it was; neither rewrites the history.
pub proof fn lemma_cut_moves_only_on_a_value(before: StateView, recv: Seq<u8>, matched: bool)
    requires
        before.last_buffer_start <= before.history.len(),
    ensures
        before.history.is_prefix_of(before.after_tick(recv, matched).history),
        before.last_buffer_start <= before.after_tick(recv, matched).last_buffer_start
            <= before.after_tick(recv, matched).history.len(),
        matched ==> before.after_tick(recv, matched).buffer() == Seq::<u8>::empty(),
        !matched ==> before.after_tick(recv, matched).last_buffer_start
            == before.last_buffer_start,
{
    let after = before.after_tick(recv, matched);
    if matched {
        assert(after.buffer() =~= Seq::<u8>::empty());
    }
}

/// After a wait has ended with a value, the next scan sees exactly the bytes
/// that arrive from then on, whatever the console had sent before.
pub proof fn lemma_next_scan_sees_only_new_bytes(before: StateView, first: Seq<u8>, later: Seq<u8>)
    ensures
        before.after_tick(first, true).received(later).buffer() == later,
{
    assert(before.after_tick(first, true).received(later).buffer() =~= later);
}

/// An answer that stands framed at the end of the text is read whatever
/// precedes it: if the left anchor is first met behind `noise`, and the right
/// anchor is first met behind `answer`, the scan ends the wait with the exit
/// code and output of `answer`.
pub proof fn lemma_framed_answer_is_read(
    noise: Seq<char>,
    left: Seq<char>,
    answer: Seq<char>,
    right: Seq<char>,
)
    requires
        left.len() > 0,
        find_from(noise + left + answer + right, left, 0) == Some(noise.len() as int),
        find_from(noise + left + answer + right, right, (noise.len() + left.len()) as int) == Some(
            (noise.len() + left.len() + answer.len()) as int,
        ),
    ensures
        exec_scan_spec(noise + left + answer + right, left, right) == ConsumeAction::BreakValue(
            exit_code_and_output(answer),
        ),
{
    let text = noise + left + answer + right;
    let begin = (noise.len() + left.len()) as int;
    let end = begin + answer.len();
    assert(text.subrange(begin, end) =~= answer);
    assert(find_from(text, left, end + right.len()) is None);
}

/// The last separator of a text that ends in digits stands right before the
/// digits.
proof fn lemma_separator_before_digits(output: Seq<char>, digits: Seq<char>, n: int)
    requires
        0 <= n <= digits.len(),
        all_digits(digits),
    ensures
        last_position(output + seq![RES_FLAG_SEP] + digits.take(n), RES_FLAG_SEP) == Some(
            output.len() as int,
        ),
    decreases n,
{
    let text = output + seq![RES_FLAG_SEP] + digits.take(n);
    if n == 0 {
        assert(text.last() == RES_FLAG_SEP);
    } else {
        lemma_separator_before_digits(output, digits, n - 1);
        assert(text.last() == digits[n - 1]);
        assert(is_digit(digits[n - 1]));
        assert(text.drop_last() =~= output + seq![RES_FLAG_SEP] + digits.take(n - 1));
    }
}

/// An answer that a shell writes as the output, the separator and the exit
/// code in digits is read back as that exit code and that output.
pub proof fn lemma_answer_is_read_back(output: Seq<char>, code: nat)
    requires
        code <= i32::MAX,
    ensures
        exit_code_and_output(output + seq![RES_FLAG_SEP] + decimal_digits(code)) == (
            code as i32,
            output,
        ),
{
    let digits = decimal_digits(code);
    let text = output + seq![RES_FLAG_SEP] + digits;
    lemma_decimal_round_trip(code);
    lemma_separator_before_digits(output, digits, digits.len() as int);
    assert(digits.take(digits.len() as int) =~= digits);
    assert(text.subrange(output.len() as int + 1, text.len() as int) =~= digits);
    assert(text.subrange(0, output.len() as int) =~= output);
    assert(is_digit(digits[0]));
}

} // verus!
