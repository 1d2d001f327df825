//! What a script host needs besides the requests: how failures are named,
//! which log level a name stands for, and which files a script imports.

use crate::msg::{MsgRes, MsgResError};
use crate::needle::PNG;
use crate::text::{decimal_digits, push_decimal, same_text};
use crate::tty::ConsoleError;
use vstd::prelude::*;
use vstd::string::StringExecFns;

verus! {

/// How much is logged.
#[derive(Debug, Clone, Copy, PartialEq, Eq, Structural)]
pub enum Level {
    Trace,
    Debug,
    Info,
    Warn,
    Error,
}

/// The level that a name stands for.
pub open spec fn level_of(name: Seq<char>) -> Option<Level> {
    if name == "trace"@ {
        Some(Level::Trace)
    } else if name == "debug"@ {
        Some(Level::Debug)
    } else if name == "info"@ {
        Some(Level::Info)
    } else if name == "warn"@ {
        Some(Level::Warn)
    } else if name == "error"@ {
        Some(Level::Error)
    } else {
        None
    }
}

/// The log level that the environment asks for: the level that the value
/// names; none, which turns logging off, without a value or with a value that
/// names no level.
pub fn log_level(value: Option<&str>) -> (level: Option<Level>)
    ensures
        level == match value {
            Some(name) => level_of(name@),
            None => None,
        },
{
    match value {
        None => None,
        Some(name) => {
            if same_text(name, "trace") {
                Some(Level::Trace)
            } else if same_text(name, "debug") {
                Some(Level::Debug)
            } else if same_text(name, "info") {
                Some(Level::Info)
            } else if same_text(name, "warn") {
                Some(Level::Warn)
            } else if same_text(name, "error") {
                Some(Level::Error)
            } else {
                None
            }
        },
    }
}

/// The level at which a script's console call is logged: `log` and `info` at
/// `Info`, `error` and `debug` at their own level, anything else not at all.
pub fn console_level(method: &str) -> (level: Option<Level>)
    ensures
        level == if method@ == "log"@ || method@ == "info"@ {
            Some(Level::Info)
        } else if method@ == "error"@ {
            Some(Level::Error)
        } else if method@ == "debug"@ {
            Some(Level::Debug)
        } else {
            None
        },
{
    if same_text(method, "log") || same_text(method, "info") {
        Some(Level::Info)
    } else if same_text(method, "error") {
        Some(Level::Error)
    } else if same_text(method, "debug") {
        Some(Level::Debug)
    } else {
        None
    }
}

/// The process ends well.
pub const EXIT_OK: i32 = 0;

/// The process was interrupted.
pub const EXIT_INTERRUPTED: i32 = 2;

/// Why a call of a script failed.
#[derive(Debug, Clone, Copy, PartialEq, Eq, Structural)]
pub enum ApiError {
    ServerStopped,
    ServerInvalidResponse,
    Timeout,
    Cancel,
    AssertFailed,
}

/// The kind of exception that a script sees.
#[derive(Debug, Clone, Copy, PartialEq, Eq, Structural)]
pub enum ExceptionKind {
    Driver,
    Timeout,
    Assert,
}

/// The kind of exception that stands for an error.
pub open spec fn exception_kind(e: ApiError) -> ExceptionKind {
    match e {
        ApiError::ServerStopped | ApiError::ServerInvalidResponse | ApiError::Cancel => ExceptionKind::Driver,
        ApiError::Timeout => ExceptionKind::Timeout,
        ApiError::AssertFailed => ExceptionKind::Assert,
    }
}

/// The text of the exception that stands for an error.
pub open spec fn exception_text(e: ApiError) -> Seq<char> {
    match e {
        ApiError::ServerStopped => "server stopped, maybe needle not found"@,
        ApiError::ServerInvalidResponse => "server return invalid response, please open an issue"@,
        ApiError::Timeout => "timeout"@,
        ApiError::Cancel => "cancelled, the driver is stopping"@,
        ApiError::AssertFailed => "assert failed"@,
    }
}

/// The exception that a script sees for an error: its kind and its text.
pub fn into_exception(e: ApiError) -> (r: (ExceptionKind, &'static str))
    ensures
        r.0 == exception_kind(e),
        r.1@ == exception_text(e),
{
    match e {
        ApiError::ServerStopped => (
            ExceptionKind::Driver,
            "server stopped, maybe needle not found",
        ),
        ApiError::ServerInvalidResponse => (
            ExceptionKind::Driver,
            "server return invalid response, please open an issue",
        ),
        ApiError::Timeout => (ExceptionKind::Timeout, "timeout"),
        ApiError::Cancel => (ExceptionKind::Driver, "cancelled, the driver is stopping"),
        ApiError::AssertFailed => (ExceptionKind::Assert, "assert failed"),
    }
}

/// What a script learns from the answer to a command: the exit code and the
/// output if the command ran, a timeout if it timed out, a cancellation if
/// the wait was cancelled, and a complaint about the server for any other
/// answer.
pub fn script_run_result(res: MsgRes) -> (r: Result<(i32, String), ApiError>)
    ensures
        match res {
            MsgRes::ScriptRun { code, value } => r == Ok::<(i32, String), ApiError>((code, value)),
            MsgRes::Error(MsgResError::Timeout) => r == Err::<(i32, String), ApiError>(
                ApiError::Timeout,
            ),
            MsgRes::Error(MsgResError::Cancel) => r == Err::<(i32, String), ApiError>(
                ApiError::Cancel,
            ),
            _ => r == Err::<(i32, String), ApiError>(ApiError::ServerInvalidResponse),
        },
{
    match res {
        MsgRes::ScriptRun { code, value } => Ok((code, value)),
        MsgRes::Error(MsgResError::Timeout) => Err(ApiError::Timeout),
        MsgRes::Error(MsgResError::Cancel) => Err(ApiError::Cancel),
        _ => Err(ApiError::ServerInvalidResponse),
    }
}

/// What a script learns from the answer to a request that gives nothing
/// back: nothing if it was done, a timeout if it timed out, a cancellation
/// if the wait was cancelled, a failed assertion if it was refused with a
/// reason, and a complaint about the server for any other answer.
pub fn done_result(res: MsgRes) -> (r: Result<(), ApiError>)
    ensures
        match res {
            MsgRes::Done => r is Ok,
            MsgRes::Error(MsgResError::Timeout) => r == Err::<(), ApiError>(ApiError::Timeout),
            MsgRes::Error(MsgResError::Cancel) => r == Err::<(), ApiError>(ApiError::Cancel),
            MsgRes::Error(MsgResError::String(_)) => r == Err::<(), ApiError>(
                ApiError::AssertFailed,
            ),
            _ => r == Err::<(), ApiError>(ApiError::ServerInvalidResponse),
        },
{
    match res {
        MsgRes::Done => Ok(()),
        MsgRes::Error(MsgResError::Timeout) => Err(ApiError::Timeout),
        MsgRes::Error(MsgResError::Cancel) => Err(ApiError::Cancel),
        MsgRes::Error(MsgResError::String(_)) => Err(ApiError::AssertFailed),
        _ => Err(ApiError::ServerInvalidResponse),
    }
}

/// What a script learns of a command that must succeed, from what it learnt
/// of the command: the output if the exit code is 0, a failed assertion for
/// any other code, and the error as it is if the command did not run to its
/// end.
pub fn assert_run_result(r: Result<(i32, String), ApiError>) -> (out: Result<String, ApiError>)
    ensures
        match r {
            Ok((code, output)) => if code == 0 {
                out == Ok::<String, ApiError>(output)
            } else {
                out == Err::<String, ApiError>(ApiError::AssertFailed)
            },
            Err(e) => out == Err::<String, ApiError>(e),
        },
{
    match r {
        Ok((code, output)) => if code == 0 {
            Ok(output)
        } else {
            Err(ApiError::AssertFailed)
        },
        Err(e) => Err(e),
    }
}

/// What a script learns from the answer to a request for a screenshot: the
/// screenshot if one came, a cancellation if the wait was cancelled, a
/// timeout for any other error, and a complaint about the server for any
/// other answer.
pub fn screenshot_result(res: MsgRes) -> (r: Result<PNG, ApiError>)
    ensures
        match res {
            MsgRes::Screenshot(png) => r == Ok::<PNG, ApiError>(png),
            MsgRes::Error(MsgResError::Cancel) => r == Err::<PNG, ApiError>(ApiError::Cancel),
            MsgRes::Error(_) => r == Err::<PNG, ApiError>(ApiError::Timeout),
            _ => r == Err::<PNG, ApiError>(ApiError::ServerInvalidResponse),
        },
{
    match res {
        MsgRes::Screenshot(png) => Ok(png),
        MsgRes::Error(MsgResError::Cancel) => Err(ApiError::Cancel),
        MsgRes::Error(_) => Err(ApiError::Timeout),
        _ => Err(ApiError::ServerInvalidResponse),
    }
}

/// What a script learns from the answer to a question for the configuration.
pub fn config_value_result(res: MsgRes) -> (r: Result<Option<String>, ApiError>)
    ensures
        match res {
            MsgRes::ConfigValue(v) => r == Ok::<Option<String>, ApiError>(v),
            _ => r == Err::<Option<String>, ApiError>(ApiError::ServerInvalidResponse),
        },
{
    match res {
        MsgRes::ConfigValue(v) => Ok(v),
        _ => Err(ApiError::ServerInvalidResponse),
    }
}

/// A time that a script gives in seconds, in milliseconds: nothing for a
/// negative time.
pub fn seconds_to_millis(seconds: i32) -> (ms: u64)
    ensures
        ms == if seconds < 0 {
            0
        } else {
            seconds * 1000
        },
{
    if seconds < 0 {
        0
    } else {
        (seconds as u64) * 1000
    }
}

/// The digits of an exit code, with its sign.
pub open spec fn code_digits(code: i32) -> Seq<char> {
    if code < 0 {
        "-"@ + decimal_digits((-code) as nat)
    } else {
        decimal_digits(code as nat)
    }
}

/// What a command that must succeed comes to: its output if it ran and gave
/// the exit code 0; an assertion that names the code if it gave another; a
/// complaint about the driver if the wait for it was cancelled; a timeout if
/// it did not run to its end for any other reason.
pub fn assert_script_run(r: Result<(i32, String), ConsoleError>) -> (out: Result<
    String,
    (ExceptionKind, String),
>)
    ensures
        match r {
            Ok((code, output)) => if code == 0 {
                out == Ok::<String, (ExceptionKind, String)>(output)
            } else {
                &&& out matches Err((kind, text))
                &&& kind == ExceptionKind::Assert
                &&& text@ == "return code should be 0, but got "@ + code_digits(code)
            },
            Err(ConsoleError::Cancel) => {
                &&& out matches Err((kind, text))
                &&& kind == ExceptionKind::Driver
                &&& text@ == "assert script run cancelled"@
            },
            Err(_) => {
                &&& out matches Err((kind, text))
                &&& kind == ExceptionKind::Timeout
                &&& text@ == "assert script run timeout"@
            },
        },
{
    match r {
        Ok((code, output)) => {
            if code == 0 {
                Ok(output)
            } else {
                let mut text = String::from_str("return code should be 0, but got ");
                if code < 0 {
                    text.append("-");
                    push_decimal(&mut text, (-(code as i64)) as u64);
                } else {
                    push_decimal(&mut text, code as u64);
                }
                Err((ExceptionKind::Assert, text))
            }
        },
        Err(ConsoleError::Cancel) => Err(
            (ExceptionKind::Driver, String::from_str("assert script run cancelled")),
        ),
        Err(_) => Err((ExceptionKind::Timeout, String::from_str("assert script run timeout"))),
    }
}

/// The pattern of an import line of a script: `import <names> from '<path>'`,
/// with single or double quotes. The path is the third group.
pub fn import_pattern() -> (p: &'static str)
    ensures
        p@ == import_pattern_text(),
{
    "[ \t]*import[ \t]+(.*)[ \t]+from[ \t]+('|\")(\\S+)('|\")"
}

/// The text of [`import_pattern`].
pub open spec fn import_pattern_text() -> Seq<char> {
    "[ \t]*import[ \t]+(.*)[ \t]+from[ \t]+('|\")(\\S+)('|\")"@
}

/// The group of the import pattern that holds the path.
pub const IMPORT_PATH_GROUP: usize = 3;

/// What group `group` holds in each match of the regular expression `pattern`
/// in `text`, match by match in the order of the text: nothing for a match in
/// which the group took no part. No result at all if the pattern is no
/// regular expression.
pub uninterp spec fn regex_captures(pattern: Seq<char>, group: nat, text: Seq<char>) -> Option<
    Seq<Option<Seq<char>>>,
>;

/// The texts of a list of captures.
pub open spec fn captures_view(caps: Seq<Option<String>>) -> Seq<Option<Seq<char>>> {
    Seq::new(
        caps.len(),
        |i: int|
            match caps[i] {
                Some(s) => Some(s@),
                None => None,
            },
    )
}

/// Compiles `pattern` with `regex::Regex::new` and walks the matches in
/// `text` with `Regex::captures_iter`, taking from each match the text of
/// group `group` as `Captures::get` gives it. The claim is only that the
/// outcome is a function of the three arguments; it is named
/// [`regex_captures`]. A pattern that does not compile gives no result.
#[verifier::external_body]
fn capture_all(pattern: &str, group: usize, text: &str) -> (r: Option<Vec<Option<String>>>)
    ensures
        match regex_captures(pattern@, group as nat, text@) {
            Some(caps) => r matches Some(v) && captures_view(v@) == caps,
            None => r is None,
        },
{
    let re = regex::Regex::new(pattern).ok()?;
    Some(re.captures_iter(text).map(|c| c.get(group).map(|m| m.as_str().to_string())).collect())
}

/// The captures that hold a text, in order.
pub open spec fn present(caps: Seq<Option<Seq<char>>>, n: int) -> Seq<Seq<char>>
    decreases n,
{
    if n <= 0 || n > caps.len() {
        Seq::<Seq<char>>::empty()
    } else {
        match caps[n - 1] {
            Some(s) => present(caps, n - 1).push(s),
            None => present(caps, n - 1),
        }
    }
}

/// The texts of a list of strings.
pub open spec fn strings_view(v: Seq<String>) -> Seq<Seq<char>> {
    Seq::new(v.len(), |i: int| v[i]@)
}

/// Keeps the captures that hold a text, in order.
pub fn collect_paths(caps: Vec<Option<String>>) -> (paths: Vec<String>)
    ensures
        strings_view(paths@) == present(captures_view(caps@), caps@.len() as int),
{
    let mut paths: Vec<String> = Vec::new();
    let n: usize = caps.len();
    let mut i: usize = 0;
    assert(strings_view(paths@) =~= present(captures_view(caps@), 0));
    while i < n
        invariant
            n == caps@.len(),
            i <= n,
            strings_view(paths@) == present(captures_view(caps@), i as int),
        decreases n - i,
    {
        let ghost before = strings_view(paths@);
        match &caps[i] {
            Some(s) => {
                paths.push(s.clone());
                assert(strings_view(paths@) =~= before.push(s@));
            },
            None => {},
        }
        i += 1;
    }
    paths
}

/// The paths of the files that a script imports, in the order of its import
/// lines; nothing if the import pattern is no regular expression.
pub fn search_path(script: &str) -> (paths: Option<Vec<String>>)
    ensures
        match regex_captures(import_pattern_text(), IMPORT_PATH_GROUP as nat, script@) {
            Some(caps) => paths matches Some(v) && strings_view(v@) == present(
                caps,
                caps.len() as int,
            ),
            None => paths is None,
        },
{
    match capture_all(import_pattern(), IMPORT_PATH_GROUP, script) {
        Some(caps) => Some(collect_paths(caps)),
        None => None,
    }
}

} // verus!
