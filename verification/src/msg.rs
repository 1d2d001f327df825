//! The messages between a script host and the driver.
//!
//! Times are in milliseconds. Likeness thresholds are in millionths.

use crate::needle::PNG;
use vstd::prelude::*;

verus! {

/// A console that carries text.
#[derive(Debug, Clone, Copy, PartialEq, Eq, Structural)]
pub enum TextConsole {
    SSH,
    Serial,
}

/// A request to the graphical console.
#[derive(Debug)]
pub enum VNC {
    TakeScreenShot,
    GetScreenShot,
    Refresh,
    /// Wait until the screen shows the needle `tag`, then click or move as
    /// asked.
    CheckScreen {
        tag: String,
        threshold: u32,
        timeout: u64,
        click: bool,
        move_only: bool,
        delay: Option<u64>,
    },
    MouseMove { x: u16, y: u16 },
    MouseDrag { x: u16, y: u16 },
    MouseHide,
    MouseClick,
    MouseRClick,
    /// Press (`true`) or release (`false`) the left button.
    MouseKeyDown(bool),
    SendKey(String),
    TypeString(String),
}

/// A request of a script.
#[derive(Debug)]
pub enum MsgReq {
    SetConfig { toml_str: String },
    GetConfig { key: String },
    SSHScriptRunSeperate { cmd: String, timeout: u64 },
    ScriptRun { cmd: String, console: Option<TextConsole>, timeout: u64 },
    WriteString { console: Option<TextConsole>, s: String, timeout: u64 },
    WaitString { console: Option<TextConsole>, s: String, timeout: u64 },
    VNC(VNC),
}

/// Why a request failed.
#[derive(Debug)]
pub enum MsgResError {
    /// The deadline came before the request was met.
    Timeout,
    /// A stop was asked for while the request waited.
    Cancel,
    /// The request was refused, for the reason given.
    String(String),
}

/// The answer to a request.
#[derive(Debug)]
pub enum MsgRes {
    Done,
    ConfigValue(Option<String>),
    ScriptRun { code: i32, value: String },
    Screenshot(PNG),
    Error(MsgResError),
}

impl MsgRes {
    /// The answer is the error that carries the text `msg`.
    pub open spec fn is_error_text(self, msg: Seq<char>) -> bool {
        self matches MsgRes::Error(MsgResError::String(s)) && s@ == msg
    }
}

} // verus!
