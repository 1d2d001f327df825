//! What the driver does with a request of a script.
//!
//! The service knows which consoles are connected and what the configuration
//! says. It decides what a request comes to; the caller talks to the consoles
//! and hands the outcome back for the answer.

use crate::config::{env_value, Config, ConfigView};
use crate::msg::{MsgReq, MsgRes, MsgResError, TextConsole, VNC};
use crate::tty::{error_text, ConsoleError};
use crate::vnc::{event_for, key_codes, screenshot_name, screenshot_tag, CheckScreen,
    CheckScreenView, Expect, VNCEventReq, LEFT_BUTTON, RIGHT_BUTTON};
use crate::evloop::deadline_after;
use vstd::prelude::*;
use vstd::string::StringExecFns;

verus! {

/// One of the three consoles.
#[derive(Debug, Clone, Copy, PartialEq, Eq, Structural)]
pub enum ConsoleKind {
    Serial,
    SSH,
    VNC,
}

impl ConsoleKind {
    /// The console that is connected first.
    pub fn first() -> (k: ConsoleKind)
        ensures
            k == ConsoleKind::Serial,
    {
        ConsoleKind::Serial
    }

    /// The place of the console in the order of connecting.
    pub open spec fn position(self) -> nat {
        match self {
            ConsoleKind::Serial => 0,
            ConsoleKind::SSH => 1,
            ConsoleKind::VNC => 2,
        }
    }

    /// The console that comes after this one: serial, then SSH, then VNC.
    pub open spec fn next_spec(self) -> Option<ConsoleKind> {
        match self {
            ConsoleKind::Serial => Some(ConsoleKind::SSH),
            ConsoleKind::SSH => Some(ConsoleKind::VNC),
            ConsoleKind::VNC => None,
        }
    }

    /// The console that is connected after this one: serial, then SSH, then
    /// VNC.
    pub fn next(self) -> (k: Option<ConsoleKind>)
        ensures
            k == self.next_spec(),
    {
        match self {
            ConsoleKind::Serial => Some(ConsoleKind::SSH),
            ConsoleKind::SSH => Some(ConsoleKind::VNC),
            ConsoleKind::VNC => None,
        }
    }
}

/// The text console that serves a request: the one it names, if that one is
/// connected; without a name the serial line if it is connected, else the SSH
/// shell if that is; else none.
pub open spec fn select_console(console: Option<TextConsole>, has_ssh: bool, has_serial: bool)
    -> Option<TextConsole> {
    match console {
        Some(TextConsole::Serial) => if has_serial {
            Some(TextConsole::Serial)
        } else {
            None
        },
        Some(TextConsole::SSH) => if has_ssh {
            Some(TextConsole::SSH)
        } else {
            None
        },
        None => if has_serial {
            Some(TextConsole::Serial)
        } else if has_ssh {
            Some(TextConsole::SSH)
        } else {
            None
        },
    }
}

/// Picks the text console that serves a request.
pub fn choose_console(console: Option<TextConsole>, has_ssh: bool, has_serial: bool) -> (r: Option<
    TextConsole,
>)
    ensures
        r == select_console(console, has_ssh, has_serial),
{
    match console {
        Some(TextConsole::Serial) => if has_serial {
            Some(TextConsole::Serial)
        } else {
            None
        },
        Some(TextConsole::SSH) => if has_ssh {
            Some(TextConsole::SSH)
        } else {
            None
        },
        None => if has_serial {
            Some(TextConsole::Serial)
        } else if has_ssh {
            Some(TextConsole::SSH)
        } else {
            None
        },
    }
}

/// What a request comes to.
#[derive(Debug)]
pub enum Handling {
    /// The request is answered at once.
    Reply(MsgRes),
    /// Read the configuration from this text and connect to what it names.
    Configure { toml_str: String },
    /// Run the command on a channel of its own of the SSH connection.
    ExecSeparate { cmd: String },
    /// Run the command on this console.
    Exec { console: TextConsole, cmd: String, timeout: u64 },
    /// Write the text to this console.
    Write { console: TextConsole, s: String, timeout: u64 },
    /// Wait for the text on this console.
    Wait { console: TextConsole, s: String, timeout: u64 },
    /// Hand the request to [`Service::handle_vnc_req`].
    Vnc(VNC),
}

/// What a request to the graphical console comes to.
pub enum VncHandling {
    /// The request is answered at once.
    Reply(MsgRes),
    /// Send the event, answer as [`crate::vnc::answer_for`] says, then record
    /// a screenshot under the tag, if there is one.
    Call { event: VNCEventReq, expect: Expect, screenshot: Option<String> },
    /// Run the wait, then record a screenshot under the tag, if there is one.
    Check { wait: CheckScreen, screenshot: Option<String> },
}

/// What has to be done before a console is connected anew.
#[derive(Debug, Clone, Copy, PartialEq, Eq, Structural)]
pub struct ConnectStep {
    /// Stop the console that is connected now.
    pub stop_previous: bool,
    /// Connect as the configuration says.
    pub connect: bool,
}

/// Abstract state of a [`Service`].
pub struct ServiceView {
    pub enable_screenshot: bool,
    pub config: Option<ConfigView>,
    pub ssh: bool,
    pub serial: bool,
    pub vnc: bool,
}

impl ServiceView {
    /// Whether the console is connected.
    pub open spec fn has(self, kind: ConsoleKind) -> bool {
        match kind {
            ConsoleKind::Serial => self.serial,
            ConsoleKind::SSH => self.ssh,
            ConsoleKind::VNC => self.vnc,
        }
    }

    /// The state with the console connected or not.
    pub open spec fn with(self, kind: ConsoleKind, connected: bool) -> ServiceView {
        match kind {
            ConsoleKind::Serial => ServiceView { serial: connected, ..self },
            ConsoleKind::SSH => ServiceView { ssh: connected, ..self },
            ConsoleKind::VNC => ServiceView { vnc: connected, ..self },
        }
    }

    /// What the configuration gives to `key`: nothing without a
    /// configuration.
    pub open spec fn config_value(self, key: Seq<char>) -> Option<Seq<char>> {
        match self.config {
            Some(c) => env_value(c.env, key, c.env.len() as int),
            None => None,
        }
    }
}

/// The consoles that are connected, and the configuration in force.
pub struct Service {
    enable_screenshot: bool,
    config: Option<Config>,
    ssh: bool,
    serial: bool,
    vnc: bool,
}

impl View for Service {
    type V = ServiceView;

    closed spec fn view(&self) -> ServiceView {
        ServiceView {
            enable_screenshot: self.enable_screenshot,
            config: match self.config {
                Some(c) => Some(c@),
                None => None,
            },
            ssh: self.ssh,
            serial: self.serial,
            vnc: self.vnc,
        }
    }
}

/// The console to go on with once connecting `kind` has ended with `result`:
/// none after a failure, which ends the connecting, else the one that comes
/// after `kind`.
pub fn after_connect(kind: ConsoleKind, result: &Result<(), ConsoleError>) -> (next: Option<
    ConsoleKind,
>)
    ensures
        next == if result is Err {
            None
        } else {
            kind.next_spec()
        },
{
    match result {
        Ok(_) => kind.next(),
        Err(_) => None,
    }
}

/// The answer that stands for a failure of a console: a timeout for a
/// timeout, a cancellation for a cancellation, and the reason in words where
/// the console could not be reached.
pub open spec fn failure_reply(e: ConsoleError, res: MsgRes) -> bool {
    match e {
        ConsoleError::Timeout => res == MsgRes::Error(MsgResError::Timeout),
        ConsoleError::Cancel => res == MsgRes::Error(MsgResError::Cancel),
        ConsoleError::NoConnection(_) => res.is_error_text(error_text(e)),
    }
}

/// Builds the answer that stands for a failure of a console.
pub fn failed_reply(e: ConsoleError) -> (res: MsgRes)
    ensures
        failure_reply(e, res),
{
    match e {
        ConsoleError::Timeout => MsgRes::Error(MsgResError::Timeout),
        ConsoleError::Cancel => MsgRes::Error(MsgResError::Cancel),
        ConsoleError::NoConnection(_) => MsgRes::Error(MsgResError::String(e.describe())),
    }
}

/// The answer to a command that was run: its exit code and output, or the
/// answer that stands for the failure.
pub fn script_run_reply(r: Result<(i32, String), ConsoleError>) -> (res: MsgRes)
    ensures
        match r {
            Ok((code, value)) => res == (MsgRes::ScriptRun { code, value }),
            Err(ConsoleError::Timeout) => res == MsgRes::Error(MsgResError::Timeout),
            Err(ConsoleError::Cancel) => res == MsgRes::Error(MsgResError::Cancel),
            Err(ConsoleError::NoConnection(reason)) => res.is_error_text(
                "no connection, "@ + reason@,
            ),
        },
{
    match r {
        Ok((code, value)) => MsgRes::ScriptRun { code, value },
        Err(e) => failed_reply(e),
    }
}

/// The answer to a write or a wait: done, or the answer that stands for the
/// failure.
pub fn done_reply(r: Result<(), ConsoleError>) -> (res: MsgRes)
    ensures
        match r {
            Ok(_) => res == MsgRes::Done,
            Err(ConsoleError::Timeout) => res == MsgRes::Error(MsgResError::Timeout),
            Err(ConsoleError::Cancel) => res == MsgRes::Error(MsgResError::Cancel),
            Err(ConsoleError::NoConnection(reason)) => res.is_error_text(
                "no connection, "@ + reason@,
            ),
        },
{
    match r {
        Ok(_) => MsgRes::Done,
        Err(e) => failed_reply(e),
    }
}

/// The answer to a configuration that could not be read.
pub fn config_invalid(reason: &str) -> (res: MsgRes)
    ensures
        res.is_error_text("config invalid, reason = "@ + reason@),
{
    let mut msg = String::from_str("config invalid, reason = ");
    msg.append(reason);
    MsgRes::Error(MsgResError::String(msg))
}

/// The answer to a configuration whose consoles could not be connected.
pub fn connect_failed(reason: &ConsoleError) -> (res: MsgRes)
    ensures
        res.is_error_text("connect failed, reason = "@ + error_text(*reason)),
{
    let mut msg = String::from_str("connect failed, reason = ");
    msg.append(reason.describe().as_str());
    MsgRes::Error(MsgResError::String(msg))
}

impl Service {
    /// A service without consoles and without configuration.
    pub fn new(enable_screenshot: bool) -> (s: Service)
        ensures
            s@ == (ServiceView {
                enable_screenshot,
                config: None,
                ssh: false,
                serial: false,
                vnc: false,
            }),
    {
        Service { enable_screenshot, config: None, ssh: false, serial: false, vnc: false }
    }

    /// Whether the console is connected.
    pub fn has(&self, kind: ConsoleKind) -> (b: bool)
        ensures
            b == self@.has(kind),
    {
        match kind {
            ConsoleKind::Serial => self.serial,
            ConsoleKind::SSH => self.ssh,
            ConsoleKind::VNC => self.vnc,
        }
    }

    /// The configuration in force.
    pub fn config(&self) -> (c: &Option<Config>)
        ensures
            match *c {
                Some(config) => self@.config == Some(config@),
                None => self@.config is None,
            },
    {
        &self.config
    }

    /// Says what has to be done for one console when the configuration `c`
    /// is put in force: the console that is connected now is stopped, and a
    /// new one is connected if the configuration names one. The slot is empty
    /// from here on, until [`Service::end_connect`] fills it. The consoles
    /// are taken in the order of [`ConsoleKind::first`] and
    /// [`after_connect`], and the first that fails ends the connecting.
    pub fn connect_with_config(&mut self, c: &Config, kind: ConsoleKind) -> (step: ConnectStep)
        ensures
            step == (ConnectStep {
                stop_previous: old(self)@.has(kind),
                connect: names_console(c@, kind),
            }),
            final(self)@ == old(self)@.with(kind, false),
    {
        let configured = match kind {
            ConsoleKind::Serial => c.serial().is_some(),
            ConsoleKind::SSH => c.ssh().is_some(),
            ConsoleKind::VNC => c.vnc().is_some(),
        };
        let stop_previous = self.has(kind);
        match kind {
            ConsoleKind::Serial => {
                self.serial = false;
            },
            ConsoleKind::SSH => {
                self.ssh = false;
            },
            ConsoleKind::VNC => {
                self.vnc = false;
            },
        }
        ConnectStep { stop_previous, connect: configured }
    }

    /// Takes in how connecting went. A console that is connected fills its
    /// slot. One that failed leaves the slot empty and ends the connecting
    /// with its error.
    pub fn end_connect(&mut self, kind: ConsoleKind, result: Result<(), ConsoleError>) -> (r:
        Result<(), ConsoleError>)
        ensures
            r == result,
            final(self)@ == old(self)@.with(kind, old(self)@.has(kind) || result is Ok),
    {
        if result.is_ok() {
            match kind {
                ConsoleKind::Serial => {
                    self.serial = true;
                },
                ConsoleKind::SSH => {
                    self.ssh = true;
                },
                ConsoleKind::VNC => {
                    self.vnc = true;
                },
            }
        }
        result
    }

    /// Puts a configuration in force, once everything it names is connected.
    pub fn set_config(&mut self, config: Config) -> (res: MsgRes)
        ensures
            res == MsgRes::Done,
            final(self)@ == (ServiceView { config: Some(config@), ..old(self)@ }),
    {
        self.config = Some(config);
        MsgRes::Done
    }

    /// Marks every console as stopped and says which ones have to be
    /// stopped: those that were connected, the SSH shell first, then the
    /// serial line, then the screen.
    pub fn stop_all(&mut self) -> (stopped: Vec<ConsoleKind>)
        ensures
            stopped@ == stop_list(old(self)@),
            final(self)@ == (ServiceView { ssh: false, serial: false, vnc: false, ..old(self)@ }),
    {
        let mut stopped: Vec<ConsoleKind> = Vec::new();
        if self.ssh {
            stopped.push(ConsoleKind::SSH);
        }
        if self.serial {
            stopped.push(ConsoleKind::Serial);
        }
        if self.vnc {
            stopped.push(ConsoleKind::VNC);
        }
        assert(stopped@ =~= stop_list(self@));
        self.ssh = false;
        self.serial = false;
        self.vnc = false;
        stopped
    }

    /// Decides what a request comes to.
    ///
    /// A question for the configuration is answered from the environment of
    /// the configuration in force. A command for a channel of its own needs
    /// the SSH connection; without it the answer is the exit code -1 and the
    /// output `no ssh`. A command, a write or a wait goes to the console that
    /// [`select_console`] picks, and fails with `no console supported` if it
    /// picks none.
    pub fn handle_req(&self, req: MsgReq) -> (h: Handling)
        ensures
            match req {
                MsgReq::SetConfig { toml_str } => h == (Handling::Configure { toml_str }),
                MsgReq::GetConfig { key } => match self@.config_value(key@) {
                    Some(v) => h matches Handling::Reply(MsgRes::ConfigValue(Some(s))) && s@ == v,
                    None => h == Handling::Reply(MsgRes::ConfigValue(None)),
                },
                MsgReq::SSHScriptRunSeperate { cmd, timeout } => if self@.ssh {
                    h == (Handling::ExecSeparate { cmd })
                } else {
                    h matches Handling::Reply(MsgRes::ScriptRun { code, value }) && code == -1
                        && value@ == "no ssh"@
                },
                MsgReq::ScriptRun { cmd, console, timeout } => match select_console(
                    console,
                    self@.ssh,
                    self@.serial,
                ) {
                    Some(c) => h == (Handling::Exec { console: c, cmd, timeout }),
                    None => h matches Handling::Reply(res) && res.is_error_text(
                        "no console supported"@,
                    ),
                },
                MsgReq::WriteString { console, s, timeout } => match select_console(
                    console,
                    self@.ssh,
                    self@.serial,
                ) {
                    Some(c) => h == (Handling::Write { console: c, s, timeout }),
                    None => h matches Handling::Reply(res) && res.is_error_text(
                        "no console supported"@,
                    ),
                },
                MsgReq::WaitString { console, s, timeout } => match select_console(
                    console,
                    self@.ssh,
                    self@.serial,
                ) {
                    Some(c) => h == (Handling::Wait { console: c, s, timeout }),
                    None => h matches Handling::Reply(res) && res.is_error_text(
                        "no console supported"@,
                    ),
                },
                MsgReq::VNC(v) => h == Handling::Vnc(v),
            },
    {
        match req {
            MsgReq::SetConfig { toml_str } => Handling::Configure { toml_str },
            MsgReq::GetConfig { key } => {
                let value = match &self.config {
                    Some(c) => c.get_env(&key),
                    None => None,
                };
                Handling::Reply(MsgRes::ConfigValue(value))
            },
            MsgReq::SSHScriptRunSeperate { cmd, timeout: _ } => {
                if self.ssh {
                    Handling::ExecSeparate { cmd }
                } else {
                    Handling::Reply(
                        MsgRes::ScriptRun { code: -1, value: String::from_str("no ssh") },
                    )
                }
            },
            MsgReq::ScriptRun { cmd, console, timeout } => {
                match choose_console(console, self.ssh, self.serial) {
                    Some(c) => Handling::Exec { console: c, cmd, timeout },
                    None => Handling::Reply(no_console()),
                }
            },
            MsgReq::WriteString { console, s, timeout } => {
                match choose_console(console, self.ssh, self.serial) {
                    Some(c) => Handling::Write { console: c, s, timeout },
                    None => Handling::Reply(no_console()),
                }
            },
            MsgReq::WaitString { console, s, timeout } => {
                match choose_console(console, self.ssh, self.serial) {
                    Some(c) => Handling::Wait { console: c, s, timeout },
                    None => Handling::Reply(no_console()),
                }
            },
            MsgReq::VNC(v) => Handling::Vnc(v),
        }
    }

    /// Decides what a request to the graphical console comes to, at the
    /// instant `now`.
    ///
    /// Without a connection to the screen the answer is the error `no vnc`.
    /// A wait for a needle starts with the deadline `timeout` after `now`.
    /// Any other request is one event, as [`event_for`] says. If screenshots
    /// are enabled, one is recorded after the request under the tag of
    /// [`screenshot_tag`].
    pub fn handle_vnc_req(&self, req: VNC, now: u64) -> (h: VncHandling)
        ensures
            !self@.vnc ==> (h matches VncHandling::Reply(res) && res.is_error_text("no vnc"@)),
            self@.vnc ==> match req {
                VNC::CheckScreen { tag, threshold, timeout, click, move_only, delay } => {
                    &&& h matches VncHandling::Check { wait, screenshot }
                    &&& wait.tag_view() == tag@
                    &&& wait@ == (CheckScreenView {
                        threshold,
                        click,
                        move_only,
                        delay,
                        enable_screenshot: self@.enable_screenshot,
                        deadline: deadline_after(now, timeout),
                        attempts: 0,
                        similarity: 0,
                    })
                    &&& crate::vnc::recorded(
                        screenshot,
                        self@.enable_screenshot,
                        screenshot_tag(req),
                    )
                },
                _ => {
                    &&& h matches VncHandling::Call { event, expect, screenshot }
                    &&& crate::vnc::recorded(
                        screenshot,
                        self@.enable_screenshot,
                        screenshot_tag(req),
                    )
                    &&& is_event_of(req, event, expect)
                },
            },
    {
        if !self.vnc {
            return VncHandling::Reply(
                MsgRes::Error(MsgResError::String(String::from_str("no vnc"))),
            );
        }
        let screenshot = if self.enable_screenshot {
            Some(String::from_str(screenshot_name(&req)))
        } else {
            None
        };
        match req {
            VNC::CheckScreen { tag, threshold, timeout, click, move_only, delay } => {
                let wait = CheckScreen::new(
                    tag,
                    threshold,
                    timeout,
                    click,
                    move_only,
                    delay,
                    self.enable_screenshot,
                    now,
                );
                VncHandling::Check { wait, screenshot }
            },
            other => {
                match event_for(other) {
                    Some((event, expect)) => VncHandling::Call { event, expect, screenshot },
                    None => VncHandling::Reply(MsgRes::Error(MsgResError::Timeout)),
                }
            },
        }
    }
}

/// Whether the configuration names the console.
pub open spec fn names_console(c: ConfigView, kind: ConsoleKind) -> bool {
    match kind {
        ConsoleKind::Serial => c.serial is Some,
        ConsoleKind::SSH => c.ssh is Some,
        ConsoleKind::VNC => c.vnc is Some,
    }
}

/// The event and the expected answer are those of the request.
pub open spec fn is_event_of(req: VNC, event: VNCEventReq, expect: Expect) -> bool {
    match req {
        VNC::TakeScreenShot => event matches VNCEventReq::TakeScreenShot(name) && name@ == "user"@
            && expect == Expect::Done,
        VNC::GetScreenShot => event == VNCEventReq::GetScreenShot && expect == Expect::Screen,
        VNC::Refresh => event == VNCEventReq::Refresh && expect == Expect::Screen,
        VNC::CheckScreen { .. } => false,
        VNC::MouseMove { x, y } => event == VNCEventReq::MouseMove(x, y) && expect == Expect::Done,
        VNC::MouseDrag { x, y } => event == VNCEventReq::MouseDrag(x, y) && expect == Expect::Done,
        VNC::MouseHide => event == VNCEventReq::MouseHide && expect == Expect::Done,
        VNC::MouseClick => event == VNCEventReq::MouseClick(LEFT_BUTTON) && expect == Expect::Done,
        VNC::MouseRClick => event == VNCEventReq::MouseClick(RIGHT_BUTTON) && expect
            == Expect::Done,
        VNC::MouseKeyDown(down) => event == (if down {
            VNCEventReq::MoveDown(LEFT_BUTTON)
        } else {
            VNCEventReq::MoveUp(LEFT_BUTTON)
        }) && expect == Expect::Done,
        VNC::SendKey(s) => event matches VNCEventReq::SendKey { keys } && keys@ == key_codes(s@)
            && expect == Expect::Done,
        VNC::TypeString(s) => event == VNCEventReq::TypeString(s) && expect == Expect::Done,
    }
}

/// The answer to a request that no text console can serve.
fn no_console() -> (res: MsgRes)
    ensures
        res.is_error_text("no console supported"@),
{
    MsgRes::Error(MsgResError::String(String::from_str("no console supported")))
}

/// The consoles to stop, in the order in which they are stopped.
pub open spec fn stop_list(s: ServiceView) -> Seq<ConsoleKind> {
    (if s.ssh {
        seq![ConsoleKind::SSH]
    } else {
        Seq::<ConsoleKind>::empty()
    }) + (if s.serial {
        seq![ConsoleKind::Serial]
    } else {
        Seq::<ConsoleKind>::empty()
    }) + (if s.vnc {
        seq![ConsoleKind::VNC]
    } else {
        Seq::<ConsoleKind>::empty()
    })
}

/// Stopping stops every connected console exactly once, and a second stop
/// finds nothing left to stop.
pub proof fn lemma_stop_is_idempotent(s: ServiceView)
    ensures
        forall|kind: ConsoleKind| s.has(kind) <==> stop_list(s).contains(kind),
        stop_list(s).no_duplicates(),
        stop_list(ServiceView { ssh: false, serial: false, vnc: false, ..s }) == Seq::<
            ConsoleKind,
        >::empty(),
{
    let l = stop_list(s);
    assert forall|kind: ConsoleKind| s.has(kind) <==> l.contains(kind) by {
        if s.has(kind) {
            match kind {
                ConsoleKind::SSH => {
                    assert(l[0] == kind);
                },
                ConsoleKind::Serial => {
                    let i = if s.ssh {
                        1int
                    } else {
                        0int
                    };
                    assert(l[i] == kind);
                },
                ConsoleKind::VNC => {
                    assert(l[l.len() - 1] == kind);
                },
            }
        }
    }
    assert(stop_list(ServiceView { ssh: false, serial: false, vnc: false, ..s }) =~= Seq::<
        ConsoleKind,
    >::empty());
}

/// The state after one console has had its turn in the connecting: what
/// [`Service::connect_with_config`] leaves, and after it
/// [`Service::end_connect`] if the configuration names the console. The slot
/// holds a console if and only if the configuration names one and connecting
/// went well.
pub open spec fn after_turn(s: ServiceView, c: ConfigView, kind: ConsoleKind, went_well: bool)
    -> ServiceView {
    if names_console(c, kind) {
        s.with(kind, false).with(kind, s.with(kind, false).has(kind) || went_well)
    } else {
        s.with(kind, false)
    }
}

/// The state after the connecting as a whole, where `failed` is the console
/// whose connecting failed, if one did: the consoles have their turn in
/// order, and the turn of the one that fails is the last.
pub open spec fn after_connecting(s: ServiceView, c: ConfigView, failed: Option<ConsoleKind>)
    -> ServiceView {
    let serial = after_turn(s, c, ConsoleKind::Serial, failed != Some(ConsoleKind::Serial));
    if failed == Some(ConsoleKind::Serial) {
        serial
    } else {
        let ssh = after_turn(serial, c, ConsoleKind::SSH, failed != Some(ConsoleKind::SSH));
        if failed == Some(ConsoleKind::SSH) {
            ssh
        } else {
            after_turn(ssh, c, ConsoleKind::VNC, failed != Some(ConsoleKind::VNC))
        }
    }
}

/// Putting a configuration in force stops what it replaces and nothing else.
/// Every console that has had its turn before a failure, or any console if
/// nothing fails, is connected if and only if the configuration names it. The
/// slot of the console that failed is empty. The consoles behind it have not
/// had their turn: they are as they were. The configuration in force is not
/// touched by the connecting.
pub proof fn lemma_connecting_ends_at_the_first_failure(
    s: ServiceView,
    c: ConfigView,
    failed: Option<ConsoleKind>,
)
    requires
        failed matches Some(k) ==> names_console(c, k),
    ensures
        forall|kind: ConsoleKind|
            (failed matches Some(k) ==> kind.position() < k.position()) ==> (#[trigger] after_connecting(
                s,
                c,
                failed,
            ).has(kind) <==> names_console(c, kind)),
        failed matches Some(k) ==> !after_connecting(s, c, failed).has(k),
        forall|kind: ConsoleKind|
            (failed matches Some(k) && kind.position() > k.position()) ==> (#[trigger] after_connecting(
                s,
                c,
                failed,
            ).has(kind) <==> s.has(kind)),
        after_connecting(s, c, failed).config == s.config,
        after_connecting(s, c, failed).enable_screenshot == s.enable_screenshot,
{
}

/// A question for the configuration, asked after a configuration has been put
/// in force, is answered from that configuration's environment.
pub proof fn lemma_get_after_set(s: ServiceView, config: ConfigView, key: Seq<char>)
    ensures
        (ServiceView { config: Some(config), ..s }).config_value(key) == env_value(
            config.env,
            key,
            config.env.len() as int,
        ),
{
}

} // verus!
