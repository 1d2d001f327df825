use autotest::cli::{action_request, Cli, Commands, VNCAction};
use autotest::config::{Config, ConsoleSSH, ConsoleSerial, ConsoleVNC};
use autotest::msg::{MsgReq, MsgRes, MsgResError, TextConsole, VNC};
use autotest::server::{Inbox, Server, Tick};
use autotest::service::{
    after_connect, choose_console, config_invalid, connect_failed, done_reply, failed_reply,
    script_run_reply, ConnectStep, ConsoleKind, Handling, Service, VncHandling,
};
use autotest::tty::{ConsoleError, TtySetting};
use autotest::vnc::{Expect, VNCEventReq};

fn env(pairs: &[(&str, &str)]) -> Vec<(String, String)> {
    pairs.iter().map(|(k, v)| (k.to_string(), v.to_string())).collect()
}

fn serial_line() -> ConsoleSerial {
    ConsoleSerial {
        serial_file: "/dev/ttyUSB0".to_string(),
        bund_rate: 115200,
        setting: TtySetting { disable_echo: true, linebreak: "\n".to_string() },
        log_file: None,
    }
}

fn shell() -> ConsoleSSH {
    ConsoleSSH {
        host: "h".to_string(),
        port: 22,
        username: "root".to_string(),
        password: None,
        private_key: None,
        setting: TtySetting { disable_echo: false, linebreak: "\n".to_string() },
        log_file: None,
    }
}

fn screen() -> ConsoleVNC {
    ConsoleVNC {
        host: "h".to_string(),
        port: 5900,
        password: None,
        needle_dir: None,
        screenshot_dir: None,
    }
}

fn naming(serial: bool, ssh: bool, vnc: bool) -> Config {
    Config::new(
        if serial { Some(serial_line()) } else { None },
        if ssh { Some(shell()) } else { None },
        if vnc { Some(screen()) } else { None },
        Vec::new(),
    )
    .unwrap()
}

fn connect_all(s: &mut Service, c: &Config) {
    let mut kind = Some(ConsoleKind::first());
    while let Some(k) = kind {
        if s.connect_with_config(c, k).connect {
            s.end_connect(k, Ok(())).unwrap();
        }
        kind = k.next();
    }
}

fn connected(serial: bool, ssh: bool, vnc: bool) -> Service {
    let mut s = Service::new(false);
    connect_all(&mut s, &naming(serial, ssh, vnc));
    s
}

fn error_text(res: MsgRes) -> String {
    match res {
        MsgRes::Error(MsgResError::String(s)) => s,
        other => panic!("unexpected {:?}", other),
    }
}

#[test]
fn console_is_chosen_by_name_or_by_preference() {
    let (serial, ssh) = (TextConsole::Serial, TextConsole::SSH);
    assert_eq!(choose_console(None, true, true), Some(serial));
    assert_eq!(choose_console(None, true, false), Some(ssh));
    assert_eq!(choose_console(None, false, true), Some(serial));
    assert_eq!(choose_console(None, false, false), None);
    assert_eq!(choose_console(Some(ssh), true, true), Some(ssh));
    assert_eq!(choose_console(Some(ssh), false, true), None);
    assert_eq!(choose_console(Some(serial), true, false), None);
    assert_eq!(choose_console(Some(serial), false, true), Some(serial));
}

#[test]
fn set_config_then_get_config() {
    let mut s = Service::new(false);
    match s.handle_req(MsgReq::GetConfig { key: "user".to_string() }) {
        Handling::Reply(MsgRes::ConfigValue(None)) => {}
        other => panic!("unexpected {:?}", other),
    }
    match s.handle_req(MsgReq::SetConfig { toml_str: "[env]".to_string() }) {
        Handling::Configure { toml_str } => assert_eq!(toml_str, "[env]"),
        other => panic!("unexpected {:?}", other),
    }
    let config = Config::new(None, None, None, env(&[("user", "root"), ("home", "/root")])).unwrap();
    assert!(matches!(s.set_config(config), MsgRes::Done));
    match s.handle_req(MsgReq::GetConfig { key: "user".to_string() }) {
        Handling::Reply(MsgRes::ConfigValue(Some(v))) => assert_eq!(v, "root"),
        other => panic!("unexpected {:?}", other),
    }
    match s.handle_req(MsgReq::GetConfig { key: "home".to_string() }) {
        Handling::Reply(MsgRes::ConfigValue(Some(v))) => assert_eq!(v, "/root"),
        other => panic!("unexpected {:?}", other),
    }
    match s.handle_req(MsgReq::GetConfig { key: "shell".to_string() }) {
        Handling::Reply(MsgRes::ConfigValue(None)) => {}
        other => panic!("unexpected {:?}", other),
    }
}

#[test]
fn config_refuses_a_name_that_stands_twice() {
    assert!(Config::new(None, None, None, env(&[("a", "1"), ("b", "2"), ("a", "3")])).is_none());
    let c = Config::new(None, None, Some(screen()), env(&[("a", "1")])).unwrap();
    assert!(c.vnc().is_some() && c.ssh().is_none() && c.serial().is_none());
    assert_eq!(c.get_env(&"a".to_string()), Some("1".to_string()));
    let c = c.without_text_consoles();
    assert!(c.vnc().is_some());
    assert_eq!(c.get_env(&"a".to_string()), Some("1".to_string()));
}

#[test]
fn script_run_goes_to_the_chosen_console() {
    let run = |console| MsgReq::ScriptRun { cmd: "echo hello".to_string(), console, timeout: 5000 };
    match connected(true, true, false).handle_req(run(None)) {
        Handling::Exec { console: TextConsole::Serial, cmd, timeout: 5000 } => {
            assert_eq!(cmd, "echo hello")
        }
        other => panic!("unexpected {:?}", other),
    }
    assert!(matches!(
        connected(false, true, false).handle_req(run(None)),
        Handling::Exec { console: TextConsole::SSH, .. }
    ));
    match connected(false, true, false).handle_req(run(Some(TextConsole::Serial))) {
        Handling::Reply(res) => assert_eq!(error_text(res), "no console supported"),
        other => panic!("unexpected {:?}", other),
    }
    match connected(false, false, true).handle_req(MsgReq::WaitString {
        console: None,
        s: "READY".to_string(),
        timeout: 1000,
    }) {
        Handling::Reply(res) => assert_eq!(error_text(res), "no console supported"),
        other => panic!("unexpected {:?}", other),
    }
    assert!(matches!(
        connected(true, false, false).handle_req(MsgReq::WriteString {
            console: None,
            s: "x".to_string(),
            timeout: 1
        }),
        Handling::Write { console: TextConsole::Serial, timeout: 1, .. }
    ));
    assert!(matches!(
        connected(true, true, false).handle_req(MsgReq::WaitString {
            console: Some(TextConsole::SSH),
            s: "x".to_string(),
            timeout: 1
        }),
        Handling::Wait { console: TextConsole::SSH, .. }
    ));
}

#[test]
fn separate_run_needs_ssh() {
    let req = || MsgReq::SSHScriptRunSeperate { cmd: "id".to_string(), timeout: 1 };
    assert!(matches!(connected(false, true, false).handle_req(req()), Handling::ExecSeparate { .. }));
    match connected(true, false, false).handle_req(req()) {
        Handling::Reply(MsgRes::ScriptRun { code: -1, value }) => assert_eq!(value, "no ssh"),
        other => panic!("unexpected {:?}", other),
    }
}

#[test]
fn replies_keep_the_kind_of_failure() {
    match script_run_reply(Ok((7, "out".to_string()))) {
        MsgRes::ScriptRun { code: 7, value } => assert_eq!(value, "out"),
        other => panic!("unexpected {:?}", other),
    }
    assert!(matches!(script_run_reply(Err(ConsoleError::Cancel)), MsgRes::Error(MsgResError::Cancel)));
    assert!(matches!(script_run_reply(Err(ConsoleError::Timeout)), MsgRes::Error(MsgResError::Timeout)));
    assert_eq!(
        error_text(script_run_reply(Err(ConsoleError::NoConnection("no ssh".to_string())))),
        "no connection, no ssh"
    );
    assert!(matches!(done_reply(Ok(())), MsgRes::Done));
    assert!(matches!(done_reply(Err(ConsoleError::Cancel)), MsgRes::Error(MsgResError::Cancel)));
    assert!(matches!(done_reply(Err(ConsoleError::Timeout)), MsgRes::Error(MsgResError::Timeout)));
    assert_eq!(error_text(done_reply(Err(ConsoleError::NoConnection("x".to_string())))), "no connection, x");
    assert!(matches!(failed_reply(ConsoleError::Cancel), MsgRes::Error(MsgResError::Cancel)));
    assert_eq!(error_text(config_invalid("bad key")), "config invalid, reason = bad key");
    assert_eq!(
        error_text(connect_failed(&ConsoleError::NoConnection("refused".to_string()))),
        "connect failed, reason = no connection, refused"
    );
    assert_eq!(error_text(connect_failed(&ConsoleError::Timeout)), "connect failed, reason = timeout");
    assert_eq!(ConsoleError::Cancel.describe(), "cancel");
}

#[test]
fn vnc_requests_need_a_screen() {
    let none = connected(true, true, false);
    match none.handle_vnc_req(VNC::MouseHide, 0) {
        VncHandling::Reply(res) => assert_eq!(error_text(res), "no vnc"),
        _ => panic!("an answer was expected"),
    }
    assert!(matches!(none.handle_req(MsgReq::VNC(VNC::MouseHide)), Handling::Vnc(VNC::MouseHide)));
    let s = connected(false, false, true);
    match s.handle_vnc_req(VNC::MouseMove { x: 1, y: 2 }, 0) {
        VncHandling::Call { event: VNCEventReq::MouseMove(1, 2), expect: Expect::Done, screenshot: None } => {}
        _ => panic!("a call was expected"),
    }
    let mut loud = Service::new(true);
    connect_all(&mut loud, &naming(false, false, true));
    match loud.handle_vnc_req(VNC::MouseDrag { x: 1, y: 2 }, 0) {
        VncHandling::Call { screenshot: Some(name), .. } => assert_eq!(name, "mousedrag"),
        _ => panic!("a call was expected"),
    }
    let check = VNC::CheckScreen {
        tag: "login".to_string(),
        threshold: 900_000,
        timeout: 5000,
        click: true,
        move_only: false,
        delay: None,
    };
    match loud.handle_vnc_req(check, 100) {
        VncHandling::Check { mut wait, screenshot: Some(name) } => {
            assert_eq!(name, "checkscreen");
            assert_eq!(wait.tag(), "login");
            assert!(wait.begin_attempt(5100).is_none());
            assert!(wait.begin_attempt(5101).is_some());
        }
        _ => panic!("a wait was expected"),
    }
}

#[test]
fn connecting_stops_what_was_connected_and_a_failure_leaves_the_slot_empty() {
    let mut s = Service::new(false);
    assert_eq!(ConsoleKind::first(), ConsoleKind::Serial);
    assert_eq!(ConsoleKind::Serial.next(), Some(ConsoleKind::SSH));
    assert_eq!(ConsoleKind::SSH.next(), Some(ConsoleKind::VNC));
    assert_eq!(ConsoleKind::VNC.next(), None);
    let c = naming(true, false, false);
    assert_eq!(
        s.connect_with_config(&c, ConsoleKind::Serial),
        ConnectStep { stop_previous: false, connect: true }
    );
    assert!(s.end_connect(ConsoleKind::Serial, Ok(())).is_ok());
    assert!(s.has(ConsoleKind::Serial));
    assert_eq!(
        s.connect_with_config(&c, ConsoleKind::Serial),
        ConnectStep { stop_previous: true, connect: true }
    );
    assert!(!s.has(ConsoleKind::Serial));
    assert!(matches!(
        s.end_connect(ConsoleKind::Serial, Err(ConsoleError::NoConnection("gone".to_string()))),
        Err(ConsoleError::NoConnection(_))
    ));
    assert!(!s.has(ConsoleKind::Serial));
    assert_eq!(
        s.connect_with_config(&c, ConsoleKind::SSH),
        ConnectStep { stop_previous: false, connect: false }
    );
    let mut both = connected(true, true, false);
    assert_eq!(
        both.connect_with_config(&c, ConsoleKind::SSH),
        ConnectStep { stop_previous: true, connect: false }
    );
    assert!(!both.has(ConsoleKind::SSH));
    assert!(s.config().is_none());
}

#[test]
fn stopping_the_server_stops_every_console_once() {
    let mut server = Server::new(connected(true, true, true));
    assert!(server.try_stop(false).is_none());
    assert_eq!(
        server.try_stop(true),
        Some(vec![ConsoleKind::SSH, ConsoleKind::Serial, ConsoleKind::VNC])
    );
    assert_eq!(server.try_stop(true), Some(vec![]));
    assert!(matches!(server.pool(Inbox::Empty), Tick::Exit));
    let mut partly = Server::new(connected(true, false, true));
    assert!(partly.repo().has(ConsoleKind::VNC));
    assert_eq!(partly.try_stop(true), Some(vec![ConsoleKind::Serial, ConsoleKind::VNC]));
    assert!(!partly.repo().has(ConsoleKind::VNC));
}

#[test]
fn a_tick_takes_one_request() {
    let mut server = Server::new(Service::new(false));
    assert!(matches!(server.pool(Inbox::Empty), Tick::Idle(20)));
    assert!(matches!(
        server.pool(Inbox::Request(MsgReq::GetConfig { key: "k".to_string() })),
        Tick::Work(MsgReq::GetConfig { .. })
    ));
    assert!(matches!(server.pool(Inbox::Disconnected), Tick::Exit));
    assert!(matches!(server.pool(Inbox::Empty), Tick::Exit));
    assert_eq!(Server::rest_of_tick(100, 100), 16);
    assert_eq!(Server::rest_of_tick(100, 110), 6);
    assert_eq!(Server::rest_of_tick(100, 116), 0);
    assert_eq!(Server::rest_of_tick(100, 500), 0);
    assert_eq!(Server::rest_of_tick(100, 90), 16);
    let c = naming(false, false, false);
    assert!(!server.repo_mut().connect_with_config(&c, ConsoleKind::SSH).connect);
}

#[test]
fn command_line_actions_become_requests() {
    assert!(matches!(
        action_request(VNCAction::Move { x: 3, y: 4 }),
        MsgReq::VNC(VNC::MouseMove { x: 3, y: 4 })
    ));
    assert!(matches!(action_request(VNCAction::Click), MsgReq::VNC(VNC::MouseClick)));
    assert!(matches!(action_request(VNCAction::RClick), MsgReq::VNC(VNC::MouseRClick)));
    let cli = Cli { command: Commands::VncDo { config: "c.toml".to_string(), action: VNCAction::Click } };
    assert!(cli.screen_only());
    let cli = Cli { command: Commands::Record { config: None } };
    assert!(!cli.screen_only());
}

#[test]
fn a_failure_ends_the_connecting() {
    assert_eq!(after_connect(ConsoleKind::Serial, &Ok(())), Some(ConsoleKind::SSH));
    assert_eq!(after_connect(ConsoleKind::SSH, &Ok(())), Some(ConsoleKind::VNC));
    assert_eq!(after_connect(ConsoleKind::VNC, &Ok(())), None);
    assert_eq!(after_connect(ConsoleKind::Serial, &Err(ConsoleError::Timeout)), None);
    assert_eq!(
        after_connect(ConsoleKind::SSH, &Err(ConsoleError::NoConnection("refused".to_string()))),
        None
    );
    let mut s = connected(true, true, true);
    let c = naming(true, true, true);
    let mut kind = Some(ConsoleKind::first());
    let mut seen = Vec::new();
    while let Some(k) = kind {
        seen.push(k);
        assert!(s.connect_with_config(&c, k).connect);
        let result = if k == ConsoleKind::SSH { Err(ConsoleError::Timeout) } else { Ok(()) };
        kind = after_connect(k, &result);
        let _ = s.end_connect(k, result);
    }
    assert_eq!(seen, vec![ConsoleKind::Serial, ConsoleKind::SSH]);
    assert!(s.has(ConsoleKind::Serial) && !s.has(ConsoleKind::SSH) && s.has(ConsoleKind::VNC));
}

#[test]
fn a_configuration_gives_back_its_consoles() {
    let c = Config::new(Some(serial_line()), Some(shell()), Some(screen()), env(&[("a", "1")])).unwrap();
    let serial = c.serial().as_ref().unwrap();
    assert_eq!(serial.serial_file, "/dev/ttyUSB0");
    assert_eq!(serial.bund_rate, 115200);
    assert!(serial.setting.disable_echo);
    assert_eq!(serial.setting.linebreak, "\n");
    assert!(serial.log_file.is_none());
    let ssh = c.ssh().as_ref().unwrap();
    assert_eq!((ssh.host.as_str(), ssh.port, ssh.username.as_str()), ("h", 22, "root"));
    assert!(ssh.password.is_none() && ssh.private_key.is_none() && !ssh.setting.disable_echo);
    let vnc = c.vnc().as_ref().unwrap();
    assert_eq!((vnc.host.as_str(), vnc.port), ("h", 5900));
    assert!(vnc.password.is_none() && vnc.needle_dir.is_none() && vnc.screenshot_dir.is_none());
    let c = c.without_text_consoles();
    assert!(c.serial().is_none() && c.ssh().is_none());
    assert_eq!(c.vnc().as_ref().unwrap().port, 5900);
    assert_eq!(c.get_env(&"a".to_string()), Some("1".to_string()));
}
