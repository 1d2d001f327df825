use autotest::msg::{MsgRes, MsgResError};
use autotest::script::{
    assert_run_result, assert_script_run, collect_paths, config_value_result, console_level,
    done_result, import_pattern, into_exception, log_level, screenshot_result, script_run_result,
    search_path, seconds_to_millis, ApiError, ExceptionKind, Level, EXIT_INTERRUPTED, EXIT_OK,
};
use autotest::needle::PNG;
use autotest::tty::ConsoleError;

#[test]
fn log_level_names() {
    assert_eq!(log_level(Some("trace")), Some(Level::Trace));
    assert_eq!(log_level(Some("debug")), Some(Level::Debug));
    assert_eq!(log_level(Some("info")), Some(Level::Info));
    assert_eq!(log_level(Some("warn")), Some(Level::Warn));
    assert_eq!(log_level(Some("error")), Some(Level::Error));
    assert_eq!(log_level(Some("INFO")), None);
    assert_eq!(log_level(Some("")), None);
    assert_eq!(log_level(None), None);
    assert_eq!(console_level("log"), Some(Level::Info));
    assert_eq!(console_level("info"), Some(Level::Info));
    assert_eq!(console_level("error"), Some(Level::Error));
    assert_eq!(console_level("debug"), Some(Level::Debug));
    assert_eq!(console_level("warn"), None);
    assert_eq!((EXIT_OK, EXIT_INTERRUPTED), (0, 2));
}

#[test]
fn errors_become_exceptions() {
    assert_eq!(
        into_exception(ApiError::ServerStopped),
        (ExceptionKind::Driver, "server stopped, maybe needle not found")
    );
    assert_eq!(
        into_exception(ApiError::ServerInvalidResponse),
        (ExceptionKind::Driver, "server return invalid response, please open an issue")
    );
    assert_eq!(into_exception(ApiError::Timeout), (ExceptionKind::Timeout, "timeout"));
    assert_eq!(into_exception(ApiError::AssertFailed), (ExceptionKind::Assert, "assert failed"));
    assert_eq!(
        into_exception(ApiError::Cancel),
        (ExceptionKind::Driver, "cancelled, the driver is stopping")
    );
}

#[test]
fn a_command_that_must_succeed_passes_its_error_on() {
    assert_eq!(assert_run_result(Ok((0, "out".to_string()))), Ok("out".to_string()));
    assert_eq!(assert_run_result(Ok((7, "out".to_string()))), Err(ApiError::AssertFailed));
    assert_eq!(assert_run_result(Ok((-1, String::new()))), Err(ApiError::AssertFailed));
    assert_eq!(assert_run_result(Err(ApiError::Cancel)), Err(ApiError::Cancel));
    assert_eq!(assert_run_result(Err(ApiError::Timeout)), Err(ApiError::Timeout));
    assert_eq!(assert_run_result(Err(ApiError::ServerStopped)), Err(ApiError::ServerStopped));
}

#[test]
fn a_command_that_must_succeed() {
    assert_eq!(assert_script_run(Ok((0, "out".to_string()))), Ok("out".to_string()));
    assert_eq!(
        assert_script_run(Ok((7, "out".to_string()))),
        Err((ExceptionKind::Assert, "return code should be 0, but got 7".to_string()))
    );
    assert_eq!(
        assert_script_run(Ok((-1, String::new()))),
        Err((ExceptionKind::Assert, "return code should be 0, but got -1".to_string()))
    );
    assert_eq!(
        assert_script_run(Ok((i32::MIN, String::new()))),
        Err((ExceptionKind::Assert, "return code should be 0, but got -2147483648".to_string()))
    );
    assert_eq!(
        assert_script_run(Err(ConsoleError::Timeout)),
        Err((ExceptionKind::Timeout, "assert script run timeout".to_string()))
    );
    assert_eq!(
        assert_script_run(Err(ConsoleError::NoConnection("gone".to_string()))),
        Err((ExceptionKind::Timeout, "assert script run timeout".to_string()))
    );
    assert_eq!(
        assert_script_run(Err(ConsoleError::Cancel)),
        Err((ExceptionKind::Driver, "assert script run cancelled".to_string()))
    );
}

#[test]
fn search_path_finds_the_imported_files() {
    let script = "import { add } from \"../lib.js\"\n\timport * as u from './util/u.js'\nexport function run(c) {\n    return add(1, 2) + c\n}\n";
    assert_eq!(
        search_path(script),
        Some(vec!["../lib.js".to_string(), "./util/u.js".to_string()])
    );
    assert_eq!(search_path("let x = 1;"), Some(Vec::new()));
    assert_ne!(search_path(script), Some(vec![script.to_string()]));
    assert_eq!(import_pattern().matches("import").count(), 1);
    assert_eq!(
        collect_paths(vec![Some("a".to_string()), None, Some("b".to_string())]),
        vec!["a".to_string(), "b".to_string()]
    );
}

#[test]
fn answers_are_read_for_the_script() {
    assert_eq!(
        script_run_result(MsgRes::ScriptRun { code: 3, value: "x".to_string() }),
        Ok((3, "x".to_string()))
    );
    assert_eq!(script_run_result(MsgRes::Error(MsgResError::Timeout)), Err(ApiError::Timeout));
    assert_eq!(script_run_result(MsgRes::Error(MsgResError::Cancel)), Err(ApiError::Cancel));
    assert_eq!(done_result(MsgRes::Error(MsgResError::Cancel)), Err(ApiError::Cancel));
    assert_eq!(script_run_result(MsgRes::Done), Err(ApiError::ServerInvalidResponse));
    assert_eq!(
        script_run_result(MsgRes::Error(MsgResError::String("no console supported".to_string()))),
        Err(ApiError::ServerInvalidResponse)
    );
    assert_eq!(done_result(MsgRes::Done), Ok(()));
    assert_eq!(done_result(MsgRes::Error(MsgResError::Timeout)), Err(ApiError::Timeout));
    assert_eq!(
        done_result(MsgRes::Error(MsgResError::String("match timeout".to_string()))),
        Err(ApiError::AssertFailed)
    );
    assert_eq!(done_result(MsgRes::ConfigValue(None)), Err(ApiError::ServerInvalidResponse));
    assert_eq!(
        config_value_result(MsgRes::ConfigValue(Some("v".to_string()))),
        Ok(Some("v".to_string()))
    );
    assert_eq!(config_value_result(MsgRes::Done), Err(ApiError::ServerInvalidResponse));
    assert_eq!(seconds_to_millis(5), 5000);
    assert_eq!(seconds_to_millis(0), 0);
    assert_eq!(seconds_to_millis(-3), 0);
    assert_eq!(seconds_to_millis(i32::MAX), 2_147_483_647_000);
}

#[test]
fn a_screenshot_is_read_for_the_script() {
    let png = PNG::new(1, 2, vec![1, 2, 3, 4, 5, 6]).unwrap();
    let got = screenshot_result(MsgRes::Screenshot(png.duplicate())).unwrap();
    assert!(got.same_as(&png));
    assert_eq!(screenshot_result(MsgRes::Error(MsgResError::Cancel)).err(), Some(ApiError::Cancel));
    assert_eq!(screenshot_result(MsgRes::Error(MsgResError::Timeout)).err(), Some(ApiError::Timeout));
    assert_eq!(
        screenshot_result(MsgRes::Error(MsgResError::String("no vnc".to_string()))).err(),
        Some(ApiError::Timeout)
    );
    assert_eq!(screenshot_result(MsgRes::Done).err(), Some(ApiError::ServerInvalidResponse));
}
