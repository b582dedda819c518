use adb_agent::adb::adb_devices;
use adb_agent::adb::recover_adb_server;
use adb_agent::adb::AdbCall;
use adb_agent::adb::AdbRequest;
use adb_agent::adb::Progress;
use adb_agent::adb::RecoverCall;
use adb_agent::app::App;
use adb_agent::recover::handle_recover;
use adb_agent::response::emit;
use adb_agent::response::error_response;
use adb_agent::response::good_response;
use adb_agent::response::is_recoverable_adb_error;
use adb_agent::response::response_from_output;
use adb_agent::response::AdbOutput;
use adb_agent::response::Datum;
use adb_agent::response::Field;
use adb_agent::response::OutputFormat;
use adb_agent::response::RecoverReport;
use adb_agent::response::Written;
use adb_agent::session::SessionMap;
use adb_agent::session::SessionState;
use adb_agent::session::SessionStore;

fn s(text: &str) -> String {
    text.to_string()
}

fn output(code: i32, stdout: &str, stderr: &str) -> AdbOutput {
    AdbOutput { exit_code: Some(code), stdout: s(stdout), stderr: s(stderr) }
}

fn ran(stdout: &str) -> Option<AdbOutput> {
    Some(output(0, stdout, ""))
}

fn app(device: Option<&str>, session: Option<&str>, env: Option<&str>) -> App {
    App {
        adb: s("adb"),
        cli_device: device.map(s),
        cli_session: session.map(s),
        env_session: env.map(s),
        auto_recover: true,
        format: OutputFormat::Text,
        session_path: Ok(s("/p")),
    }
}

fn store(current: Option<&str>, sessions: &[(&str, &str)]) -> Result<SessionStore, String> {
    let mut map = SessionMap::new();
    for (name, device) in sessions {
        map.insert(s(name), SessionState { device: s(device), updated_at_unix: 1 });
    }
    Ok(SessionStore { current: current.map(s), sessions: map })
}

fn step<C: std::fmt::Debug, T: std::fmt::Debug>(progress: Progress<C, T>) -> (AdbRequest, C) {
    match progress {
        Progress::Run(request, call) => (request, call),
        other => panic!("{other:?}"),
    }
}

fn done<C: std::fmt::Debug, T: std::fmt::Debug>(progress: Progress<C, T>) -> T {
    match progress {
        Progress::Done(value) => value,
        other => panic!("{other:?}"),
    }
}

fn error<C: std::fmt::Debug, T: std::fmt::Debug>(progress: Progress<C, T>) -> String {
    match progress {
        Progress::Fail(error) => error,
        other => panic!("{other:?}"),
    }
}

const LISTED: &str = "List of devices attached\nd device\nu unauthorized\no offline\n";

fn restart(expected: Option<&str>, force: bool) -> Option<RecoverCall> {
    let (request, call) = recover_adb_server(expected.map(s), force, 5);
    assert_eq!(request.args, vec!["devices", "-l"]);
    match call.resume("adb", ran(LISTED)) {
        Progress::Run(request, call) => {
            assert_eq!(request.args, vec!["kill-server"]);
            Some(call)
        }
        Progress::Done(report) => {
            assert!(!report.restarted_server && !report.reconnected_tcp);
            assert_eq!(report.after.len(), 3);
            None
        }
        Progress::Fail(error) => panic!("{error}"),
    }
}

#[test]
fn unauthorized_errors_are_not_auto_recoverable() {
    let output = AdbOutput {
        exit_code: Some(1),
        stdout: String::new(),
        stderr: "error: device unauthorized".to_string(),
    };

    assert!(!is_recoverable_adb_error(&output));
}

#[test]
fn missing_and_offline_devices_are_recoverable() {
    for complaint in [
        "error: device OFFLINE",
        "error: device 'x' not found",
        "error: no devices/emulators found",
        "Device Disconnected",
        "adb: failed to get feature set: x",
    ] {
        assert!(is_recoverable_adb_error(&output(1, "", complaint)));
        assert!(is_recoverable_adb_error(&output(1, complaint, "")));
        assert!(!is_recoverable_adb_error(&output(1, complaint, "Unauthorized")));
    }
    assert!(!is_recoverable_adb_error(&output(1, "", "no such file")));
    assert!(!is_recoverable_adb_error(&output(1, "not", "found")));
    assert!(!is_recoverable_adb_error(&output(127, "", "/system/bin/sh: foo: not found")));
    assert!(!is_recoverable_adb_error(&output(1, "device", "x: not found")));
    assert!(!is_recoverable_adb_error(&output(1, "", "not found: device")));
    assert!(!is_recoverable_adb_error(&output(127, "", "sh: device_config: not found")));
    assert!(!is_recoverable_adb_error(&output(127, "", "sh: device: not found")));
    assert!(!is_recoverable_adb_error(&output(1, "", "device 'x'\n' not found")));
    assert!(is_recoverable_adb_error(&output(1, "", "adb: device '' not found")));
    assert!(is_recoverable_adb_error(&output(1, "", "error: device not found")));
    assert!(is_recoverable_adb_error(&output(1, "", "x\nerror: Device Not Found\ny")));
}

#[test]
fn the_server_is_restarted_for_missing_and_offline_devices_only() {
    assert!(restart(Some("d"), false).is_none());
    assert!(restart(Some("u"), false).is_none());
    assert!(restart(Some("o"), false).is_some());
    assert!(restart(Some("missing"), false).is_some());
    assert!(restart(None, false).is_none());
    assert!(restart(Some("d"), true).is_some());
    assert!(restart(Some("u"), true).is_some());
}

#[test]
fn a_recovery_restarts_waits_and_lists_again() {
    let call = restart(Some("o"), false).unwrap();
    let (request, call) = step(call.resume("adb", Some(output(1, "", "no server"))));
    assert_eq!(request.args, vec!["start-server"]);
    assert_eq!(request.delay_ms, 5);
    let (request, call) = step(call.resume("adb", ran("")));
    assert_eq!(request.args, vec!["devices", "-l"]);
    assert_eq!(request.delay_ms, 0);
    let report = done(call.resume("adb", ran("List of devices attached\no device\n")));
    assert!(report.restarted_server);
    assert!(!report.reconnected_tcp);
    assert_eq!(report.expected_device.as_deref(), Some("o"));
    assert_eq!(report.before.len(), 3);
    assert_eq!(report.after.len(), 1);
}

#[test]
fn a_recovery_connects_again_over_tcp() {
    let call = restart(Some("10.0.0.1:5555"), false).unwrap();
    let (_, call) = step(call.resume("adb", ran("")));
    let (request, call) = step(call.resume("adb", ran("")));
    assert_eq!(request.args, vec!["connect", "10.0.0.1:5555"]);
    let (request, call) = step(call.resume("adb", Some(output(1, "", "refused"))));
    assert_eq!(request.args, vec!["devices", "-l"]);
    let report = done(call.resume("adb", None));
    assert!(report.reconnected_tcp);
    assert!(report.after.is_empty());
}

#[test]
fn a_recovery_fails_where_adb_cannot_be_started() {
    let told = "failed to execute `adb`";
    let (_, call) = recover_adb_server(None, false, 5);
    let (request, call) = step(call.resume("adb", None));
    assert_eq!(request.args, vec!["kill-server"]);
    assert_eq!(error(call.resume("adb", None)), told);
    let (_, call) = step(restart(Some("o"), false).unwrap().resume("adb", ran("")));
    assert_eq!(error(call.resume("adb", None)), told);
    let (_, call) = step(restart(Some("h:1"), false).unwrap().resume("adb", ran("")));
    let (_, call) = step(call.resume("adb", ran("")));
    assert_eq!(error(call.resume("adb", None)), told);
}

#[test]
fn devices_are_listed_or_adb_did_not_start() {
    assert_eq!(adb_devices("adb", &ran(LISTED)).unwrap().len(), 3);
    assert_eq!(adb_devices("x", &None).unwrap_err(), "failed to execute `x`");
}

#[test]
fn a_command_is_run_again_once_after_a_recovery() {
    let begin = || AdbCall::begin(Some(s("d")), vec![s("shell"), s("ls")], true);
    let (request, call) = begin();
    assert_eq!(request.command_line(), vec!["-s", "d", "shell", "ls"]);
    let lost = || Some(output(1, "", "error: device 'd' not found"));
    let (request, call) = step(call.resume("adb", lost()));
    assert_eq!(request.command_line(), vec!["devices", "-l"]);
    let (request, call) = step(call.resume("adb", ran("List of devices attached\nd device\n")));
    assert_eq!(request.args, vec!["kill-server"]);
    let (request, call) = step(call.resume("adb", ran("")));
    assert_eq!(request.args, vec!["start-server"]);
    assert_eq!(request.delay_ms, 700);
    let (request, call) = step(call.resume("adb", ran("")));
    assert_eq!(request.args, vec!["devices", "-l"]);
    let (request, call) = step(call.resume("adb", ran("")));
    assert_eq!(request.command_line(), vec!["-s", "d", "shell", "ls"]);
    let last = done(call.resume("adb", lost()));
    assert_eq!(last.exit_code, Some(1));

    let (_, call) = begin();
    assert_eq!(done(call.resume("adb", ran("fine"))).stdout, "fine");
    let (_, call) = begin();
    assert_eq!(done(call.resume("adb", Some(output(1, "", "bad")))).stderr, "bad");
    let (_, call) = begin();
    let denied = done(call.resume("adb", Some(output(1, "", "not found; unauthorized"))));
    assert_eq!(denied.exit_code, Some(1));
    let (_, call) = begin();
    assert_eq!(error(call.resume("adb", None)), "failed to execute `adb`");
    let (_, call) = AdbCall::begin(Some(s("d")), vec![s("ls")], false);
    assert_eq!(done(call.resume("adb", lost())).exit_code, Some(1));
}

#[test]
fn an_adb_command_recovers_only_on_a_device() {
    let (request, call) = app(None, None, None).adb(false, None, vec![s("x")]).unwrap();
    assert_eq!(request.command_line(), vec!["x"]);
    assert!(!call.recovers);
    let (_, call) = app(None, None, None).adb(true, Some(s("d")), vec![s("x")]).unwrap();
    assert!(call.recovers);
    let (request, call) = app(None, None, None).adb(false, Some(s("d")), vec![s("x")]).unwrap();
    assert_eq!(request.device, None);
    assert_eq!(call.device, None);
    assert_eq!(
        app(None, None, None).adb(true, None, vec![]).unwrap_err(),
        "internal error: adb command requested device mode without a device"
    );
}

#[test]
fn the_device_is_named_or_that_of_the_session() {
    let all = || store(Some("a"), &[("a", "da"), ("b", "db"), ("c", "dc")]);
    assert_eq!(app(Some("x"), Some("b"), None).device(&all()).unwrap(), "x");
    assert_eq!(app(None, Some("b"), Some("c")).device(&all()).unwrap(), "db");
    assert_eq!(app(None, None, Some("c")).device(&all()).unwrap(), "dc");
    assert_eq!(app(None, None, None).device(&all()).unwrap(), "da");
    assert_eq!(app(None, Some("b"), Some("c")).session_name_override(), Some("b"));
    assert_eq!(app(None, None, Some("c")).session_name_override(), Some("c"));
    assert_eq!(app(None, None, None).session_name_override(), None);
    let missing = app(None, Some("z"), None);
    assert_eq!(missing.session_device(&all()).unwrap_err(), "session `z` does not exist");
    assert_eq!(
        missing.device(&all()).unwrap_err(),
        "no device selected; pass --device <serial>, --session <name>, or run `adb-agent session \
         use <serial> --name <name>`"
    );
    assert_eq!(app(None, None, None).session_device(&Err(s("bad"))).unwrap_err(), "bad");
    assert_eq!(
        app(None, None, None).session_device(&store(None, &[])).unwrap_err(),
        "no session selected; run `adb-agent session select <name>` or pass `--session <name>`"
    );
}

fn report(before: &str, after: &str, expected: Option<&str>) -> RecoverReport {
    RecoverReport {
        expected_device: expected.map(s),
        restarted_server: true,
        reconnected_tcp: false,
        before: adb_devices("adb", &ran(before)).unwrap(),
        after: adb_devices("adb", &ran(after)).unwrap(),
    }
}

#[test]
fn a_recovery_is_answered_by_the_state_of_the_device() {
    let good = handle_recover(report("", LISTED, Some("d")));
    assert!(good.ok);
    assert_eq!(good.action, "recover");
    assert_eq!(good.exit_code, Some(0));
    assert_eq!(good.device.as_deref(), Some("d"));
    assert_eq!(good.stdout, "d\tdevice\nu\tunauthorized\no\toffline\n");
    assert_eq!(good.error, None);
    let offline = handle_recover(report(LISTED, LISTED, Some("o")));
    assert!(!offline.ok);
    assert_eq!(offline.exit_code, Some(1));
    assert_eq!(
        offline.error.as_deref(),
        Some("selected device is still missing or offline after adb server restart")
    );
    let waiting = handle_recover(report("", LISTED, Some("u")));
    assert!(waiting.error.unwrap().starts_with("device `u` is unauthorized; unlock the phone"));
    let waited = handle_recover(report(LISTED, "List of devices attached\nu device\n", Some("u")));
    assert!(!waited.ok);
    assert!(matches!(&waited.data[1].value, Datum::Maybe(Some(_))));
    let nothing = handle_recover(report("", "", None));
    assert_eq!(nothing.stdout, "no devices\n");
    assert!(!nothing.ok);
}

#[test]
fn answers_carry_the_errors_of_adb() {
    let good = response_from_output("ls", Some(s("d")), output(0, "out", "warned"), vec![]);
    assert!(good.ok);
    assert_eq!(good.error, None);
    assert_eq!(good.stderr, "warned");
    let bad = response_from_output("ls", None, output(1, "out", " broken \n"), vec![]);
    assert!(!bad.ok);
    assert_eq!(bad.error.as_deref(), Some("broken"));
    assert_eq!(bad.stderr, " broken \n");
    let mute = response_from_output("ls", None, output(3, "out", "\n"), vec![]);
    assert_eq!(mute.error.as_deref(), Some("adb command failed"));
    assert_eq!(mute.exit_code, Some(3));
    let denied = response_from_output("ls", None, output(1, "UNAUTHORIZED", "x"), vec![]);
    assert_eq!(
        denied.error.as_deref(),
        Some(
            "device is unauthorized; unlock the phone and accept the USB debugging RSA \
             authorization prompt"
        )
    );
    let killed = AdbOutput { exit_code: None, stdout: s(""), stderr: s("") };
    let killed = response_from_output("ls", None, killed, vec![]);
    assert!(!killed.ok);
    assert_eq!(killed.exit_code, None);
}

#[test]
fn answers_are_written_in_text_or_json() {
    let field = || vec![Field { key: "k", value: Datum::Int(1) }];
    let shown = emit(OutputFormat::Text, &good_response("a", None, s("out\n"), field()));
    assert!(matches!(shown.stdout, Written::Text(text) if text == "out\n"));
    assert_eq!((shown.stderr.as_str(), shown.exit_code), ("", 0));
    let shown = emit(OutputFormat::Text, &good_response("a", None, s(""), field()));
    assert!(matches!(shown.stdout, Written::PrettyData));
    let shown = emit(OutputFormat::Text, &good_response("a", None, s(""), vec![]));
    assert!(matches!(shown.stdout, Written::Nothing));
    let bad = response_from_output("a", None, output(2, "out", "oops\n"), vec![]);
    let shown = emit(OutputFormat::Text, &bad);
    assert!(matches!(shown.stdout, Written::Nothing));
    assert_eq!((shown.stderr.as_str(), shown.exit_code), ("oops\noops\n", 1));
    let shown = emit(OutputFormat::Json, &bad);
    assert!(matches!(shown.stdout, Written::PrettyResponse));
    assert_eq!((shown.stderr.as_str(), shown.exit_code), ("", 1));
    let failed = error_response(Some(s("d")), s("no way"));
    assert_eq!(failed.action, "error");
    assert_eq!(failed.exit_code, None);
    assert_eq!(emit(OutputFormat::Text, &failed).stderr, "no way\n");
}
