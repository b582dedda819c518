use std::io::Cursor;

use adb_agent::app::App;
use adb_agent::commands::AppCommand;
use adb_agent::commands::Commands;
use adb_agent::commands::DeviceCommand;
use adb_agent::commands::PlainCommand;
use adb_agent::commands::SessionCommand;
use adb_agent::commands::ShotOptions;
use adb_agent::commands::UiCommand;
use adb_agent::dispatch::dispatch;
use adb_agent::dispatch::settle;
use adb_agent::dispatch::Flow;
use adb_agent::dispatch::Turn;
use adb_agent::response::AdbOutput;
use adb_agent::response::Datum;
use adb_agent::response::OutputFormat;
use adb_agent::response::Response;
use adb_agent::response::ScreenshotFormat;
use adb_agent::session::SessionMap;
use adb_agent::session::SessionState;
use adb_agent::session::SessionStore;
use adb_agent::session::WriteOutcome;
use adb_agent::steps::Action;
use adb_agent::steps::Capture;
use adb_agent::steps::Event;

fn s(text: &str) -> String {
    text.to_string()
}

fn app(device: Option<&str>, recovers: bool) -> App {
    App {
        adb: s("adb"),
        cli_device: device.map(s),
        cli_session: None,
        env_session: None,
        auto_recover: recovers,
        format: OutputFormat::Text,
        session_path: Ok(s("/p")),
    }
}

fn ran(code: i32, stdout: &str, stderr: &str) -> Event {
    Event::Ran(Some(AdbOutput { exit_code: Some(code), stdout: s(stdout), stderr: s(stderr) }))
}

fn sessions(device: &str) -> Event {
    let mut map = SessionMap::new();
    map.insert(s("a"), SessionState { device: s(device), updated_at_unix: 1 });
    Event::Store(Ok(SessionStore { current: Some(s("a")), sessions: map }))
}

fn due(turn: Turn) -> (Action, Flow) {
    match turn {
        Turn::Do(action, flow) => (action, flow),
        other => panic!("{other:?}"),
    }
}

fn answer(turn: Turn) -> Response {
    match turn {
        Turn::Done(response) => response,
        other => panic!("{other:?}"),
    }
}

fn line(action: Action) -> Vec<String> {
    match action {
        Action::Adb(request) => request.command_line(),
        Action::Capture(args) => args,
        other => panic!("{other:?}"),
    }
}

fn keys(response: &Response) -> Vec<&str> {
    response.data.iter().map(|field| field.key).collect()
}

const UI: &str = "<hierarchy><node text='A' clickable='true'><node text='b'/></node></hierarchy>";

#[test]
fn a_plain_command_is_one_run() {
    let app = app(None, true);
    let command = Commands::Plain { command: PlainCommand::Devices };
    let (action, flow) = due(dispatch(&app, command));
    assert_eq!(line(action), vec!["devices", "-l"]);
    let response = answer(flow.resume(&app, ran(0, "List of devices attached\nd device\n", "")));
    assert!(response.ok);
    assert_eq!(response.action, "devices");
    assert_eq!(response.device, None);
    assert_eq!(keys(&response), vec!["devices"]);
}

#[test]
fn a_named_device_is_used_at_once() {
    let app = app(Some("d"), false);
    let command = Commands::Device { command: DeviceCommand::Ls { path: s("/x") } };
    let (action, flow) = due(dispatch(&app, command));
    assert_eq!(line(action), vec!["-s", "d", "shell", "ls", "-la", "/x"]);
    let response = answer(flow.resume(&app, ran(1, "", "denied")));
    assert!(!response.ok);
    assert_eq!(response.action, "ls");
    assert_eq!(response.device.as_deref(), Some("d"));
    assert_eq!(response.error.as_deref(), Some("denied"));
}

#[test]
fn the_device_of_the_session_is_used() {
    let app = app(None, false);
    let command = Commands::Device { command: DeviceCommand::Keyevent { key: s("HOME") } };
    let (action, flow) = due(dispatch(&app, command));
    assert!(matches!(action, Action::ReadStore));
    let (action, _) = due(flow.resume(&app, sessions("q")));
    assert_eq!(line(action), vec!["-s", "q", "shell", "input", "keyevent", "HOME"]);
}

#[test]
fn without_a_device_the_command_fails() {
    let app = app(None, false);
    let command = Commands::Device { command: DeviceCommand::Keyevent { key: s("HOME") } };
    let (_, flow) = due(dispatch(&app, command));
    let (action, flow) = due(flow.resume(&app, Event::Store(Err(s("unreadable")))));
    assert!(matches!(action, Action::ReadStore));
    let response = answer(flow.resume(&app, Event::Store(Err(s("unreadable")))));
    assert!(!response.ok);
    assert_eq!(response.action, "error");
    assert_eq!(response.device, None);
    assert!(response.error.unwrap().starts_with("no device selected; pass --device <serial>"));
}

#[test]
fn a_failure_names_the_device_of_the_session() {
    let app = app(None, false);
    let command = Commands::Plain { command: PlainCommand::KillServer };
    let (_, flow) = due(dispatch(&app, command));
    let (action, flow) = due(flow.resume(&app, Event::Ran(None)));
    assert!(matches!(action, Action::ReadStore));
    let response = answer(flow.resume(&app, sessions("q")));
    assert_eq!(response.device.as_deref(), Some("q"));
    assert_eq!(response.error.as_deref(), Some("failed to execute `adb`"));
}

#[test]
fn an_event_of_another_kind_is_stray() {
    let app = app(Some("d"), false);
    let (_, flow) = due(dispatch(&app, Commands::Raw { no_device: false, args: vec![s("x")] }));
    let response = answer(flow.resume(&app, Event::Stored(true)));
    assert_eq!(
        response.error.as_deref(),
        Some("internal error: the event does not answer the action")
    );
}

#[test]
fn raw_arguments_go_with_a_device_if_there_is_one() {
    let unnamed = app(None, true);
    let args = || vec![s("shell"), s("wm")];
    let (action, flow) =
        due(dispatch(&unnamed, Commands::Raw { no_device: true, args: args() }));
    assert_eq!(line(action), vec!["shell", "wm"]);
    assert_eq!(answer(flow.resume(&unnamed, ran(0, "", ""))).device, None);
    let (action, flow) =
        due(dispatch(&unnamed, Commands::Raw { no_device: false, args: args() }));
    assert!(matches!(action, Action::ReadStore));
    let (action, flow) = due(flow.resume(&unnamed, Event::Store(Err(s("bad")))));
    assert_eq!(line(action), vec!["shell", "wm"]);
    let response = answer(flow.resume(&unnamed, ran(1, "", "offline")));
    assert_eq!(response.action, "raw");
    assert_eq!(response.error.as_deref(), Some("offline"));
    let named = app(Some("d"), false);
    let (action, flow) = due(dispatch(&named, Commands::Raw { no_device: false, args: args() }));
    assert_eq!(line(action), vec!["-s", "d", "shell", "wm"]);
    assert_eq!(answer(flow.resume(&named, ran(0, "", ""))).device.as_deref(), Some("d"));
}

#[test]
fn connecting_can_select_the_target() {
    let app = app(None, false);
    let connect = |select| dispatch(&app, Commands::Connect { target: s("h:1"), select });
    let (action, flow) = due(connect(true));
    assert_eq!(line(action), vec!["connect", "h:1"]);
    let (action, flow) = due(flow.resume(&app, ran(0, "connected to h:1", "")));
    assert!(matches!(action, Action::ReadStore));
    let (action, flow) = due(flow.resume(&app, sessions("q")));
    assert!(matches!(action, Action::ReadClock));
    let (action, flow) = due(flow.resume(&app, Event::Clock(9)));
    match action {
        Action::WriteStore(store) => {
            assert_eq!(store.current.as_deref(), Some("default"));
            assert_eq!(store.sessions.get("default").unwrap().device, "h:1");
            assert_eq!(store.sessions.get("default").unwrap().updated_at_unix, 9);
            assert_eq!(store.sessions.get("a").unwrap().device, "q");
        }
        other => panic!("{other:?}"),
    }
    let response = answer(flow.resume(&app, Event::Wrote(WriteOutcome::Written)));
    assert!(response.ok);
    assert_eq!(keys(&response), vec!["target", "selected"]);

    let (_, flow) = due(connect(true));
    let response = answer(flow.resume(&app, ran(1, "", "refused")));
    assert_eq!(response.error.as_deref(), Some("refused"));
    let (_, flow) = due(connect(false));
    let response = answer(flow.resume(&app, ran(0, "", "")));
    assert!(matches!(response.data[1].value, Datum::Flag(false)));
}

#[test]
fn connecting_fails_where_the_selection_cannot_be_written() {
    let app = app(Some("d"), false);
    let (_, flow) = due(dispatch(&app, Commands::Connect { target: s("h:1"), select: true }));
    let (_, flow) = due(flow.resume(&app, ran(0, "", "")));
    let turn = settle(&app, flow.resume(&app, Event::Store(Err(s("none")))));
    let (action, flow) = due(turn);
    match action {
        Action::WriteStore(store) => {
            assert_eq!(store.sessions.len(), 1);
            assert!(store.sessions.get("default").unwrap().updated_at_unix > 1_600_000_000);
        }
        other => panic!("{other:?}"),
    }
    let response = answer(flow.resume(&app, Event::Wrote(WriteOutcome::NotWritten)));
    assert_eq!(response.action, "error");
    assert_eq!(response.device.as_deref(), Some("d"));
    assert_eq!(response.error.as_deref(), Some("failed to write /p"));
}

#[test]
fn session_commands_read_and_write_the_sessions() {
    let app = app(None, false);
    let command = SessionCommand::Use { device: s("e"), name: s("b"), no_select: false };
    let (action, flow) = due(dispatch(&app, Commands::Session { command }));
    assert!(matches!(action, Action::ReadStore));
    let (action, flow) = due(flow.resume(&app, sessions("q")));
    assert!(matches!(action, Action::ReadClock));
    let (action, flow) = due(flow.resume(&app, Event::Clock(5)));
    match action {
        Action::WriteStore(store) => {
            assert_eq!(store.current.as_deref(), Some("b"));
            assert_eq!(store.sessions.get("b").unwrap().updated_at_unix, 5);
        }
        other => panic!("{other:?}"),
    }
    let response = answer(flow.resume(&app, Event::Wrote(WriteOutcome::Written)));
    assert_eq!(response.stdout, "current session b: e\n");

    let response = answer(dispatch(&app, Commands::Session { command: SessionCommand::Path }));
    assert_eq!(response.stdout, "/p\n");

    let (_, flow) = due(dispatch(&app, Commands::Session { command: SessionCommand::List }));
    assert_eq!(answer(flow.resume(&app, sessions("q"))).stdout, "* a: q\n");

    let (_, flow) = due(dispatch(&app, Commands::Session { command: SessionCommand::Clear }));
    let (action, flow) = due(flow.resume(&app, sessions("q")));
    assert!(matches!(action, Action::WriteStore(store) if store.current.is_none()));
    let (_, flow) =
        due(flow.resume(&app, Event::Wrote(WriteOutcome::NoDirectory(s("/dir")))));
    let response = answer(flow.resume(&app, sessions("q")));
    assert_eq!(response.error.as_deref(), Some("failed to create /dir"));
    assert_eq!(response.device.as_deref(), Some("q"));
}

#[test]
fn a_recovery_goes_by_the_session() {
    let app = app(None, false);
    let (action, flow) = due(dispatch(&app, Commands::Recover { force: false, wait_ms: 1 }));
    assert!(matches!(action, Action::ReadStore));
    let (action, flow) = due(flow.resume(&app, sessions("q")));
    assert_eq!(line(action), vec!["devices", "-l"]);
    let listed = "List of devices attached\nq unauthorized\n";
    let response = answer(flow.resume(&app, ran(0, listed, "")));
    assert!(!response.ok);
    assert_eq!(response.device.as_deref(), Some("q"));
    assert!(response.error.unwrap().starts_with("device `q` is unauthorized"));
    assert!(matches!(&response.data[0].value, Datum::Report(r) if !r.restarted_server));

    let (_, flow) = due(dispatch(&app, Commands::Recover { force: false, wait_ms: 1 }));
    let (_, flow) = due(flow.resume(&app, Event::Store(Err(s("none")))));
    let response = answer(flow.resume(&app, ran(0, "List of devices attached\nx device\n", "")));
    assert!(response.ok);
    assert_eq!(response.device, None);
}

#[test]
fn apps_are_started_and_stopped() {
    let app = app(Some("d"), false);
    let start = AppCommand::Start { package: s("p"), activity: Some(s(".M")), wait: true };
    let (action, flow) = due(dispatch(&app, Commands::App { command: start }));
    assert_eq!(line(action), vec!["-s", "d", "shell", "am", "start", "-W", "-n", "p/.M"]);
    let response = answer(flow.resume(&app, ran(0, "ok", "")));
    assert_eq!(response.action, "app.start");
    assert_eq!(keys(&response), vec!["package", "activity", "component", "mode", "wait"]);
    let stop = AppCommand::Stop { package: s("p") };
    let (action, flow) = due(dispatch(&app, Commands::App { command: stop }));
    assert_eq!(line(action), vec!["-s", "d", "shell", "am", "force-stop", "p"]);
    assert_eq!(answer(flow.resume(&app, ran(0, "", ""))).action, "app.stop");
}

#[test]
fn an_app_is_restarted_unless_it_cannot_be_stopped() {
    let app = app(Some("d"), false);
    let restart = || Commands::App {
        command: AppCommand::Restart { package: s("p"), activity: None, wait: false },
    };
    let (action, flow) = due(dispatch(&app, restart()));
    assert_eq!(line(action), vec!["-s", "d", "shell", "am", "force-stop", "p"]);
    let (action, flow) = due(flow.resume(&app, ran(0, "one ", "e1 ")));
    assert_eq!(line(action)[2..4], ["shell", "monkey"]);
    let response = answer(flow.resume(&app, ran(0, "two", "e2")));
    assert!(response.ok);
    assert_eq!(response.action, "app.restart");
    assert_eq!(response.stdout, "one two");
    assert_eq!(response.stderr, "e1 e2");

    let (_, flow) = due(dispatch(&app, restart()));
    let (_, flow) = due(flow.resume(&app, ran(0, "", "")));
    let response = answer(flow.resume(&app, ran(4, "", " ")));
    assert_eq!(response.error.as_deref(), Some("app restart failed"));
    assert_eq!(response.exit_code, Some(4));

    let (_, flow) = due(dispatch(&app, restart()));
    let response = answer(flow.resume(&app, ran(1, "", "nope")));
    assert_eq!(response.error.as_deref(), Some("nope"));
    assert_eq!(keys(&response), vec!["package", "phase"]);
}

#[test]
fn the_user_interface_is_dumped_read_and_removed() {
    let app = app(Some("d"), false);
    let command = UiCommand::Tree { compressed: true, max_nodes: 1 };
    let (action, flow) = due(dispatch(&app, Commands::Ui { command }));
    let remote = "/sdcard/window_dump.xml";
    assert_eq!(line(action)[2..], ["shell", "uiautomator", "dump", "--compressed", remote]);
    let (action, flow) = due(flow.resume(&app, ran(0, "", "")));
    assert_eq!(line(action)[2..], ["exec-out", "cat", remote]);
    let (action, flow) = due(flow.resume(&app, ran(0, UI, "")));
    assert_eq!(line(action)[2..], ["shell", "rm", "-f", remote]);
    let response = answer(flow.resume(&app, Event::Ran(None)));
    assert!(response.ok);
    assert_eq!(response.action, "ui.tree");
    assert_eq!(response.stdout, "#0   depth=1 bounds= clickable=true enabled=false A\n");
    assert!(matches!(response.data[1].value, Datum::Count(2)));
    assert!(matches!(response.data[2].value, Datum::Count(1)));
}

#[test]
fn the_user_interface_is_searched() {
    let app = app(Some("d"), false);
    let command = UiCommand::Find { query: s("B"), compressed: false, max_results: 5 };
    let (_, flow) = due(dispatch(&app, Commands::Ui { command }));
    let (_, flow) = due(flow.resume(&app, ran(0, "", "")));
    let (_, flow) = due(flow.resume(&app, ran(0, UI, "")));
    let response = answer(flow.resume(&app, ran(0, "", "")));
    assert_eq!(response.stdout, "#1   depth=2 bounds= clickable=false enabled=false b\n");
    assert_eq!(
        keys(&response),
        vec!["compressed", "query", "node_count", "returned_node_count", "nodes"]
    );
}

#[test]
fn a_dump_can_be_saved() {
    let app = app(Some("d"), false);
    let dump = |local: Option<&str>| Commands::Ui {
        command: UiCommand::Dump {
            compressed: false,
            remote: s("/r.xml"),
            local: local.map(s),
            keep_remote: true,
            max_nodes: 0,
        },
    };
    let read = |command| {
        let (_, flow) = due(dispatch(&app, command));
        let (_, flow) = due(flow.resume(&app, ran(0, "", "")));
        flow.resume(&app, ran(0, UI, ""))
    };
    let response = answer(read(dump(None)));
    assert_eq!(response.stdout, "dumped 2 ui nodes\n");
    assert!(matches!(&response.data[6].value, Datum::Text(xml) if xml == UI));
    let (action, flow) = due(read(dump(Some("out/u.xml"))));
    assert!(matches!(action, Action::MakeDir(path) if path == "out/u.xml"));
    let (action, flow) = due(flow.resume(&app, Event::Dir(None)));
    assert!(matches!(action, Action::WriteText(path, xml) if path == "out/u.xml" && xml == UI));
    assert!(answer(flow.resume(&app, Event::Stored(true))).ok);

    let (_, flow) = due(read(dump(Some("out/u.xml"))));
    let response = answer(flow.resume(&app, Event::Dir(Some(s("out")))));
    assert_eq!(response.error.as_deref(), Some("failed to create out"));
    let (_, flow) = due(read(dump(Some("out/u.xml"))));
    let (_, flow) = due(flow.resume(&app, Event::Dir(None)));
    let response = answer(flow.resume(&app, Event::Stored(false)));
    assert_eq!(response.error.as_deref(), Some("failed to write out/u.xml"));
}

#[test]
fn a_dump_fails_with_what_adb_said() {
    let app = app(Some("d"), false);
    let tree =
        || Commands::Ui { command: UiCommand::Tree { compressed: false, max_nodes: 0 } };
    let (_, flow) = due(dispatch(&app, tree()));
    let response = answer(flow.resume(&app, ran(1, " idle \n", "")));
    assert_eq!(response.error.as_deref(), Some("uiautomator dump failed: idle"));
    let (_, flow) = due(dispatch(&app, tree()));
    let (_, flow) = due(flow.resume(&app, ran(0, "", "")));
    let (_, flow) = due(flow.resume(&app, ran(1, "x", "gone")));
    let response = answer(flow.resume(&app, ran(0, "", "")));
    assert_eq!(response.error.as_deref(), Some("failed to read UI dump: gone"));
    let (_, flow) = due(dispatch(&app, tree()));
    let (_, flow) = due(flow.resume(&app, ran(0, "", "")));
    let (_, flow) = due(flow.resume(&app, ran(0, "<oops", "")));
    let response = answer(flow.resume(&app, ran(0, "", "")));
    assert_eq!(response.error.as_deref(), Some("failed to parse uiautomator XML"));
}

fn shot(format: ScreenshotFormat) -> Commands {
    Commands::Screenshot {
        options: ShotOptions {
            path: s("out/s.img"),
            format,
            max_width: 20,
            max_height: 20,
            quality: 80,
            full: false,
        },
    }
}

fn captured(success: bool, stdout: Vec<u8>, stderr: &str) -> Event {
    Event::Captured(Some(Capture { success, stdout, stderr: s(stderr) }))
}

fn screen() -> Vec<u8> {
    let mut file = Cursor::new(Vec::new());
    let image = image::DynamicImage::ImageRgba8(image::RgbaImage::new(40, 80));
    image.write_to(&mut file, image::ImageFormat::Png).unwrap();
    file.into_inner()
}

fn to_created(app: &App, format: ScreenshotFormat) -> (Action, Flow) {
    let (_, flow) = due(dispatch(app, shot(format)));
    let (_, flow) = due(flow.resume(app, Event::Dir(None)));
    let turn = flow.resume(app, captured(true, screen(), ""));
    due(settle(app, turn))
}

#[test]
fn a_screenshot_is_captured_fitted_and_written() {
    let app = app(Some("d"), false);
    let (action, flow) = due(dispatch(&app, shot(ScreenshotFormat::Jpeg)));
    assert!(matches!(action, Action::MakeDir(path) if path == "out/s.img"));
    let (action, flow) = due(flow.resume(&app, Event::Dir(None)));
    assert_eq!(line(action), vec!["-s", "d", "exec-out", "screencap", "-p"]);
    let turn = flow.resume(&app, captured(true, screen(), ""));
    assert!(matches!(
        &turn,
        Turn::Do(Action::Decode { max_width: 20, max_height: 20, full: false, .. }, _)
    ));
    let (action, flow) = due(settle(&app, turn));
    assert!(matches!(action, Action::CreateFile(path) if path == "out/s.img"));
    let (action, flow) = due(flow.resume(&app, Event::Stored(true)));
    match action {
        Action::WriteFile(path, bytes) => {
            assert_eq!(path, "out/s.img");
            let image = image::load_from_memory(&bytes).unwrap();
            assert_eq!((image.width(), image.height()), (10, 20));
        }
        other => panic!("{other:?}"),
    }
    let (action, flow) = due(flow.resume(&app, Event::Stored(true)));
    assert!(matches!(action, Action::Measure(path) if path == "out/s.img"));
    let response = answer(flow.resume(&app, Event::Measured(Some(321))));
    assert!(response.ok);
    assert_eq!(response.action, "screenshot");
    assert_eq!(response.stdout, "saved out/s.img\n");
    match &response.data[0].value {
        Datum::Shot(shot) => {
            assert_eq!((shot.original_width, shot.original_height), (40, 80));
            assert_eq!((shot.output_width, shot.output_height), (10, 20));
            assert_eq!(shot.file_bytes, 321);
            assert_eq!(shot.format, ScreenshotFormat::Jpeg);
        }
        other => panic!("{other:?}"),
    }
    assert!(matches!(
        &response.data[1].value,
        Datum::Mapping(x, y)
            if x == "round(preview_x * scale_x)" && y == "round(preview_y * scale_y)"
    ));
}

#[test]
fn a_screenshot_fails_at_each_step_with_its_error() {
    let app = app(Some("d"), false);
    let error = |turn| answer(turn).error.unwrap();
    let (_, flow) = due(dispatch(&app, shot(ScreenshotFormat::Png)));
    assert_eq!(error(flow.resume(&app, Event::Dir(Some(s("out"))))), "failed to create out");
    let (_, flow) = due(dispatch(&app, shot(ScreenshotFormat::Png)));
    let (_, flow) = due(flow.resume(&app, Event::Dir(None)));
    assert_eq!(error(flow.resume(&app, Event::Captured(None))), "failed to execute `adb`");
    let (_, flow) = due(dispatch(&app, shot(ScreenshotFormat::Png)));
    let (_, flow) = due(flow.resume(&app, Event::Dir(None)));
    let turn = flow.resume(&app, captured(false, vec![], " offline\n"));
    assert_eq!(error(turn), "screenshot failed: offline");
    let (_, flow) = due(dispatch(&app, shot(ScreenshotFormat::Png)));
    let (_, flow) = due(flow.resume(&app, Event::Dir(None)));
    let turn = flow.resume(&app, captured(true, vec![0, 1, 2], ""));
    assert_eq!(error(settle(&app, turn)), "failed to decode adb screenshot PNG");
    for (format, create, write) in [
        (
            ScreenshotFormat::Jpeg,
            "failed to create out/s.img",
            "failed to encode JPEG out/s.img",
        ),
        (
            ScreenshotFormat::Png,
            "failed to write PNG out/s.img",
            "failed to write PNG out/s.img",
        ),
    ] {
        let (_, flow) = to_created(&app, format);
        assert_eq!(error(flow.resume(&app, Event::Stored(false))), create);
        let (_, flow) = to_created(&app, format);
        let (_, flow) = due(flow.resume(&app, Event::Stored(true)));
        assert_eq!(error(flow.resume(&app, Event::Stored(false))), write);
    }
    let (_, flow) = to_created(&app, ScreenshotFormat::Png);
    let (_, flow) = due(flow.resume(&app, Event::Stored(true)));
    let (_, flow) = due(flow.resume(&app, Event::Stored(true)));
    assert_eq!(error(flow.resume(&app, Event::Measured(None))), "failed to stat out/s.img");
}

#[test]
fn a_lost_device_is_recovered_in_the_middle_of_a_command() {
    let app = app(Some("h:1"), true);
    let command = Commands::Device { command: DeviceCommand::Shell { command: vec![s("ls")] } };
    let (_, mut flow) = due(dispatch(&app, command));
    let mut asked: Vec<Vec<String>> = Vec::new();
    let events = [
        ran(1, "", "error: device offline"),
        ran(0, "", ""),
        ran(0, "", ""),
        ran(0, "", ""),
        ran(0, "", ""),
        ran(0, "", ""),
    ];
    for event in events {
        let (action, next) = due(flow.resume(&app, event));
        asked.push(line(action));
        flow = next;
    }
    assert_eq!(
        asked,
        vec![
            vec!["devices", "-l"],
            vec!["kill-server"],
            vec!["start-server"],
            vec!["connect", "h:1"],
            vec!["devices", "-l"],
            vec!["-s", "h:1", "shell", "ls"],
        ]
    );
    let response = answer(flow.resume(&app, ran(0, "fine", "")));
    assert!(response.ok);
    assert_eq!(response.stdout, "fine");
}

#[test]
fn a_lost_device_is_not_recovered_unless_that_is_asked_for() {
    let app = app(Some("d"), false);
    let command = Commands::Device { command: DeviceCommand::Shell { command: vec![s("ls")] } };
    let (_, flow) = due(dispatch(&app, command));
    let response = answer(flow.resume(&app, ran(1, "", "error: device offline")));
    assert_eq!(response.error.as_deref(), Some("error: device offline"));
    let asked = App { auto_recover: true, ..app };
    let (_, flow) = due(dispatch(&asked, Commands::Plain { command: PlainCommand::StartServer }));
    let response = answer(flow.resume(&asked, ran(1, "", "error: device offline")));
    assert!(!response.ok);
}

#[test]
fn a_command_ends_however_often_it_is_recovered() {
    let app = app(None, true);
    let command = UiCommand::Dump {
        compressed: false,
        remote: s("/r.xml"),
        local: Some(s("u.xml")),
        keep_remote: false,
        max_nodes: 0,
    };
    let mut turn = dispatch(&app, Commands::Ui { command });
    let mut actions = 0;
    let mut lost = true;
    let response = loop {
        let (action, flow) = match turn {
            Turn::Done(response) => break response,
            Turn::Do(action, flow) => (action, flow),
        };
        actions += 1;
        let event = match action {
            Action::ReadStore => sessions("h:1"),
            Action::MakeDir(_) => Event::Dir(None),
            Action::WriteText(_, _) => Event::Stored(true),
            Action::Adb(request) if request.device.is_some() => {
                lost = !lost;
                if lost {
                    ran(0, UI, "")
                } else {
                    ran(1, "", "error: device not found")
                }
            }
            _ => ran(0, "", ""),
        };
        turn = flow.resume(&app, event);
    };
    assert!(response.ok);
    assert_eq!(response.stdout, "dumped 2 ui nodes\n");
    assert_eq!(actions, 24);
}

#[test]
fn a_screenshot_of_a_lost_device_is_taken_once_more() {
    for (device, connects) in [("d", false), ("h:1", true)] {
        let app = app(Some(device), true);
        let lost = || captured(false, vec![], "error: device offline");
        let recaptured = || {
            let (_, flow) = due(dispatch(&app, shot(ScreenshotFormat::Png)));
            let (_, flow) = due(flow.resume(&app, Event::Dir(None)));
            let (action, flow) = due(flow.resume(&app, lost()));
            assert_eq!(line(action), vec!["devices", "-l"]);
            let (action, flow) = due(flow.resume(&app, ran(0, "", "")));
            assert_eq!(line(action), vec!["kill-server"]);
            let (action, flow) = due(flow.resume(&app, ran(0, "", "")));
            assert!(matches!(&action, Action::Adb(request) if request.delay_ms == 700));
            assert_eq!(line(action), vec!["start-server"]);
            let (action, flow) = due(flow.resume(&app, ran(0, "", "")));
            let (action, flow) = if connects {
                assert_eq!(line(action), vec!["connect", device]);
                due(flow.resume(&app, ran(0, "", "")))
            } else {
                (action, flow)
            };
            assert_eq!(line(action), vec!["devices", "-l"]);
            let (action, flow) = due(flow.resume(&app, ran(0, "", "")));
            assert_eq!(line(action), vec!["-s", device, "exec-out", "screencap", "-p"]);
            flow
        };
        let turn = recaptured().resume(&app, captured(true, screen(), ""));
        let (action, flow) = due(settle(&app, turn));
        assert!(matches!(action, Action::CreateFile(_)));
        let (_, flow) = due(flow.resume(&app, Event::Stored(true)));
        let (_, flow) = due(flow.resume(&app, Event::Stored(true)));
        assert!(answer(flow.resume(&app, Event::Measured(Some(1)))).ok);
        let response = answer(recaptured().resume(&app, lost()));
        assert_eq!(response.error.as_deref(), Some("screenshot failed: error: device offline"));
        let response = answer(recaptured().resume(&app, Event::Captured(None)));
        assert_eq!(response.error.as_deref(), Some("failed to execute `adb`"));
    }
}

#[test]
fn a_screenshot_is_taken_again_only_where_that_is_asked_for_and_may_help() {
    for (recovers, told) in [
        (false, "error: device offline"),
        (true, "error: device unauthorized"),
        (true, "/system/bin/sh: screencap: not found"),
    ] {
        let app = app(Some("d"), recovers);
        let (_, flow) = due(dispatch(&app, shot(ScreenshotFormat::Png)));
        let (_, flow) = due(flow.resume(&app, Event::Dir(None)));
        let response = answer(flow.resume(&app, captured(false, vec![], told)));
        assert_eq!(response.error, Some(format!("screenshot failed: {told}")));
    }
    let app = app(Some("d"), true);
    let (_, flow) = due(dispatch(&app, shot(ScreenshotFormat::Png)));
    let (_, flow) = due(flow.resume(&app, Event::Dir(None)));
    let (_, flow) = due(flow.resume(&app, captured(false, vec![], "device offline")));
    let (_, flow) = due(flow.resume(&app, ran(0, "", "")));
    let response = answer(flow.resume(&app, Event::Ran(None)));
    assert_eq!(response.error.as_deref(), Some("failed to execute `adb`"));
}
