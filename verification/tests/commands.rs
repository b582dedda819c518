use adb_agent::commands::build_app_start_args;
use adb_agent::commands::normalize_activity_component;
use adb_agent::commands::DeviceCommand;
use adb_agent::commands::FindKind;
use adb_agent::commands::PlainCommand;
use adb_agent::response::AdbOutput;
use adb_agent::response::Datum;

fn s(text: &str) -> String {
    text.to_string()
}

fn output(stdout: &str) -> AdbOutput {
    AdbOutput { exit_code: Some(0), stdout: s(stdout), stderr: String::new() }
}

#[test]
fn normalizes_activity_component() {
    assert_eq!(
        normalize_activity_component("com.example.app", ".MainActivity"),
        "com.example.app/.MainActivity"
    );
    assert_eq!(
        normalize_activity_component("com.example.app", "com.example.app.MainActivity"),
        "com.example.app/com.example.app.MainActivity"
    );
    assert_eq!(
        normalize_activity_component("com.example.app", "other/.MainActivity"),
        "other/.MainActivity"
    );
}

#[test]
fn builds_launcher_start_args_when_activity_is_omitted() {
    let (args, mode, component) = build_app_start_args("com.example.app", None, false);

    assert_eq!(mode, "launcher");
    assert_eq!(component, None);
    assert_eq!(
        args,
        vec![
            "shell",
            "monkey",
            "-p",
            "com.example.app",
            "-c",
            "android.intent.category.LAUNCHER",
            "1"
        ]
    );
}

#[test]
fn builds_activity_start_args() {
    let (args, mode, component) = build_app_start_args("com.x", Some(".Main"), true);
    assert_eq!(mode, "activity");
    assert_eq!(component, Some(s("com.x/.Main")));
    assert_eq!(args, vec!["shell", "am", "start", "-W", "-n", "com.x/.Main"]);
    let (args, _, _) = build_app_start_args("com.x", Some("a/b"), false);
    assert_eq!(args, vec!["shell", "am", "start", "-n", "a/b"]);
}

#[test]
fn plain_commands_ask_adb_for_what_they_name() {
    assert_eq!(PlainCommand::Devices.args(), vec!["devices", "-l"]);
    assert_eq!(PlainCommand::StartServer.args(), vec!["start-server"]);
    assert_eq!(PlainCommand::KillServer.args(), vec!["kill-server"]);
    assert_eq!(PlainCommand::Disconnect { target: None }.args(), vec!["disconnect"]);
    let one = PlainCommand::Disconnect { target: Some(s("h:1")) };
    assert_eq!(one.args(), vec!["disconnect", "h:1"]);
    assert_eq!(one.action(), "disconnect");
    assert!(one.data(&output("x")).is_empty());
    let data = PlainCommand::Devices.data(&output("List of devices attached\na device\n"));
    assert_eq!(data[0].key, "devices");
    assert!(matches!(&data[0].value, Datum::Devices(list) if list[0].serial == "a"));
}

#[test]
fn device_commands_ask_adb_for_what_they_name() {
    let cases: Vec<(DeviceCommand, Vec<&str>, &str, Vec<&str>)> = vec![
        (
            DeviceCommand::Ls { path: s("/sdcard") },
            vec!["shell", "ls", "-la", "/sdcard"],
            "ls",
            vec!["path"],
        ),
        (
            DeviceCommand::Find { pattern: s("*.jpg"), root: s("/r"), kind: FindKind::File },
            vec!["shell", "find", "/r", "-iname", "*.jpg", "-type", "f"],
            "find",
            vec!["root", "pattern", "matches"],
        ),
        (
            DeviceCommand::Find { pattern: s("D"), root: s("/r"), kind: FindKind::Dir },
            vec!["shell", "find", "/r", "-iname", "D", "-type", "d"],
            "find",
            vec!["root", "pattern", "matches"],
        ),
        (
            DeviceCommand::Find { pattern: s("D"), root: s("/r"), kind: FindKind::Any },
            vec!["shell", "find", "/r", "-iname", "D"],
            "find",
            vec!["root", "pattern", "matches"],
        ),
        (
            DeviceCommand::Pull { remote: s("/a"), local: Some(s("b")) },
            vec!["pull", "/a", "b"],
            "pull",
            vec!["remote", "local"],
        ),
        (
            DeviceCommand::Pull { remote: s("/a"), local: None },
            vec!["pull", "/a"],
            "pull",
            vec!["remote", "local"],
        ),
        (
            DeviceCommand::Push { local: s("b"), remote: s("/a") },
            vec!["push", "b", "/a"],
            "push",
            vec!["local", "remote"],
        ),
        (
            DeviceCommand::Tap { x: -5, y: 1200 },
            vec!["shell", "input", "tap", "-5", "1200"],
            "tap",
            vec!["x", "y"],
        ),
        (
            DeviceCommand::Swipe { x1: 1, y1: 2, x2: 3, y2: 4, duration_ms: Some(350) },
            vec!["shell", "input", "swipe", "1", "2", "3", "4", "350"],
            "swipe",
            vec!["x1", "y1", "x2", "y2", "duration_ms"],
        ),
        (
            DeviceCommand::Swipe { x1: 1, y1: 2, x2: 3, y2: 4, duration_ms: None },
            vec!["shell", "input", "swipe", "1", "2", "3", "4"],
            "swipe",
            vec!["x1", "y1", "x2", "y2", "duration_ms"],
        ),
        (
            DeviceCommand::Keyevent { key: s("HOME") },
            vec!["shell", "input", "keyevent", "HOME"],
            "keyevent",
            vec!["key"],
        ),
        (
            DeviceCommand::Text { text: s("hello world") },
            vec!["shell", "input", "text", "hello%sworld"],
            "text",
            vec!["text"],
        ),
        (
            DeviceCommand::Shell { command: vec![s("wm"), s("size")] },
            vec!["shell", "wm", "size"],
            "shell",
            vec![],
        ),
        (
            DeviceCommand::Install { apk: s("a.apk"), replace: true, downgrade: true },
            vec!["install", "-r", "-d", "a.apk"],
            "install",
            vec!["apk", "replace", "downgrade"],
        ),
        (
            DeviceCommand::Install { apk: s("a.apk"), replace: false, downgrade: false },
            vec!["install", "a.apk"],
            "install",
            vec!["apk", "replace", "downgrade"],
        ),
        (
            DeviceCommand::Uninstall { package: s("p"), keep_data: true },
            vec!["uninstall", "-k", "p"],
            "uninstall",
            vec!["package", "keep_data"],
        ),
        (
            DeviceCommand::Uninstall { package: s("p"), keep_data: false },
            vec!["uninstall", "p"],
            "uninstall",
            vec!["package", "keep_data"],
        ),
        (
            DeviceCommand::Logcat { dump: true, clear: true, args: vec![s("-t"), s("200")] },
            vec!["logcat", "-d", "-c", "-t", "200"],
            "logcat",
            vec!["dump", "clear"],
        ),
        (
            DeviceCommand::Logcat { dump: false, clear: false, args: vec![] },
            vec!["logcat"],
            "logcat",
            vec!["dump", "clear"],
        ),
    ];
    for (command, args, action, keys) in cases {
        assert_eq!(command.args(), args);
        assert_eq!(command.action(), action);
        let data = command.data(&output(""));
        assert_eq!(data.iter().map(|f| f.key).collect::<Vec<_>>(), keys);
    }
}

#[test]
fn a_search_lists_the_lines_that_are_not_empty() {
    let find = DeviceCommand::Find { pattern: s("p"), root: s("/r"), kind: FindKind::Any };
    let data = find.data(&output("/r/a\n\n/r/b c\r\n"));
    assert!(matches!(&data[2].value, Datum::Texts(list) if *list == vec!["/r/a", "/r/b c"]));
    assert!(matches!(&data[1].value, Datum::Text(text) if text == "p"));
}
