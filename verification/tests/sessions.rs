use adb_agent::commands::SessionCommand;
use adb_agent::response::Datum;
use adb_agent::response::Response;
use adb_agent::session::read_session_store;
use adb_agent::session::selected_session_name;
use adb_agent::session::session_file_shape;
use adb_agent::session::session_path;
use adb_agent::session::shape_of_keys;
use adb_agent::session::store_file;
use adb_agent::session::write_session_store;
use adb_agent::session::SessionBase;
use adb_agent::session::SessionEnv;
use adb_agent::session::SessionFileShape;
use adb_agent::session::SessionMap;
use adb_agent::session::SessionState;
use adb_agent::session::SessionStore;
use adb_agent::session::StoreFile;
use adb_agent::session::WriteOutcome;
use adb_agent::session_commands::handle_session;
use adb_agent::session_commands::SessionStep;

fn s(text: &str) -> String {
    text.to_string()
}

fn state(device: &str, updated_at_unix: u64) -> SessionState {
    SessionState { device: s(device), updated_at_unix }
}

fn store(current: Option<&str>, sessions: &[(&str, &str)]) -> SessionStore {
    let mut map = SessionMap::new();
    for (name, device) in sessions {
        map.insert(s(name), state(device, 1));
    }
    SessionStore { current: current.map(s), sessions: map }
}

fn run(command: SessionCommand, read: Result<SessionStore, String>) -> SessionStep {
    handle_session(&Ok(s("/home/u/session.json")), command, read, 77)
}

fn saved(step: SessionStep) -> (SessionStore, Response) {
    match step {
        SessionStep::Save(store, response) => (store, response),
        other => panic!("{other:?}"),
    }
}

fn answered(step: SessionStep) -> Response {
    match step {
        SessionStep::Answer(response) => response,
        other => panic!("{other:?}"),
    }
}

fn failed(step: SessionStep) -> String {
    match step {
        SessionStep::Fail(error) => error,
        other => panic!("{other:?}"),
    }
}

fn names(map: &SessionMap) -> Vec<String> {
    map.entries().iter().map(|e| e.0.clone()).collect()
}

#[test]
fn selected_session_prefers_requested_then_current() {
    let mut store = SessionStore::default();
    store.sessions.insert(
        "phone-a".to_string(),
        SessionState {
            device: "device-a".to_string(),
            updated_at_unix: 1,
        },
    );
    store.sessions.insert(
        "phone-b".to_string(),
        SessionState {
            device: "device-b".to_string(),
            updated_at_unix: 2,
        },
    );
    store.current = Some("phone-a".to_string());

    assert_eq!(
        selected_session_name(&store, Some("phone-b")).unwrap(),
        "phone-b"
    );
    assert_eq!(selected_session_name(&store, None).unwrap(), "phone-a");
}

#[test]
fn the_only_session_then_the_default_one_is_chosen() {
    assert_eq!(selected_session_name(&store(None, &[("x", "d")]), None).unwrap(), "x");
    let two = store(None, &[("x", "d"), ("default", "e")]);
    assert_eq!(selected_session_name(&two, None).unwrap(), "default");
    let none = "no session selected; run `adb-agent session select <name>` or pass \
                `--session <name>`";
    assert_eq!(selected_session_name(&store(None, &[]), None).unwrap_err(), none);
    let others = store(None, &[("x", "d"), ("y", "e")]);
    assert_eq!(selected_session_name(&others, None).unwrap_err(), none);
    assert_eq!(selected_session_name(&others, Some("absent")).unwrap(), "absent");
}

#[test]
fn sessions_are_kept_in_the_order_of_their_names() {
    let mut map = SessionMap::new();
    assert!(map.is_empty());
    for name in ["m", "a", "z", "Z", "ab", ""] {
        assert!(map.insert(s(name), state(name, 0)).is_none());
    }
    assert_eq!(names(&map), vec!["", "Z", "a", "ab", "m", "z"]);
    assert_eq!(map.insert(s("a"), state("new", 9)).unwrap().device, "a");
    assert_eq!(map.len(), 6);
    assert_eq!(map.get("a").unwrap().device, "new");
    assert_eq!(map.get("a").unwrap().updated_at_unix, 9);
    assert!(map.get("b").is_none());
    assert!(map.contains_key("ab"));
    assert_eq!(map.remove("ab").unwrap().device, "ab");
    assert!(map.remove("ab").is_none());
    assert_eq!(names(&map), vec!["", "Z", "a", "m", "z"]);
}

#[test]
fn using_a_session_selects_it() {
    let command = SessionCommand::Use { device: s("d2"), name: s("b"), no_select: false };
    let (after, response) = saved(run(command, Ok(store(Some("a"), &[("a", "d1")]))));
    assert_eq!(after.current.as_deref(), Some("b"));
    assert_eq!(after.sessions.get("b").unwrap().device, "d2");
    assert_eq!(after.sessions.get("b").unwrap().updated_at_unix, 77);
    assert_eq!(after.sessions.get("a").unwrap().device, "d1");
    assert!(response.ok);
    assert_eq!(response.action, "session.use");
    assert_eq!(response.device.as_deref(), Some("d2"));
    assert_eq!(response.stdout, "current session b: d2\n");
    let keys: Vec<&str> = response.data.iter().map(|f| f.key).collect();
    assert_eq!(keys, vec!["name", "device", "selected", "path"]);
    assert!(matches!(response.data[2].value, Datum::Flag(true)));
}

#[test]
fn using_a_session_without_selecting_it() {
    let command = SessionCommand::Use { device: s("d2"), name: s("b"), no_select: true };
    let (after, response) = saved(run(command, Ok(store(Some("a"), &[("a", "d1")]))));
    assert_eq!(after.current.as_deref(), Some("a"));
    assert_eq!(response.stdout, "session b: d2\n");
    let command = SessionCommand::Use { device: s("d2"), name: s("b"), no_select: true };
    let (after, _) = saved(run(command, Err(s("unreadable"))));
    assert_eq!(after.current, None);
    assert_eq!(names(&after.sessions), vec!["b"]);
}

#[test]
fn selecting_needs_the_session() {
    let all = || Ok(store(Some("a"), &[("a", "d1"), ("b", "d2")]));
    let (after, response) = saved(run(SessionCommand::Select { name: s("b") }, all()));
    assert_eq!(after.current.as_deref(), Some("b"));
    assert_eq!(response.device.as_deref(), Some("d2"));
    assert_eq!(response.stdout, "current session: b\n");
    assert_eq!(response.action, "session.select");
    assert_eq!(
        failed(run(SessionCommand::Select { name: s("c") }, all())),
        "session `c` does not exist"
    );
    assert_eq!(
        failed(run(SessionCommand::Select { name: s("a") }, Err(s("bad file")))),
        "bad file"
    );
}

#[test]
fn listing_marks_the_selected_session() {
    let response =
        answered(run(SessionCommand::List, Ok(store(Some("b"), &[("b", "d2"), ("a", "d1")]))));
    assert_eq!(response.stdout, "  a: d1\n* b: d2\n");
    assert_eq!(response.action, "session.list");
    assert_eq!(response.device, None);
    assert!(matches!(&response.data[1].value, Datum::Sessions(map) if map.len() == 2));
    let response = answered(run(SessionCommand::List, Err(s("unreadable"))));
    assert_eq!(response.stdout, "no sessions\n");
}

#[test]
fn showing_a_session() {
    let all = || Ok(store(Some("b"), &[("a", "d1"), ("b", "d2")]));
    let response = answered(run(SessionCommand::Show { name: None }, all()));
    assert_eq!(response.stdout, "session b: d2\n");
    assert_eq!(response.device.as_deref(), Some("d2"));
    let response = answered(run(SessionCommand::Show { name: Some(s("a")) }, all()));
    assert_eq!(response.stdout, "session a: d1\n");
    let response = answered(run(SessionCommand::Show { name: Some(s("c")) }, all()));
    assert_eq!(response.stdout, "no selected session\n");
    assert_eq!(response.device, None);
    assert!(matches!(&response.data[0].value, Datum::Maybe(Some(name)) if name == "c"));
    assert!(matches!(&response.data[1].value, Datum::Session(None)));
    assert!(matches!(&response.data[2].value, Datum::Maybe(Some(name)) if name == "b"));
}

#[test]
fn removing_a_session_takes_its_selection_away() {
    let all = || Ok(store(Some("b"), &[("a", "d1"), ("b", "d2")]));
    let (after, response) = saved(run(SessionCommand::Remove { name: s("b") }, all()));
    assert_eq!(after.current, None);
    assert_eq!(names(&after.sessions), vec!["a"]);
    assert_eq!(response.stdout, "removed session b\n");
    assert_eq!(response.device.as_deref(), Some("d2"));
    let (after, _) = saved(run(SessionCommand::Remove { name: s("a") }, all()));
    assert_eq!(after.current.as_deref(), Some("b"));
    let (after, response) = saved(run(SessionCommand::Remove { name: s("c") }, all()));
    assert_eq!(names(&after.sessions), vec!["a", "b"]);
    assert_eq!(response.stdout, "session c did not exist\n");
    assert_eq!(response.device, None);
    assert_eq!(failed(run(SessionCommand::Remove { name: s("a") }, Err(s("bad")))), "bad");
}

#[test]
fn removing_undoes_using() {
    let command = SessionCommand::Use { device: s("d2"), name: s("b"), no_select: true };
    let (after, _) = saved(run(command, Ok(store(Some("a"), &[("a", "d1")]))));
    let (back, _) = saved(run(SessionCommand::Remove { name: s("b") }, Ok(after)));
    assert_eq!(back.current.as_deref(), Some("a"));
    assert_eq!(names(&back.sessions), vec!["a"]);
}

#[test]
fn clearing_keeps_the_sessions() {
    let (after, response) = saved(run(SessionCommand::Clear, Ok(store(Some("a"), &[("a", "d")]))));
    assert_eq!(after.current, None);
    assert_eq!(names(&after.sessions), vec!["a"]);
    assert_eq!(response.stdout, "current session cleared\n");
    assert_eq!(response.action, "session.clear");
}

#[test]
fn the_path_is_told_without_reading() {
    let response = answered(run(SessionCommand::Path, Err(s("bad"))));
    assert_eq!(response.stdout, "/home/u/session.json\n");
    assert_eq!(response.action, "session.path");
    let step = handle_session(&Err(s("HOME is not set")), SessionCommand::Path, Err(s("x")), 0);
    assert_eq!(failed(step), "HOME is not set");
}

#[test]
fn the_shape_of_a_file_goes_by_its_keys() {
    assert_eq!(
        session_file_shape("{\"current\": null, \"sessions\": {}}"),
        Some(SessionFileShape::Named)
    );
    assert_eq!(
        session_file_shape("{\"device\": \"d\", \"updated_at_unix\": 1}"),
        Some(SessionFileShape::Legacy)
    );
    assert_eq!(session_file_shape("[\"sessions\"]"), Some(SessionFileShape::Legacy));
    assert_eq!(session_file_shape("\"sessions\""), Some(SessionFileShape::Legacy));
    assert_eq!(session_file_shape("{"), None);
    assert_eq!(session_file_shape(""), None);
    assert_eq!(shape_of_keys(&vec![s("a"), s("sessions")]), SessionFileShape::Named);
    assert_eq!(shape_of_keys(&vec![s("session")]), SessionFileShape::Legacy);
}

#[test]
fn files_are_taken_over_by_their_shape() {
    let named = "{\"sessions\": {}}";
    let legacy = "{\"device\": \"d\"}";
    assert!(matches!(
        store_file(named, Some(store(None, &[("a", "d")])), Some(state("x", 1))),
        StoreFile::Named(found) if found.sessions.len() == 1
    ));
    assert!(matches!(store_file(named, None, Some(state("x", 1))), StoreFile::Malformed));
    assert!(matches!(
        store_file(legacy, Some(store(None, &[])), Some(state("x", 1))),
        StoreFile::Legacy(session) if session.device == "x"
    ));
    assert!(matches!(
        store_file(legacy, Some(store(None, &[])), None),
        StoreFile::MalformedLegacy
    ));
    assert!(matches!(
        store_file("nonsense", Some(store(None, &[])), Some(state("x", 1))),
        StoreFile::Malformed
    ));
}

#[test]
fn reading_tells_what_is_wrong_with_a_file() {
    let path = Ok(s("/p"));
    let error = |file| read_session_store(&path, file).unwrap_err();
    assert_eq!(error(StoreFile::Unreadable), "failed to read /p");
    assert_eq!(error(StoreFile::Malformed), "invalid session file /p");
    assert_eq!(error(StoreFile::MalformedLegacy), "invalid legacy session file /p");
    assert_eq!(
        read_session_store(&Err(s("HOME is not set")), StoreFile::Unreadable).unwrap_err(),
        "HOME is not set"
    );
    let named = read_session_store(&path, StoreFile::Named(store(Some("a"), &[("a", "d")])));
    assert_eq!(named.unwrap().current.as_deref(), Some("a"));
}

#[test]
fn a_legacy_session_becomes_the_default_one() {
    let read = read_session_store(&Ok(s("/p")), StoreFile::Legacy(state("d", 5))).unwrap();
    assert_eq!(read.current.as_deref(), Some("default"));
    assert_eq!(names(&read.sessions), vec!["default"]);
    assert_eq!(read.sessions.get("default").unwrap().device, "d");
    assert_eq!(read.sessions.get("default").unwrap().updated_at_unix, 5);
}

#[test]
fn writing_tells_what_went_wrong() {
    let path = Ok(s("/d/p"));
    assert!(write_session_store(&path, &WriteOutcome::Written).is_ok());
    assert_eq!(
        write_session_store(&path, &WriteOutcome::NoDirectory(s("/d"))).unwrap_err(),
        "failed to create /d"
    );
    assert_eq!(
        write_session_store(&path, &WriteOutcome::NotWritten).unwrap_err(),
        "failed to write /d/p"
    );
    assert_eq!(write_session_store(&Err(s("x")), &WriteOutcome::Written).unwrap_err(), "x");
}

#[test]
fn the_session_file_stands_where_the_environment_says() {
    let env = |has_override, windows, has_appdata, has_home| SessionEnv {
        has_override,
        windows,
        has_appdata,
        has_home,
    };
    let path = session_path(env(true, false, true, true)).unwrap();
    assert_eq!(path.base, SessionBase::Override);
    assert_eq!(path.parts, vec!["session.json"]);
    let path = session_path(env(false, true, true, true)).unwrap();
    assert_eq!(path.base, SessionBase::AppData);
    assert_eq!(path.parts, vec!["agent-adb-control", "session.json"]);
    let path = session_path(env(false, false, true, true)).unwrap();
    assert_eq!(path.base, SessionBase::Home);
    assert_eq!(path.parts, vec![".agent-adb-control", "session.json"]);
    assert_eq!(session_path(env(false, true, false, true)).unwrap_err(), "APPDATA is not set");
    assert_eq!(session_path(env(false, false, true, false)).unwrap_err(), "HOME is not set");
}

#[test]
fn named_sessions_are_read_back() {
    for saved in [
        || store(Some("b"), &[("a", "d1"), ("b", "d2")]),
        || store(None, &[]),
        || store(None, &[("a", "d1")]),
    ] {
        let file = store_file("{\"current\": null, \"sessions\": {}}", Some(saved()), None);
        let read = read_session_store(&Ok(s("/p")), file).unwrap();
        assert_eq!(read.current, saved().current);
        assert_eq!(names(&read.sessions), names(&saved().sessions));
    }
}
