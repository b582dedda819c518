//! The commands on the sessions.

use vstd::prelude::*;

use crate::app::missing_session;
use crate::app::no_session;
use crate::commands::flag_field;
use crate::commands::maybe_field;
use crate::commands::text_field;
use crate::commands::SessionCommand;
use crate::response::field_views;
use crate::response::good_answer;
use crate::response::good_response;
use crate::response::Datum;
use crate::response::DatumView;
use crate::response::Field;
use crate::response::Response;
use crate::response::ResponseView;
use crate::session::chosen_session;
use crate::session::empty_store;
use crate::session::entry_views;
use crate::session::in_name_order;
use crate::session::lemma_listed_by_name;
use crate::session::path_view;
use crate::session::read_view;
use crate::session::selected_session_name;
use crate::session::session_device;
use crate::session::store_selecting;
use crate::session::store_with;
use crate::session::store_without;
use crate::session::SessionState;
use crate::session::SessionStore;
use crate::session::SessionView;
use crate::session::StoreView;
use crate::text::as_text;
use crate::text::before;
use crate::text::cat2;
use crate::text::cat3;
use crate::text::cat5;
use crate::text::opt_string;
use crate::text::same_text;

verus! {

/// What a command on the sessions comes to: an answer, an answer once the sessions have been
/// written, or an error.
#[derive(Debug)]
pub enum SessionStep {
    Answer(Response),
    Save(SessionStore, Response),
    Fail(String),
}

/// What a `SessionStep` holds.
#[verifier::ext_equal]
pub enum SessionStepView {
    Answer(ResponseView),
    Save(StoreView, ResponseView),
    Fail(Seq<char>),
}

impl View for SessionStep {
    type V = SessionStepView;

    open spec fn view(&self) -> SessionStepView {
        match self {
            SessionStep::Answer(response) => SessionStepView::Answer(response@),
            SessionStep::Save(store, response) => SessionStepView::Save(store@, response@),
            SessionStep::Fail(error) => SessionStepView::Fail(error@),
        }
    }
}

/// The sessions that were read; none where they could not be.
pub open spec fn store_or_empty(read: Result<StoreView, Seq<char>>) -> StoreView {
    match read {
        Ok(store) => store,
        Err(_) => empty_store(),
    }
}

/// The line on which a session is listed, the selected one with a star.
pub open spec fn session_line(
    current: Option<Seq<char>>,
    entry: (Seq<char>, SessionView),
) -> Seq<char> {
    let marker = if current == Some(entry.0) {
        "*"@
    } else {
        " "@
    };
    marker + " "@ + entry.0 + ": "@ + entry.1.device + "\n"@
}

/// The lines on which sessions are listed, one after the other.
pub open spec fn session_lines(
    current: Option<Seq<char>>,
    list: Seq<(Seq<char>, SessionView)>,
) -> Seq<char>
    decreases list.len(),
{
    if list.len() == 0 {
        Seq::empty()
    } else {
        session_lines(current, list.drop_last()) + session_line(current, list.last())
    }
}

/// The sessions of a store as they are listed: in the order of their names.
pub open spec fn session_table(store: StoreView) -> Seq<char> {
    if store.sessions == Map::<Seq<char>, SessionView>::empty() {
        "no sessions\n"@
    } else {
        session_lines(store.current, in_name_order(store.sessions))
    }
}

/// Lists the sessions of a store.
fn format_sessions(store: &SessionStore) -> (out: String)
    ensures
        out@ == session_table(store@),
{
    if store.sessions.is_empty() {
        return "no sessions\n".to_string();
    }
    let entries = store.sessions.entries();
    let ghost list = in_name_order(store.sessions@);
    let ghost current = opt_string(store.current);
    let mut out = String::new();
    let mut i: usize = 0;
    assert(list.take(0) =~= Seq::empty());
    while i < entries.len()
        invariant
            entry_views(entries@) == list,
            current == opt_string(store.current),
            i <= entries.len(),
            out@ == session_lines(current, list.take(i as int)),
        decreases entries.len() - i,
    {
        assert(list.take(i + 1).drop_last() =~= list.take(i as int));
        assert(list.take(i + 1).last() == (entries@[i as int].0@, entries@[i as int].1@));
        let name = &entries[i].0;
        let selected: bool = match &store.current {
            Some(current) => same_text(current.as_str(), name.as_str()),
            None => false,
        };
        let marker: &str = if selected {
            "*"
        } else {
            " "
        };
        let mut line = cat5(marker, " ", name.as_str(), ": ", entries[i].1.device.as_str());
        line.append("\n");
        out.append(line.as_str());
        i += 1;
    }
    assert(list.take(entries@.len() as int) =~= list);
    out
}

/// The session that is shown: the one that is asked for or chosen, if it is there.
pub open spec fn shown_session(store: StoreView, asked: Option<Seq<char>>) -> Option<
    (Seq<char>, SessionView),
> {
    match chosen_session(store, asked) {
        Some(name) => if store.sessions.contains_key(name) {
            Some((name, store.sessions[name]))
        } else {
            None
        },
        None => None,
    }
}

/// The answer to `session show`.
pub open spec fn show_answer(path: Seq<char>, store: StoreView, asked: Option<Seq<char>>) -> ResponseView {
    let shown = shown_session(store, asked);
    good_answer(
        "session.show"@,
        match shown {
            Some(entry) => Some(entry.1.device),
            None => None,
        },
        match shown {
            Some(entry) => "session "@ + entry.0 + ": "@ + entry.1.device + "\n"@,
            None => "no selected session\n"@,
        },
        seq![
            ("name"@, DatumView::Maybe(chosen_session(store, asked))),
            (
                "session"@,
                DatumView::Session(
                    match shown {
                        Some(entry) => Some(entry.1),
                        None => None,
                    },
                ),
            ),
            ("current"@, DatumView::Maybe(store.current)),
            ("path"@, DatumView::Text(path)),
        ],
    )
}

/// Makes the answer to `session show`.
fn show_session(path: &String, store: &SessionStore, asked: &Option<String>) -> (response: Response)
    ensures
        response@ == show_answer(path@, store@, opt_string(*asked)),
{
    let selected: Option<String> = match selected_session_name(store, as_text(asked)) {
        Ok(name) => Some(name),
        Err(_) => None,
    };
    let found: Option<&SessionState> = match &selected {
        Some(name) => store.sessions.get(name.as_str()),
        None => None,
    };
    let device: Option<String> = match found {
        Some(session) => Some(session.device.clone()),
        None => None,
    };
    let session: Option<SessionState> = match found {
        Some(session) => Some(session.copy()),
        None => None,
    };
    let stdout: String = match (&selected, found) {
        (Some(name), Some(session)) => cat5(
            "session ",
            name.as_str(),
            ": ",
            session.device.as_str(),
            "\n",
        ),
        _ => "no selected session\n".to_string(),
    };
    let mut data: Vec<Field> = Vec::new();
    data.push(maybe_field("name", &selected));
    data.push(Field { key: "session", value: Datum::Session(session) });
    data.push(maybe_field("current", &store.current));
    data.push(text_field("path", path));
    assert(field_views(data@) =~= show_answer(path@, store@, opt_string(*asked)).data);
    good_response("session.show", device, stdout, data)
}

/// The answer to `session use`.
pub open spec fn use_answer(
    path: Seq<char>,
    device: Seq<char>,
    name: Seq<char>,
    select: bool,
) -> ResponseView {
    good_answer(
        "session.use"@,
        Some(device),
        if select {
            "current session "@ + name + ": "@ + device + "\n"@
        } else {
            "session "@ + name + ": "@ + device + "\n"@
        },
        seq![
            ("name"@, DatumView::Text(name)),
            ("device"@, DatumView::Text(device)),
            ("selected"@, DatumView::Flag(select)),
            ("path"@, DatumView::Text(path)),
        ],
    )
}

/// Makes the answer to `session use`.
fn used_session(path: &String, device: &String, name: &String, select: bool) -> (response: Response)
    ensures
        response@ == use_answer(path@, device@, name@, select),
{
    let head: &str = if select {
        "current session "
    } else {
        "session "
    };
    let stdout = cat5(head, name.as_str(), ": ", device.as_str(), "\n");
    let mut data: Vec<Field> = Vec::new();
    data.push(text_field("name", name));
    data.push(text_field("device", device));
    data.push(flag_field("selected", select));
    data.push(text_field("path", path));
    assert(field_views(data@) =~= use_answer(path@, device@, name@, select).data);
    good_response("session.use", Some(device.clone()), stdout, data)
}

/// The answer to `session select`.
pub open spec fn select_answer(path: Seq<char>, device: Seq<char>, name: Seq<char>) -> ResponseView {
    good_answer(
        "session.select"@,
        Some(device),
        "current session: "@ + name + "\n"@,
        seq![
            ("name"@, DatumView::Text(name)),
            ("device"@, DatumView::Text(device)),
            ("path"@, DatumView::Text(path)),
        ],
    )
}

/// Makes the answer to `session select`.
fn selected_session(path: &String, device: String, name: &String) -> (response: Response)
    ensures
        response@ == select_answer(path@, device@, name@),
{
    let stdout = cat3("current session: ", name.as_str(), "\n");
    let mut data: Vec<Field> = Vec::new();
    data.push(text_field("name", name));
    data.push(text_field("device", &device));
    data.push(text_field("path", path));
    assert(field_views(data@) =~= select_answer(path@, device@, name@).data);
    good_response("session.select", Some(device), stdout, data)
}

/// The answer to `session list`.
pub open spec fn list_answer(path: Seq<char>, store: StoreView) -> ResponseView {
    good_answer(
        "session.list"@,
        None,
        session_table(store),
        seq![
            ("current"@, DatumView::Maybe(store.current)),
            ("sessions"@, DatumView::Sessions(store.sessions)),
            ("path"@, DatumView::Text(path)),
        ],
    )
}

/// Makes the answer to `session list`.
fn listed_sessions(path: &String, store: SessionStore) -> (response: Response)
    ensures
        response@ == list_answer(path@, store@),
{
    let stdout = format_sessions(&store);
    let mut data: Vec<Field> = Vec::new();
    data.push(maybe_field("current", &store.current));
    data.push(Field { key: "sessions", value: Datum::Sessions(store.sessions) });
    data.push(text_field("path", path));
    assert(field_views(data@) =~= list_answer(path@, store@).data);
    good_response("session.list", None, stdout, data)
}

/// The answer to `session remove`, for the session that was there.
pub open spec fn remove_answer(
    path: Seq<char>,
    name: Seq<char>,
    removed: Option<SessionView>,
) -> ResponseView {
    good_answer(
        "session.remove"@,
        match removed {
            Some(session) => Some(session.device),
            None => None,
        },
        if removed is Some {
            "removed session "@ + name + "\n"@
        } else {
            "session "@ + name + " did not exist\n"@
        },
        seq![
            ("name"@, DatumView::Text(name)),
            ("removed"@, DatumView::Flag(removed is Some)),
            ("path"@, DatumView::Text(path)),
        ],
    )
}

/// The session of a name, if there is one.
pub open spec fn session_named(store: StoreView, name: Seq<char>) -> Option<SessionView> {
    if store.sessions.contains_key(name) {
        Some(store.sessions[name])
    } else {
        None
    }
}

/// Makes the answer to `session remove`.
fn removed_session(path: &String, name: &String, removed: Option<SessionState>) -> (response:
    Response)
    ensures
        response@ == remove_answer(
            path@,
            name@,
            match removed {
                Some(session) => Some(session@),
                None => None,
            },
        ),
{
    let gone: bool = removed.is_some();
    let stdout = if gone {
        cat3("removed session ", name.as_str(), "\n")
    } else {
        cat3("session ", name.as_str(), " did not exist\n")
    };
    let device: Option<String> = match removed {
        Some(session) => Some(session.device),
        None => None,
    };
    let mut data: Vec<Field> = Vec::new();
    data.push(text_field("name", name));
    data.push(flag_field("removed", gone));
    data.push(text_field("path", path));
    assert(field_views(data@) =~= seq![
        ("name"@, DatumView::Text(name@)),
        ("removed"@, DatumView::Flag(gone)),
        ("path"@, DatumView::Text(path@)),
    ]);
    good_response("session.remove", device, stdout, data)
}

/// An answer whose data is the path of the session file.
pub open spec fn path_answer(action: Seq<char>, path: Seq<char>, stdout: Seq<char>) -> ResponseView {
    good_answer(action, None, stdout, seq![("path"@, DatumView::Text(path))])
}

/// Makes an answer whose data is the path of the session file.
fn path_response(action: &str, path: &String, stdout: String) -> (response: Response)
    ensures
        response@ == path_answer(action@, path@, stdout@),
{
    let mut data: Vec<Field> = Vec::new();
    data.push(text_field("path", path));
    assert(field_views(data@) =~= seq![("path"@, DatumView::Text(path@))]);
    good_response(action, None, stdout, data)
}

/// What a command on the sessions comes to, with what was read of them. Some commands make do with
/// no sessions where they could not be read; `select` and `remove` do not.
pub open spec fn session_step(
    path: Result<Seq<char>, Seq<char>>,
    command: SessionCommand,
    read: Result<StoreView, Seq<char>>,
    now: u64,
) -> SessionStepView {
    match path {
        Err(error) => SessionStepView::Fail(error),
        Ok(path) => match command {
            SessionCommand::Use { device, name, no_select } => SessionStepView::Save(
                store_with(store_or_empty(read), name@, device@, now, !no_select),
                use_answer(path, device@, name@, !no_select),
            ),
            SessionCommand::Select { name } => match read {
                Err(error) => SessionStepView::Fail(error),
                Ok(store) => match session_named(store, name@) {
                    Some(session) => SessionStepView::Save(
                        store_selecting(store, Some(name@)),
                        select_answer(path, session.device, name@),
                    ),
                    None => SessionStepView::Fail(no_session(name@)),
                },
            },
            SessionCommand::List => SessionStepView::Answer(
                list_answer(path, store_or_empty(read)),
            ),
            SessionCommand::Show { name } => SessionStepView::Answer(
                show_answer(path, store_or_empty(read), opt_string(name)),
            ),
            SessionCommand::Remove { name } => match read {
                Err(error) => SessionStepView::Fail(error),
                Ok(store) => SessionStepView::Save(
                    store_without(store, name@),
                    remove_answer(path, name@, session_named(store, name@)),
                ),
            },
            SessionCommand::Clear => SessionStepView::Save(
                store_selecting(store_or_empty(read), None),
                path_answer("session.clear"@, path, "current session cleared\n"@),
            ),
            SessionCommand::Path => SessionStepView::Answer(
                path_answer("session.path"@, path, path + "\n"@),
            ),
        },
    }
}

/// The sessions that were read; none where they could not be.
pub fn read_or_empty(read: Result<SessionStore, String>) -> (store: SessionStore)
    ensures
        store@ == store_or_empty(read_view(read)),
{
    match read {
        Ok(store) => store,
        Err(_) => SessionStore::default(),
    }
}

/// Carries out a command on the sessions, with what was read of them: `path` is where they stand.
pub fn handle_session(
    path: &Result<String, String>,
    command: SessionCommand,
    read: Result<SessionStore, String>,
    now: u64,
) -> (step: SessionStep)
    ensures
        step@ == session_step(path_view(*path), command, read_view(read), now),
{
    let path = match path {
        Ok(path) => path,
        Err(error) => {
            return SessionStep::Fail(error.clone());
        },
    };
    match command {
        SessionCommand::Use { device, name, no_select } => {
            let mut store = read_or_empty(read);
            store.put(&name, &device, now, !no_select);
            SessionStep::Save(store, used_session(path, &device, &name, !no_select))
        },
        SessionCommand::Select { name } => match read {
            Err(error) => SessionStep::Fail(error),
            Ok(mut store) => {
                let device: String = match store.sessions.get(name.as_str()) {
                    Some(session) => session.device.clone(),
                    None => {
                        return SessionStep::Fail(missing_session(name.as_str()));
                    },
                };
                store.current = Some(name.clone());
                SessionStep::Save(store, selected_session(path, device, &name))
            },
        },
        SessionCommand::List => SessionStep::Answer(listed_sessions(path, read_or_empty(read))),
        SessionCommand::Show { name } => {
            let store = read_or_empty(read);
            SessionStep::Answer(show_session(path, &store, &name))
        },
        SessionCommand::Remove { name } => match read {
            Err(error) => SessionStep::Fail(error),
            Ok(mut store) => {
                let removed = store.drop_session(&name);
                SessionStep::Save(store, removed_session(path, &name, removed))
            },
        },
        SessionCommand::Clear => {
            let mut store = read_or_empty(read);
            store.current = None;
            SessionStep::Save(
                store,
                path_response("session.clear", path, "current session cleared\n".to_string()),
            )
        },
        SessionCommand::Path => SessionStep::Answer(
            path_response("session.path", path, cat2(path.as_str(), "\n")),
        ),
    }
}

/// Once `session use` has been saved, its device is the one of the session of that name and, where
/// it was selected, the one that a command has which names no session.
pub proof fn law_use_sets_the_device(
    path: Seq<char>,
    command: SessionCommand,
    read: Result<StoreView, Seq<char>>,
    now: u64,
)
    requires
        command is Use,
    ensures
        ({
            let step = session_step(Ok(path), command, read, now);
            let name = command->Use_name@;
            let device = command->Use_device@;
            &&& step is Save
            &&& session_device(step->Save_0, Some(name)) == Some(device)
            &&& !command->Use_no_select ==> session_device(step->Save_0, None) == Some(device)
            &&& command->Use_no_select ==> step->Save_0.current == store_or_empty(read).current
        }),
{
}

/// Once `session select` has been saved, a command that names no session has the device of the
/// selected one; `session clear` takes the selection away and leaves the sessions.
pub proof fn law_select_and_clear(
    path: Seq<char>,
    name: String,
    store: StoreView,
    now: u64,
)
    ensures
        match session_step(Ok(path), SessionCommand::Select { name }, Ok(store), now) {
            SessionStepView::Save(saved, _) => {
                &&& store.sessions.contains_key(name@)
                &&& session_device(saved, None) == Some(store.sessions[name@].device)
                &&& saved.sessions == store.sessions
            },
            SessionStepView::Fail(error) => !store.sessions.contains_key(name@) && error
                == no_session(name@),
            SessionStepView::Answer(_) => false,
        },
        match session_step(Ok(path), SessionCommand::Clear, Ok(store), now) {
            SessionStepView::Save(saved, _) => saved.current is None && saved.sessions
                == store.sessions,
            _ => false,
        },
{
}

/// Looking at the sessions never changes them: `list`, `show` and `path` save nothing.
pub proof fn law_looking_saves_nothing(
    path: Result<Seq<char>, Seq<char>>,
    command: SessionCommand,
    read: Result<StoreView, Seq<char>>,
    now: u64,
)
    requires
        command is List || command is Show || command is Path,
    ensures
        !(session_step(path, command, read, now) is Save),
{
}

/// The answers to the commands on the sessions are for the device that they are about, and tell
/// what was asked for and where the file is, each thing under its own key.
pub proof fn law_session_answers_tell_what_was_done(
    path: Seq<char>,
    device: Seq<char>,
    name: Seq<char>,
    select: bool,
    store: StoreView,
    removed: Option<SessionView>,
)
    ensures
        ({
            let used = use_answer(path, device, name, select);
            &&& used.device == Some(device)
            &&& used.data.contains(("name"@, DatumView::Text(name)))
            &&& used.data.contains(("device"@, DatumView::Text(device)))
            &&& used.data.contains(("selected"@, DatumView::Flag(select)))
            &&& used.data.contains(("path"@, DatumView::Text(path)))
        }),
        ({
            let selected = select_answer(path, device, name);
            &&& selected.device == Some(device)
            &&& selected.data.contains(("name"@, DatumView::Text(name)))
            &&& selected.data.contains(("device"@, DatumView::Text(device)))
            &&& selected.data.contains(("path"@, DatumView::Text(path)))
        }),
        ({
            let listed = list_answer(path, store);
            &&& listed.device is None
            &&& listed.data.contains(("current"@, DatumView::Maybe(store.current)))
            &&& listed.data.contains(("sessions"@, DatumView::Sessions(store.sessions)))
            &&& listed.data.contains(("path"@, DatumView::Text(path)))
        }),
        ({
            let gone = remove_answer(path, name, removed);
            &&& gone.device is Some <==> removed is Some
            &&& removed is Some ==> gone.device == Some(removed->0.device)
            &&& gone.data.contains(("name"@, DatumView::Text(name)))
            &&& gone.data.contains(("removed"@, DatumView::Flag(removed is Some)))
            &&& gone.data.contains(("path"@, DatumView::Text(path)))
        }),
{
    let used = use_answer(path, device, name, select).data;
    assert(used.contains(used[0]) && used.contains(used[1]) && used.contains(used[2])
        && used.contains(used[3]));
    let selected = select_answer(path, device, name).data;
    assert(selected.contains(selected[0]) && selected.contains(selected[1]) && selected.contains(
        selected[2],
    ));
    let listed = list_answer(path, store).data;
    assert(listed.contains(listed[0]) && listed.contains(listed[1]) && listed.contains(listed[2]));
    let gone = remove_answer(path, name, removed).data;
    assert(gone.contains(gone[0]) && gone.contains(gone[1]) && gone.contains(gone[2]));
}

/// The session that is shown is the one that a command would be for: its name, its device and all
/// that is known of it, where there is such a session.
pub proof fn law_shown_session_is_the_one_in_use(
    path: Seq<char>,
    store: StoreView,
    asked: Option<Seq<char>>,
)
    ensures
        ({
            let shown = show_answer(path, store, asked);
            let chosen = chosen_session(store, asked);
            let there = chosen is Some && store.sessions.contains_key(chosen->0);
            &&& shown.device == session_device(store, asked)
            &&& shown.data.contains(("name"@, DatumView::Maybe(chosen)))
            &&& shown.data.contains(("current"@, DatumView::Maybe(store.current)))
            &&& shown.data.contains(("path"@, DatumView::Text(path)))
            &&& there ==> shown.data.contains(
                ("session"@, DatumView::Session(Some(store.sessions[chosen->0]))),
            )
            &&& !there ==> shown.data.contains(("session"@, DatumView::Session(None)))
        }),
{
    let data = show_answer(path, store, asked).data;
    assert(data.contains(data[0]) && data.contains(data[1]) && data.contains(data[2])
        && data.contains(data[3]));
}

/// A command on the sessions changes just what it says: `use` puts one session, with its device and
/// the time, `remove` takes one away, and the others stay as they are.
pub proof fn law_session_commands_change_one_session(
    path: Seq<char>,
    device: String,
    name: String,
    no_select: bool,
    store: StoreView,
    now: u64,
    other: Seq<char>,
)
    requires
        other != name@,
    ensures
        ({
            let used = session_step(
                Ok(path),
                SessionCommand::Use { device, name, no_select },
                Ok(store),
                now,
            );
            &&& used is Save
            &&& used->Save_0.sessions.contains_key(name@)
            &&& used->Save_0.sessions[name@].device == device@
            &&& used->Save_0.sessions[name@].updated_at_unix == now
            &&& used->Save_0.sessions.contains_key(other) <==> store.sessions.contains_key(other)
            &&& store.sessions.contains_key(other) ==> used->Save_0.sessions[other]
                == store.sessions[other]
            &&& no_select ==> used->Save_0.current == store.current
            &&& !no_select ==> used->Save_0.current == Some(name@)
        }),
        ({
            let gone = session_step(Ok(path), SessionCommand::Remove { name }, Ok(store), now);
            &&& gone is Save
            &&& !gone->Save_0.sessions.contains_key(name@)
            &&& gone->Save_0.sessions.contains_key(other) <==> store.sessions.contains_key(other)
            &&& store.sessions.contains_key(other) ==> gone->Save_0.sessions[other]
                == store.sessions[other]
            &&& store.current == Some(name@) ==> gone->Save_0.current is None
            &&& store.current != Some(name@) ==> gone->Save_0.current == store.current
            &&& gone->Save_1.data.contains(
                ("removed"@, DatumView::Flag(store.sessions.contains_key(name@))),
            )
        }),
{
    let data = remove_answer(path, name@, session_named(store, name@)).data;
    assert(data.contains(data[1]));
}

/// Where the sessions could not be read, `use`, `list`, `show` and `clear` go on as though there
/// were none, and `select` and `remove` fail with the reason.
pub proof fn law_unread_sessions_are_none(
    path: Seq<char>,
    command: SessionCommand,
    error: Seq<char>,
    now: u64,
)
    ensures
        command is Use || command is List || command is Show || command is Clear
            || command is Path ==> session_step(Ok(path), command, Err(error), now)
            == session_step(
            Ok(path),
            command,
            Ok(StoreView { current: None, sessions: Map::empty() }),
            now,
        ),
        command is Select || command is Remove ==> session_step(Ok(path), command, Err(error), now)
            == SessionStepView::Fail(error),
{
}

/// Sessions are listed one per line, by name and device; a star marks the selected one and no
/// other.
pub proof fn law_the_selected_session_is_starred(
    current: Option<Seq<char>>,
    entry: (Seq<char>, SessionView),
    first: Seq<(Seq<char>, SessionView)>,
    second: Seq<(Seq<char>, SessionView)>,
)
    ensures
        current == Some(entry.0) ==> session_line(current, entry) == "* "@ + entry.0 + ": "@
            + entry.1.device + "\n"@,
        current != Some(entry.0) ==> session_line(current, entry) == "  "@ + entry.0 + ": "@
            + entry.1.device + "\n"@,
        session_lines(current, first + second) == session_lines(current, first) + session_lines(
            current,
            second,
        ),
        session_lines(current, seq![entry]) == session_line(current, entry),
    decreases second.len(),
{
    reveal_strlit("*");
    reveal_strlit(" ");
    reveal_strlit("* ");
    reveal_strlit("  ");
    assert("*"@ + " "@ =~= "* "@);
    assert(" "@ + " "@ =~= "  "@);
    reveal_with_fuel(session_lines, 2);
    assert(seq![entry].drop_last() =~= Seq::<(Seq<char>, SessionView)>::empty());
    assert(session_lines(current, seq![entry]) =~= session_line(current, entry));
    if second.len() == 0 {
        assert(first + second =~= first);
        assert(session_lines(current, first + second) =~= session_lines(current, first)
            + session_lines(current, second));
    } else {
        law_the_selected_session_is_starred(current, entry, first, second.drop_last());
        assert((first + second).drop_last() =~= first + second.drop_last());
        assert((first + second).last() == second.last());
        assert(session_lines(current, first + second) =~= session_lines(current, first)
            + session_lines(current, second));
    }
}

/// Each command on the sessions answers for itself: with its own name as the action, for what it
/// was asked for and where the file is. None is carried out where the place of the file is unknown.
pub proof fn law_session_steps_answer_for_themselves(
    path: Seq<char>,
    device: String,
    name: String,
    no_select: bool,
    asked: Option<String>,
    store: StoreView,
    now: u64,
)
    ensures
        ({
            let step = session_step(
                Ok(path),
                SessionCommand::Use { device, name, no_select },
                Ok(store),
                now,
            );
            let answer = step->Save_1;
            &&& answer.ok && answer.action == "session.use"@ && answer.device == Some(device@)
            &&& answer.data.contains(("name"@, DatumView::Text(name@)))
            &&& answer.data.contains(("selected"@, DatumView::Flag(!no_select)))
            &&& answer.data.contains(("path"@, DatumView::Text(path)))
            &&& no_select ==> answer.stdout == "session "@ + name@ + ": "@ + device@ + "\n"@
            &&& !no_select ==> answer.stdout == "current session "@ + name@ + ": "@ + device@
                + "\n"@
        }),
        store.sessions.contains_key(name@) ==> {
            let step = session_step(Ok(path), SessionCommand::Select { name }, Ok(store), now);
            let answer = step->Save_1;
            &&& answer.ok && answer.action == "session.select"@
            &&& answer.device == Some(store.sessions[name@].device)
            &&& answer.stdout == "current session: "@ + name@ + "\n"@
            &&& answer.data.contains(("name"@, DatumView::Text(name@)))
            &&& answer.data.contains(("path"@, DatumView::Text(path)))
        },
        ({
            let step = session_step(Ok(path), SessionCommand::Remove { name }, Ok(store), now);
            let answer = step->Save_1;
            &&& answer.ok && answer.action == "session.remove"@
            &&& store.sessions.contains_key(name@) ==> answer.stdout == "removed session "@ + name@
                + "\n"@ && answer.device == Some(store.sessions[name@].device)
            &&& !store.sessions.contains_key(name@) ==> answer.stdout == "session "@ + name@
                + " did not exist\n"@ && answer.device is None
            &&& answer.data.contains(("path"@, DatumView::Text(path)))
        }),
        ({
            let step = session_step(Ok(path), SessionCommand::Show { name: asked }, Ok(store), now);
            let answer = step->Answer_0;
            let shown = session_device(store, opt_string(asked));
            &&& step is Answer && answer.ok && answer.action == "session.show"@
            &&& answer.device == shown
            &&& shown is None ==> answer.stdout == "no selected session\n"@
            &&& shown is Some ==> answer.stdout == "session "@ + chosen_session(
                store,
                opt_string(asked),
            )->0 + ": "@ + shown->0 + "\n"@
        }),
        ({
            let step = session_step(Ok(path), SessionCommand::List, Ok(store), now);
            let answer = step->Answer_0;
            &&& step is Answer && answer.ok && answer.action == "session.list"@
            &&& answer.data.contains(("current"@, DatumView::Maybe(store.current)))
            &&& answer.data.contains(("sessions"@, DatumView::Sessions(store.sessions)))
            &&& store.sessions.dom().len() == 0 && store.sessions.dom().finite() ==> answer.stdout
                == "no sessions\n"@
        }),
        ({
            let step = session_step(Ok(path), SessionCommand::Clear, Ok(store), now);
            let answer = step->Save_1;
            &&& answer.ok && answer.action == "session.clear"@ && answer.device is None
            &&& answer.stdout == "current session cleared\n"@
            &&& answer.data == seq![("path"@, DatumView::Text(path))]
        }),
        ({
            let step = session_step(Ok(path), SessionCommand::Path, Ok(store), now);
            let answer = step->Answer_0;
            &&& step is Answer && answer.ok && answer.action == "session.path"@
            &&& answer.device is None && answer.stdout == path + "\n"@
            &&& answer.data == seq![("path"@, DatumView::Text(path))]
        }),
{
    law_session_answers_tell_what_was_done(
        path,
        device@,
        name@,
        !no_select,
        store,
        session_named(store, name@),
    );
    if store.sessions.contains_key(name@) {
        law_session_answers_tell_what_was_done(
            path,
            store.sessions[name@].device,
            name@,
            true,
            store,
            session_named(store, name@),
        );
    }
    if store.sessions.dom().len() == 0 && store.sessions.dom().finite() {
        assert(store.sessions.dom() =~= Set::empty());
        assert(store.sessions =~= Map::empty());
    }
}

/// Where the place of the session file is unknown, every command on the sessions fails with the
/// reason.
pub proof fn law_session_commands_need_a_place(
    reason: Seq<char>,
    command: SessionCommand,
    read: Result<StoreView, Seq<char>>,
    now: u64,
)
    ensures
        session_step(Err(reason), command, read, now) == SessionStepView::Fail(reason),
{
}

/// Sessions are listed by their names, each once, in ascending order: where a list of all of them
/// is in that order, it is what is printed.
pub proof fn law_sessions_are_listed_by_name(
    store: StoreView,
    list: Seq<(Seq<char>, SessionView)>,
)
    requires
        0 < list.len(),
        forall|i: int, j: int|
            0 <= i < j < list.len() ==> before(#[trigger] list[i].0, #[trigger] list[j].0),
        forall|name: Seq<char>| #[trigger]
            store.sessions.contains_key(name) <==> exists|i: int|
                0 <= i < list.len() && #[trigger] list[i].0 == name,
        forall|i: int| 0 <= i < list.len() ==> store.sessions[(#[trigger] list[i]).0] == list[i].1,
    ensures
        session_table(store) == session_lines(store.current, list),
{
    lemma_listed_by_name(store.sessions, list);
    assert(store.sessions.contains_key(list[0].0));
}

} // verus!
