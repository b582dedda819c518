//! How the tool was called, and which device that means.

use vstd::prelude::*;

use crate::adb::adb_command;
use crate::adb::own_run;
use crate::adb::AdbCall;
use crate::adb::AdbRequest;
use crate::response::OutputFormat;
use crate::session::chosen_session;
use crate::session::read_view;
use crate::session::selected_session_name;
use crate::session::session_device;
use crate::session::store_selecting;
use crate::session::SessionStore;
use crate::session::StoreView;
use crate::text::as_text;
use crate::text::cat3;
use crate::text::opt_string;
use crate::text::opt_text;
use crate::text::texts;

verus! {

/// How the tool was called.
#[derive(Debug)]
pub struct App {
    /// The path or the name of adb.
    pub adb: String,
    /// The device that the call names.
    pub cli_device: Option<String>,
    /// The session that the call names.
    pub cli_session: Option<String>,
    /// The session that the environment names.
    pub env_session: Option<String>,
    /// Whether a command on a device may recover the adb server and run again.
    pub auto_recover: bool,
    pub format: OutputFormat,
    /// Where the session file stands, or why that cannot be told.
    pub session_path: Result<String, String>,
}

/// The session that is asked for: by the call, else by the environment.
pub open spec fn requested_session(app: App) -> Option<Seq<char>> {
    match app.cli_session {
        Some(name) => Some(name@),
        None => opt_string(app.env_session),
    }
}

/// The device of the session that a command is for, if the sessions could be read.
pub open spec fn device_in_session(app: App, read: Result<StoreView, Seq<char>>) -> Option<
    Seq<char>,
> {
    match read {
        Ok(store) => session_device(store, requested_session(app)),
        Err(_) => None,
    }
}

/// The device that a command is for: the one that the call names, else that of the session.
pub open spec fn device_for(app: App, read: Result<StoreView, Seq<char>>) -> Option<Seq<char>> {
    match app.cli_device {
        Some(device) => Some(device@),
        None => device_in_session(app, read),
    }
}

/// The error of a command for which there is no device.
pub open spec fn no_device() -> Seq<char> {
    "no device selected; pass --device <serial>, --session <name>, or run `adb-agent session use <serial> --name <name>`"@
}

/// The error of a session that is not there.
pub open spec fn no_session(name: Seq<char>) -> Seq<char> {
    "session `"@ + name + "` does not exist"@
}

/// Says that a session is not there.
pub fn missing_session(name: &str) -> (error: String)
    ensures
        error@ == no_session(name@),
{
    cat3("session `", name, "` does not exist")
}

/// Why there is no device in the session that a command is for.
pub open spec fn session_error(app: App, read: Result<StoreView, Seq<char>>) -> Seq<char> {
    match read {
        Err(error) => error,
        Ok(store) => match chosen_session(store, requested_session(app)) {
            Some(name) => no_session(name),
            None => "no session selected; run `adb-agent session select <name>` or pass `--session <name>`"@,
        },
    }
}

impl App {
    /// The session that is asked for, by the call or by the environment.
    pub fn session_name_override(&self) -> (name: Option<&str>)
        ensures
            opt_text(name) == requested_session(*self),
    {
        match &self.cli_session {
            Some(name) => Some(name.as_str()),
            None => as_text(&self.env_session),
        }
    }

    /// The device of the session that a command is for.
    pub fn session_device(&self, read: &Result<SessionStore, String>) -> (device: Result<
        String,
        String,
    >)
        ensures
            match device {
                Ok(device) => device_in_session(*self, read_view(*read)) == Some(device@),
                Err(error) => device_in_session(*self, read_view(*read)) is None && error@
                    == session_error(*self, read_view(*read)),
            },
    {
        match read {
            Err(error) => Err(error.clone()),
            Ok(store) => match selected_session_name(store, self.session_name_override()) {
                Err(error) => Err(error),
                Ok(name) => match store.sessions.get(name.as_str()) {
                    Some(session) => Ok(session.device.clone()),
                    None => Err(missing_session(name.as_str())),
                },
            },
        }
    }

    /// The device that a command is for: the one that the call names, else that of the session.
    pub fn device(&self, read: &Result<SessionStore, String>) -> (device: Result<String, String>)
        ensures
            match device {
                Ok(device) => device_for(*self, read_view(*read)) == Some(device@),
                Err(error) => device_for(*self, read_view(*read)) is None && error@ == no_device(),
            },
    {
        if let Some(device) = &self.cli_device {
            return Ok(device.clone());
        }
        match self.session_device(read) {
            Ok(device) => Ok(device),
            Err(_) => Err(
                "no device selected; pass --device <serial>, --session <name>, or run `adb-agent session use <serial> --name <name>`".to_string(),
            ),
        }
    }

    /// Begins an adb command, on a device if `use_device` says so.
    pub fn adb(&self, use_device: bool, device: Option<String>, args: Vec<String>) -> (begun: Result<
        (AdbRequest, AdbCall),
        String,
    >)
        ensures
            match begun {
                Ok(begun) => {
                    &&& use_device ==> device is Some
                    &&& begun.1@ == adb_command(
                        if use_device {
                            opt_string(device)
                        } else {
                            None
                        },
                        texts(args@),
                        self.auto_recover && use_device,
                    )
                    &&& begun.0@ == own_run(begun.1@)
                },
                Err(error) => use_device && device is None && error@
                    == "internal error: adb command requested device mode without a device"@,
            },
    {
        if use_device {
            if device.is_none() {
                return Err(
                    "internal error: adb command requested device mode without a device".to_string(),
                );
            }
            Ok(AdbCall::begin(device, args, self.auto_recover))
        } else {
            Ok(AdbCall::begin(None, args, false))
        }
    }
}

/// A device that the call names is the one that a command is for, whatever the sessions are.
pub proof fn law_named_device_wins(app: App, read: Result<StoreView, Seq<char>>)
    requires
        app.cli_device is Some,
    ensures
        device_for(app, read) == opt_string(app.cli_device),
{
}

/// A session that the call names goes before the one that the environment names, and that before
/// the selected one. A command for a named session has its device, whichever is selected.
pub proof fn law_named_session_wins(app: App, store: StoreView, selected: Option<Seq<char>>)
    ensures
        app.cli_session is Some ==> requested_session(app) == opt_string(app.cli_session),
        app.cli_session is None ==> requested_session(app) == opt_string(app.env_session),
        requested_session(app) is Some ==> device_in_session(app, Ok(store)) == device_in_session(
            app,
            Ok(store_selecting(store, selected)),
        ),
{
}

/// Why there is no device is told: the sessions could not be read, the session that is meant is
/// not there, by its name, or none is meant.
pub proof fn law_missing_devices_are_explained(
    app: App,
    store: StoreView,
    error: Seq<char>,
    name: Seq<char>,
)
    ensures
        session_error(app, Err(error)) == error,
        chosen_session(store, requested_session(app)) == Some(name) ==> session_error(
            app,
            Ok(store),
        ) == "session `"@ + name + "` does not exist"@,
        chosen_session(store, requested_session(app)) is None ==> session_error(app, Ok(store))
            == "no session selected; run `adb-agent session select <name>` or pass `--session <name>`"@,
        device_in_session(app, Err(error)) is None,
{
}

} // verus!
