//! The commands of the tool from their call to their answer.

use vstd::prelude::*;

use crate::adb::adb_command;
use crate::adb::adb_next;
use crate::adb::list_args;
use crate::adb::own_run;
use crate::adb::plain_run;
use crate::adb::recover_adb_server;
use crate::adb::recovery;
use crate::adb::recovery_next;
use crate::adb::run_view;
use crate::adb::AdbCall;
use crate::adb::AdbCallView;
use crate::adb::Progress;
use crate::adb::ProgressView;
use crate::adb::RecoverCall;
use crate::adb::RecoverView;
use crate::app::device_for;
use crate::app::device_in_session;
use crate::app::no_device;
use crate::app::App;
use crate::app_commands::app_next;
use crate::app_commands::app_stage;
use crate::app_commands::first_stage;
use crate::app_commands::handle_app;
use crate::app_commands::AppCall;
use crate::app_commands::AppCallView;
use crate::commands::device_action;
use crate::commands::device_args;
use crate::commands::device_data;
use crate::commands::flag_field;
use crate::commands::plain_action;
use crate::commands::plain_args;
use crate::commands::plain_data;
use crate::commands::text_field;
use crate::commands::AppCommand;
use crate::commands::Commands;
use crate::commands::DeviceCommand;
use crate::commands::PlainCommand;
use crate::commands::SessionCommand;
use crate::commands::ShotOptions;
use crate::commands::UiCommand;
use crate::imaging::make_preview;
use crate::imaging::preview_outcome;
use crate::imaging::unix_now;
use crate::recover::handle_recover;
use crate::recover::recover_answer;
use crate::response::answer_from;
use crate::response::error_answer;
use crate::response::error_response;
use crate::response::field_views;
use crate::response::good_answer;
use crate::response::good_response;
use crate::response::response_from_output;
use crate::response::succeeded;
use crate::response::AdbOutput;
use crate::response::Datum;
use crate::response::DatumView;
use crate::response::Field;
use crate::response::OutputView;
use crate::response::Response;
use crate::response::ResponseView;
use crate::response::ScreenshotResult;
use crate::response::ShotView;
use crate::session::path_view;
use crate::session::read_view;
use crate::session::store_with;
use crate::session::write_error;
use crate::session::write_session_store;
use crate::session::SessionStore;
use crate::session::StoreView;
use crate::session_commands::handle_session;
use crate::session_commands::read_or_empty;
use crate::session_commands::session_step;
use crate::session_commands::store_or_empty;
use crate::session_commands::SessionStep;
use crate::session_commands::SessionStepView;
use crate::shot::screenshot;
use crate::shot::shot_begin;
use crate::shot::shot_next;
use crate::shot::ShotCall;
use crate::shot::ShotCallView;
use crate::steps::stray;
use crate::steps::stray_event;
use crate::steps::Action;
use crate::steps::ActionView;
use crate::steps::Event;
use crate::steps::Step;
use crate::steps::StepView;
use crate::text::cat3;
use crate::text::copy_optional;
use crate::text::opt_string;
use crate::text::strings;
use crate::text::texts;
use crate::ui_commands::handle_ui;
use crate::ui_commands::ui_begin;
use crate::ui_commands::ui_first_run;
use crate::ui_commands::ui_next;
use crate::ui_commands::UiCall;
use crate::ui_commands::UiCallView;

verus! {

/// What a device is wanted for.
#[derive(Debug)]
pub enum DeviceUse {
    Device(DeviceCommand),
    Shot(ShotOptions),
    App(AppCommand),
    Ui(UiCommand),
    /// Arguments for adb; a device goes with them if there is one.
    Raw(Vec<String>),
    /// A recovery; any device will do where none is meant.
    Recover { force: bool, wait_ms: u64 },
}

/// A command under way.
#[derive(Debug)]
pub enum Flow {
    Plain(PlainCommand, AdbCall),
    /// adb connects to a target, which is to be selected or not.
    Connecting(String, bool, AdbCall),
    /// The sessions are read, to select a target in them.
    ConnectReads(String, AdbOutput),
    /// The clock is read, to select a target in these sessions.
    ConnectClock(String, AdbOutput, SessionStore),
    /// The sessions are written in which a target is selected.
    ConnectSaves(String, AdbOutput),
    /// The sessions are read, to choose a device.
    Choosing(DeviceUse),
    Device(DeviceCommand, String, AdbCall),
    Shot(String, ShotCall),
    App(AppCall),
    Ui(UiCall),
    Raw(Option<String>, AdbCall),
    Recover(RecoverCall),
    /// The sessions are read for a command on them.
    SessionReads(SessionCommand),
    /// The clock is read for a command on these sessions.
    SessionClock(SessionCommand, Result<SessionStore, String>),
    /// The sessions are written, and this is answered.
    SessionSaves(Response),
    /// The sessions are read, to name the device in the answer of a command that failed.
    Failing(String),
}

/// What a `Flow` holds.
#[verifier::ext_equal]
pub enum FlowView {
    Plain(PlainCommand, AdbCallView),
    Connecting(Seq<char>, bool, AdbCallView),
    ConnectReads(Seq<char>, OutputView),
    ConnectClock(Seq<char>, OutputView, StoreView),
    ConnectSaves(Seq<char>, OutputView),
    Choosing(DeviceUse),
    Device(DeviceCommand, Seq<char>, AdbCallView),
    Shot(Seq<char>, ShotCallView),
    App(AppCallView),
    Ui(UiCallView),
    Raw(Option<Seq<char>>, AdbCallView),
    Recover(RecoverView),
    SessionReads(SessionCommand),
    SessionClock(SessionCommand, Result<StoreView, Seq<char>>),
    SessionSaves(ResponseView),
    Failing(Seq<char>),
}

impl View for Flow {
    type V = FlowView;

    open spec fn view(&self) -> FlowView {
        match self {
            Flow::Plain(command, call) => FlowView::Plain(*command, call@),
            Flow::Connecting(target, select, call) => FlowView::Connecting(
                target@,
                *select,
                call@,
            ),
            Flow::ConnectReads(target, output) => FlowView::ConnectReads(target@, output@),
            Flow::ConnectClock(target, output, store) => FlowView::ConnectClock(
                target@,
                output@,
                store@,
            ),
            Flow::ConnectSaves(target, output) => FlowView::ConnectSaves(target@, output@),
            Flow::Choosing(wanted) => FlowView::Choosing(*wanted),
            Flow::Device(command, device, call) => FlowView::Device(*command, device@, call@),
            Flow::Shot(device, call) => FlowView::Shot(device@, call@),
            Flow::App(call) => FlowView::App(call@),
            Flow::Ui(call) => FlowView::Ui(call@),
            Flow::Raw(device, call) => FlowView::Raw(opt_string(*device), call@),
            Flow::Recover(call) => FlowView::Recover(call@),
            Flow::SessionReads(command) => FlowView::SessionReads(*command),
            Flow::SessionClock(command, read) => FlowView::SessionClock(
                *command,
                read_view(*read),
            ),
            Flow::SessionSaves(response) => FlowView::SessionSaves(response@),
            Flow::Failing(error) => FlowView::Failing(error@),
        }
    }
}

/// Where a command stands: an action is due, or it is answered.
#[derive(Debug)]
pub enum Turn {
    Do(Action, Flow),
    Done(Response),
}

/// What a `Turn` holds.
#[verifier::ext_equal]
pub enum TurnView {
    Do(ActionView, FlowView),
    Done(ResponseView),
}

impl View for Turn {
    type V = TurnView;

    open spec fn view(&self) -> TurnView {
        match self {
            Turn::Do(action, flow) => TurnView::Do(action@, flow@),
            Turn::Done(response) => TurnView::Done(response@),
        }
    }
}

/// How a command goes on that cannot be carried out. The answer names the device that the call
/// names, else that of the session.
pub open spec fn fails(app: App, error: Seq<char>) -> TurnView {
    match app.cli_device {
        Some(device) => TurnView::Done(error_answer(Some(device@), error)),
        None => TurnView::Do(ActionView::ReadStore, FlowView::Failing(error)),
    }
}

/// How a command goes on once it is known whether there is a device. Only a recovery and raw
/// arguments make do without one.
pub open spec fn uses_device(app: App, wanted: DeviceUse, device: Option<Seq<char>>) -> TurnView {
    match wanted {
        DeviceUse::Raw(args) => {
            let call = adb_command(device, texts(args@), app.auto_recover && device is Some);
            TurnView::Do(ActionView::Adb(own_run(call)), FlowView::Raw(device, call))
        },
        DeviceUse::Recover { force, wait_ms } => TurnView::Do(
            ActionView::Adb(plain_run(list_args())),
            FlowView::Recover(recovery(device, force, wait_ms)),
        ),
        DeviceUse::Device(command) => match device {
            None => fails(app, no_device()),
            Some(device) => {
                let call = adb_command(Some(device), device_args(command), app.auto_recover);
                TurnView::Do(
                    ActionView::Adb(own_run(call)),
                    FlowView::Device(command, device, call),
                )
            },
        },
        DeviceUse::Shot(options) => match device {
            None => fails(app, no_device()),
            Some(device) => TurnView::Do(
                ActionView::MakeDir(options.path@),
                FlowView::Shot(device, shot_begin(device, app.auto_recover, options)),
            ),
        },
        DeviceUse::App(command) => match device {
            None => fails(app, no_device()),
            Some(device) => {
                let call = app_stage(device, app.auto_recover, first_stage(command));
                TurnView::Do(ActionView::Adb(own_run(call.call)), FlowView::App(call))
            },
        },
        DeviceUse::Ui(command) => match device {
            None => fails(app, no_device()),
            Some(device) => TurnView::Do(
                ActionView::Adb(ui_first_run(device, app.auto_recover, command)),
                FlowView::Ui(ui_begin(device, app.auto_recover, command)),
            ),
        },
    }
}

/// How a command begins that wants a device: the one that the call names, else the sessions are
/// read for one.
pub open spec fn wants_device(app: App, wanted: DeviceUse) -> TurnView {
    match app.cli_device {
        Some(device) => uses_device(app, wanted, Some(device@)),
        None => TurnView::Do(ActionView::ReadStore, FlowView::Choosing(wanted)),
    }
}

/// How a command begins.
pub open spec fn flow_begin(app: App, command: Commands) -> TurnView {
    match command {
        Commands::Plain { command } => {
            let call = adb_command(None, plain_args(command), false);
            TurnView::Do(ActionView::Adb(own_run(call)), FlowView::Plain(command, call))
        },
        Commands::Connect { target, select } => {
            let call = adb_command(None, seq!["connect"@, target@], false);
            TurnView::Do(
                ActionView::Adb(own_run(call)),
                FlowView::Connecting(target@, select, call),
            )
        },
        Commands::Recover { force, wait_ms } => wants_device(
            app,
            DeviceUse::Recover { force, wait_ms },
        ),
        Commands::Session { command } => if command is Path {
            session_turn(
                app,
                session_step(path_view(app.session_path), command, Err(Seq::empty()), 0),
            )
        } else {
            TurnView::Do(ActionView::ReadStore, FlowView::SessionReads(command))
        },
        Commands::Device { command } => wants_device(app, DeviceUse::Device(command)),
        Commands::Screenshot { options } => wants_device(app, DeviceUse::Shot(options)),
        Commands::App { command } => wants_device(app, DeviceUse::App(command)),
        Commands::Ui { command } => wants_device(app, DeviceUse::Ui(command)),
        Commands::Raw { no_device, args } => if no_device {
            uses_device(app, DeviceUse::Raw(args), None)
        } else {
            wants_device(app, DeviceUse::Raw(args))
        },
    }
}

/// The answer to `connect`.
pub open spec fn connect_answer(target: Seq<char>, select: bool, output: OutputView) -> ResponseView {
    answer_from(
        "connect"@,
        None,
        output,
        seq![("target"@, DatumView::Text(target)), ("selected"@, DatumView::Flag(select))],
    )
}

/// The answer to a screenshot: where it is, and how its points map to those of the device.
pub open spec fn shot_answer(device: Seq<char>, shot: ShotView) -> ResponseView {
    good_answer(
        "screenshot"@,
        Some(device),
        "saved "@ + shot.path + "\n"@,
        seq![
            ("screenshot"@, DatumView::Shot(shot)),
            (
                "coordinate_mapping"@,
                DatumView::Mapping(
                    "round(preview_x * scale_x)"@,
                    "round(preview_y * scale_y)"@,
                ),
            ),
        ],
    )
}

/// How a command on the sessions goes on.
pub open spec fn session_turn(app: App, step: SessionStepView) -> TurnView {
    match step {
        SessionStepView::Answer(response) => TurnView::Done(response),
        SessionStepView::Save(store, response) => TurnView::Do(
            ActionView::WriteStore(store),
            FlowView::SessionSaves(response),
        ),
        SessionStepView::Fail(error) => fails(app, error),
    }
}

/// How a command goes on after an action.
pub open spec fn flow_next(app: App, flow: FlowView, event: Event) -> TurnView {
    match (flow, event) {
        (FlowView::Plain(command, call), Event::Ran(run)) => match adb_next(
            app.adb@,
            call,
            run_view(run),
        ) {
            ProgressView::Run(request, call) => TurnView::Do(
                ActionView::Adb(request),
                FlowView::Plain(command, call),
            ),
            ProgressView::Fail(error) => fails(app, error),
            ProgressView::Done(output) => TurnView::Done(
                answer_from(plain_action(command), None, output, plain_data(command, output)),
            ),
        },
        (FlowView::Connecting(target, select, call), Event::Ran(run)) => match adb_next(
            app.adb@,
            call,
            run_view(run),
        ) {
            ProgressView::Run(request, call) => TurnView::Do(
                ActionView::Adb(request),
                FlowView::Connecting(target, select, call),
            ),
            ProgressView::Fail(error) => fails(app, error),
            ProgressView::Done(output) => if select && succeeded(output) {
                TurnView::Do(ActionView::ReadStore, FlowView::ConnectReads(target, output))
            } else {
                TurnView::Done(connect_answer(target, select, output))
            },
        },
        (FlowView::ConnectReads(target, output), Event::Store(read)) => TurnView::Do(
            ActionView::ReadClock,
            FlowView::ConnectClock(target, output, store_or_empty(read_view(read))),
        ),
        (FlowView::ConnectClock(target, output, store), Event::Clock(now)) => TurnView::Do(
            ActionView::WriteStore(store_with(store, "default"@, target, now, true)),
            FlowView::ConnectSaves(target, output),
        ),
        (FlowView::ConnectSaves(target, output), Event::Wrote(outcome)) => match write_error(
            app.session_path,
            outcome,
        ) {
            Some(error) => fails(app, error),
            None => TurnView::Done(connect_answer(target, true, output)),
        },
        (FlowView::Choosing(wanted), Event::Store(read)) => uses_device(
            app,
            wanted,
            device_for(app, read_view(read)),
        ),
        (FlowView::Device(command, device, call), Event::Ran(run)) => match adb_next(
            app.adb@,
            call,
            run_view(run),
        ) {
            ProgressView::Run(request, call) => TurnView::Do(
                ActionView::Adb(request),
                FlowView::Device(command, device, call),
            ),
            ProgressView::Fail(error) => fails(app, error),
            ProgressView::Done(output) => TurnView::Done(
                answer_from(
                    device_action(command),
                    Some(device),
                    output,
                    device_data(command, output),
                ),
            ),
        },
        (FlowView::Shot(device, call), event) => match shot_next(app.adb@, call, event) {
            StepView::Do(action, call) => TurnView::Do(action, FlowView::Shot(device, call)),
            StepView::Fail(error) => fails(app, error),
            StepView::Done(shot) => TurnView::Done(shot_answer(device, shot)),
        },
        (FlowView::App(call), Event::Ran(run)) => match app_next(app.adb@, call, run_view(run)) {
            ProgressView::Run(request, call) => TurnView::Do(
                ActionView::Adb(request),
                FlowView::App(call),
            ),
            ProgressView::Fail(error) => fails(app, error),
            ProgressView::Done(response) => TurnView::Done(response),
        },
        (FlowView::Ui(call), event) => match ui_next(app.adb@, call, event) {
            StepView::Do(action, call) => TurnView::Do(action, FlowView::Ui(call)),
            StepView::Fail(error) => fails(app, error),
            StepView::Done(response) => TurnView::Done(response),
        },
        (FlowView::Raw(device, call), Event::Ran(run)) => match adb_next(
            app.adb@,
            call,
            run_view(run),
        ) {
            ProgressView::Run(request, call) => TurnView::Do(
                ActionView::Adb(request),
                FlowView::Raw(device, call),
            ),
            ProgressView::Fail(error) => fails(app, error),
            ProgressView::Done(output) => TurnView::Done(
                answer_from("raw"@, device, output, Seq::empty()),
            ),
        },
        (FlowView::Recover(call), Event::Ran(run)) => match recovery_next(
            app.adb@,
            call,
            run_view(run),
        ) {
            ProgressView::Run(request, call) => TurnView::Do(
                ActionView::Adb(request),
                FlowView::Recover(call),
            ),
            ProgressView::Fail(error) => fails(app, error),
            ProgressView::Done(report) => TurnView::Done(recover_answer(report)),
        },
        (FlowView::SessionReads(command), Event::Store(read)) => if command is Use {
            TurnView::Do(ActionView::ReadClock, FlowView::SessionClock(command, read_view(read)))
        } else {
            session_turn(
                app,
                session_step(path_view(app.session_path), command, read_view(read), 0),
            )
        },
        (FlowView::SessionClock(command, read), Event::Clock(now)) => session_turn(
            app,
            session_step(path_view(app.session_path), command, read, now),
        ),
        (FlowView::SessionSaves(response), Event::Wrote(outcome)) => match write_error(
            app.session_path,
            outcome,
        ) {
            Some(error) => fails(app, error),
            None => TurnView::Done(response),
        },
        (FlowView::Failing(error), Event::Store(read)) => TurnView::Done(
            error_answer(device_in_session(app, read_view(read)), error),
        ),
        (FlowView::Failing(error), _) => TurnView::Done(error_answer(None, error)),
        _ => fails(app, stray_event()),
    }
}

/// Ends a command that cannot be carried out.
fn fail(app: &App, error: String) -> (turn: Turn)
    ensures
        turn@ == fails(*app, error@),
{
    match &app.cli_device {
        Some(device) => Turn::Done(error_response(Some(device.clone()), error)),
        None => Turn::Do(Action::ReadStore, Flow::Failing(error)),
    }
}

/// Says that there is no device.
fn without_device(app: &App) -> (turn: Turn)
    ensures
        turn@ == fails(*app, no_device()),
{
    fail(
        app,
        "no device selected; pass --device <serial>, --session <name>, or run `adb-agent session use <serial> --name <name>`".to_string(),
    )
}

/// Goes on with a command once it is known whether there is a device.
fn use_device(app: &App, wanted: DeviceUse, device: Option<String>) -> (turn: Turn)
    ensures
        turn@ == uses_device(*app, wanted, opt_string(device)),
{
    match wanted {
        DeviceUse::Raw(args) => {
            match app.adb(device.is_some(), copy_optional(&device), args) {
                Ok((request, call)) => Turn::Do(Action::Adb(request), Flow::Raw(device, call)),
                Err(error) => fail(app, error),
            }
        },
        DeviceUse::Recover { force, wait_ms } => {
            let (request, call) = recover_adb_server(device, force, wait_ms);
            Turn::Do(Action::Adb(request), Flow::Recover(call))
        },
        DeviceUse::Device(command) => match device {
            None => without_device(app),
            Some(device) => {
                match app.adb(true, Some(device.clone()), command.args()) {
                    Ok((request, call)) => Turn::Do(
                        Action::Adb(request),
                        Flow::Device(command, device, call),
                    ),
                    Err(error) => fail(app, error),
                }
            },
        },
        DeviceUse::Shot(options) => match device {
            None => without_device(app),
            Some(device) => {
                let (action, call) = screenshot(device.clone(), app.auto_recover, options);
                Turn::Do(action, Flow::Shot(device, call))
            },
        },
        DeviceUse::App(command) => match device {
            None => without_device(app),
            Some(device) => {
                let (request, call) = handle_app(device, app.auto_recover, command);
                Turn::Do(Action::Adb(request), Flow::App(call))
            },
        },
        DeviceUse::Ui(command) => match device {
            None => without_device(app),
            Some(device) => {
                let (request, call) = handle_ui(device, app.auto_recover, command);
                Turn::Do(Action::Adb(request), Flow::Ui(call))
            },
        },
    }
}

/// Begins a command that wants a device.
fn want_device(app: &App, wanted: DeviceUse) -> (turn: Turn)
    ensures
        turn@ == wants_device(*app, wanted),
{
    match &app.cli_device {
        Some(device) => use_device(app, wanted, Some(device.clone())),
        None => Turn::Do(Action::ReadStore, Flow::Choosing(wanted)),
    }
}

/// Begins a command.
pub fn dispatch(app: &App, command: Commands) -> (turn: Turn)
    ensures
        turn@ == flow_begin(*app, command),
{
    match command {
        Commands::Plain { command } => {
            match app.adb(false, None, command.args()) {
                Ok((request, call)) => Turn::Do(Action::Adb(request), Flow::Plain(command, call)),
                Err(error) => fail(app, error),
            }
        },
        Commands::Connect { target, select } => {
            let args = strings(&["connect", target.as_str()]);
            assert(texts(args@) =~= seq!["connect"@, target@]);
            match app.adb(false, None, args) {
                Ok((request, call)) => Turn::Do(
                    Action::Adb(request),
                    Flow::Connecting(target, select, call),
                ),
                Err(error) => fail(app, error),
            }
        },
        Commands::Recover { force, wait_ms } => want_device(
            app,
            DeviceUse::Recover { force, wait_ms },
        ),
        Commands::Session { command } => {
            if matches!(command, SessionCommand::Path) {
                let unread: Result<SessionStore, String> = Err(String::new());
                assert(read_view(unread) == Err::<StoreView, Seq<char>>(Seq::empty()));
                take_session_step(app, handle_session(&app.session_path, command, unread, 0))
            } else {
                Turn::Do(Action::ReadStore, Flow::SessionReads(command))
            }
        },
        Commands::Device { command } => want_device(app, DeviceUse::Device(command)),
        Commands::Screenshot { options } => want_device(app, DeviceUse::Shot(options)),
        Commands::App { command } => want_device(app, DeviceUse::App(command)),
        Commands::Ui { command } => want_device(app, DeviceUse::Ui(command)),
        Commands::Raw { no_device, args } => {
            if no_device {
                use_device(app, DeviceUse::Raw(args), None)
            } else {
                want_device(app, DeviceUse::Raw(args))
            }
        },
    }
}

/// Makes the answer to `connect`.
fn connected(target: &String, select: bool, output: AdbOutput) -> (response: Response)
    ensures
        response@ == connect_answer(target@, select, output@),
{
    let mut data: Vec<Field> = Vec::new();
    data.push(text_field("target", target));
    data.push(flag_field("selected", select));
    assert(field_views(data@) =~= seq![
        ("target"@, DatumView::Text(target@)),
        ("selected"@, DatumView::Flag(select)),
    ]);
    response_from_output("connect", None, output, data)
}

/// Makes the answer to a screenshot.
fn shot_response(device: String, shot: ScreenshotResult) -> (response: Response)
    ensures
        response@ == shot_answer(device@, shot@),
{
    let ghost answer = shot_answer(device@, shot@);
    let stdout = cat3("saved ", shot.path.as_str(), "\n");
    let mut data: Vec<Field> = Vec::new();
    data.push(Field { key: "screenshot", value: Datum::Shot(shot) });
    data.push(
        Field {
            key: "coordinate_mapping",
            value: Datum::Mapping(
                "round(preview_x * scale_x)".to_string(),
                "round(preview_y * scale_y)".to_string(),
            ),
        },
    );
    assert(field_views(data@) =~= answer.data);
    good_response("screenshot", Some(device), stdout, data)
}

/// Goes on with a command on the sessions.
fn take_session_step(app: &App, step: SessionStep) -> (turn: Turn)
    ensures
        turn@ == session_turn(*app, step@),
{
    match step {
        SessionStep::Answer(response) => Turn::Done(response),
        SessionStep::Save(store, response) => Turn::Do(
            Action::WriteStore(store),
            Flow::SessionSaves(response),
        ),
        SessionStep::Fail(error) => fail(app, error),
    }
}

/// The device that a command is for, if there is one.
fn chosen_device(app: &App, read: &Result<SessionStore, String>) -> (device: Option<String>)
    ensures
        opt_string(device) == device_for(*app, read_view(*read)),
{
    match app.device(read) {
        Ok(device) => Some(device),
        Err(_) => None,
    }
}

impl Flow {
    /// Goes on with a command after an action.
    pub fn resume(self, app: &App, event: Event) -> (turn: Turn)
        ensures
            turn@ == flow_next(*app, self@, event),
    {
        let adb = app.adb.as_str();
        match (self, event) {
            (Flow::Plain(command, call), Event::Ran(run)) => match call.resume(adb, run) {
                Progress::Run(request, call) => Turn::Do(
                    Action::Adb(request),
                    Flow::Plain(command, call),
                ),
                Progress::Fail(error) => fail(app, error),
                Progress::Done(output) => {
                    let data = command.data(&output);
                    Turn::Done(response_from_output(command.action(), None, output, data))
                },
            },
            (Flow::Connecting(target, select, call), Event::Ran(run)) => match call.resume(
                adb,
                run,
            ) {
                Progress::Run(request, call) => Turn::Do(
                    Action::Adb(request),
                    Flow::Connecting(target, select, call),
                ),
                Progress::Fail(error) => fail(app, error),
                Progress::Done(output) => {
                    if select && output.success() {
                        Turn::Do(Action::ReadStore, Flow::ConnectReads(target, output))
                    } else {
                        Turn::Done(connected(&target, select, output))
                    }
                },
            },
            (Flow::ConnectReads(target, output), Event::Store(read)) => {
                let store = read_or_empty(read);
                Turn::Do(Action::ReadClock, Flow::ConnectClock(target, output, store))
            },
            (Flow::ConnectClock(target, output, store), Event::Clock(now)) => {
                let mut store = store;
                store.put(&"default".to_string(), &target, now, true);
                Turn::Do(Action::WriteStore(store), Flow::ConnectSaves(target, output))
            },
            (Flow::ConnectSaves(target, output), Event::Wrote(outcome)) => {
                match write_session_store(&app.session_path, &outcome) {
                    Err(error) => fail(app, error),
                    Ok(_) => Turn::Done(connected(&target, true, output)),
                }
            },
            (Flow::Choosing(wanted), Event::Store(read)) => use_device(
                app,
                wanted,
                chosen_device(app, &read),
            ),
            (Flow::Device(command, device, call), Event::Ran(run)) => match call.resume(adb, run) {
                Progress::Run(request, call) => Turn::Do(
                    Action::Adb(request),
                    Flow::Device(command, device, call),
                ),
                Progress::Fail(error) => fail(app, error),
                Progress::Done(output) => {
                    let data = command.data(&output);
                    Turn::Done(response_from_output(command.action(), Some(device), output, data))
                },
            },
            (Flow::Shot(device, call), event) => match call.resume(adb, event) {
                Step::Do(action, call) => Turn::Do(action, Flow::Shot(device, call)),
                Step::Fail(error) => fail(app, error),
                Step::Done(shot) => Turn::Done(shot_response(device, shot)),
            },
            (Flow::App(call), Event::Ran(run)) => match call.resume(adb, run) {
                Progress::Run(request, call) => Turn::Do(Action::Adb(request), Flow::App(call)),
                Progress::Fail(error) => fail(app, error),
                Progress::Done(response) => Turn::Done(response),
            },
            (Flow::Ui(call), event) => match call.resume(adb, event) {
                Step::Do(action, call) => Turn::Do(action, Flow::Ui(call)),
                Step::Fail(error) => fail(app, error),
                Step::Done(response) => Turn::Done(response),
            },
            (Flow::Raw(device, call), Event::Ran(run)) => match call.resume(adb, run) {
                Progress::Run(request, call) => Turn::Do(
                    Action::Adb(request),
                    Flow::Raw(device, call),
                ),
                Progress::Fail(error) => fail(app, error),
                Progress::Done(output) => {
                    let data: Vec<Field> = Vec::new();
                    assert(field_views(data@) =~= Seq::empty());
                    Turn::Done(response_from_output("raw", device, output, data))
                },
            },
            (Flow::Recover(call), Event::Ran(run)) => match call.resume(adb, run) {
                Progress::Run(request, call) => Turn::Do(
                    Action::Adb(request),
                    Flow::Recover(call),
                ),
                Progress::Fail(error) => fail(app, error),
                Progress::Done(report) => Turn::Done(handle_recover(report)),
            },
            (Flow::SessionReads(command), Event::Store(read)) => {
                if matches!(command, SessionCommand::Use { .. }) {
                    Turn::Do(Action::ReadClock, Flow::SessionClock(command, read))
                } else {
                    take_session_step(app, handle_session(&app.session_path, command, read, 0))
                }
            },
            (Flow::SessionClock(command, read), Event::Clock(now)) => take_session_step(
                app,
                handle_session(&app.session_path, command, read, now),
            ),
            (Flow::SessionSaves(response), Event::Wrote(outcome)) => {
                match write_session_store(&app.session_path, &outcome) {
                    Err(error) => fail(app, error),
                    Ok(_) => Turn::Done(response),
                }
            },
            (Flow::Failing(error), Event::Store(read)) => {
                let device: Option<String> = match app.session_device(&read) {
                    Ok(device) => Some(device),
                    Err(_) => None,
                };
                Turn::Done(error_response(device, error))
            },
            (Flow::Failing(error), _) => Turn::Done(error_response(None, error)),
            _ => fail(app, stray()),
        }
    }
}

/// Whether the library carries out an action itself: it reads the clock and decodes screenshots.
pub open spec fn inside(action: ActionView) -> bool {
    action is ReadClock || action is Decode
}

/// Whether an event may come of an action that the library carries out itself.
pub open spec fn may_answer(action: ActionView, event: Event) -> bool {
    match action {
        ActionView::ReadClock => event is Clock,
        ActionView::Decode { file, max_width, max_height, full } => match event {
            Event::Previewed(made) => preview_outcome(file, made, max_width, max_height, full),
            _ => false,
        },
        _ => false,
    }
}

/// Carries out the action that is due, if it is one of the library's own, and goes on.
pub fn settle(app: &App, turn: Turn) -> (settled: Turn)
    ensures
        match turn@ {
            TurnView::Do(action, flow) => if inside(action) {
                exists|event: Event| #[trigger]
                    may_answer(action, event) && settled@ == flow_next(*app, flow, event)
            } else {
                settled@ == turn@
            },
            TurnView::Done(_) => settled@ == turn@,
        },
{
    match turn {
        Turn::Do(Action::ReadClock, flow) => {
            let event = Event::Clock(unix_now());
            assert(may_answer(ActionView::ReadClock, event));
            flow.resume(app, event)
        },
        Turn::Do(Action::Decode { file, max_width, max_height, full }, flow) => {
            let event = Event::Previewed(make_preview(&file, max_width, max_height, full));
            assert(may_answer(
                ActionView::Decode { file: file@, max_width, max_height, full },
                event,
            ));
            flow.resume(app, event)
        },
        turn => turn,
    }
}

} // verus!
