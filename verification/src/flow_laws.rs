//! What each command asks for and answers, from its call on.

use vstd::prelude::*;

use crate::adb::adb_next;
use crate::adb::over_tcp;
use crate::adb::own_run;
use crate::adb::recovery;
use crate::adb::recovery_next;
use crate::adb::run_view;
use crate::adb::AdbCallView;
use crate::adb::AdbStageView;
use crate::adb::ProgressView;
use crate::adb::RequestView;
use crate::app::device_in_session;
use crate::app::no_device;
use crate::app::App;
use crate::app_commands::app_stage;
use crate::app_commands::first_stage;
use crate::commands::device_action;
use crate::commands::device_args;
use crate::commands::device_data;
use crate::commands::plain_args;
use crate::commands::AppCommand;
use crate::commands::Commands;
use crate::commands::DeviceCommand;
use crate::commands::PlainCommand;
use crate::commands::SessionCommand;
use crate::commands::ShotOptions;
use crate::commands::UiCommand;
use crate::devices::listed_devices;
use crate::dispatch::flow_begin;
use crate::dispatch::flow_next;
use crate::dispatch::may_answer;
use crate::dispatch::shot_answer;
use crate::dispatch::FlowView;
use crate::dispatch::TurnView;
use crate::dump::DumpStageView;
use crate::imaging::content_size;
use crate::imaging::decodes_to;
use crate::imaging::law_previews_keep_to_the_box;
use crate::imaging::Preview;
use crate::response::recoverable;
use crate::response::AdbOutput;
use crate::response::DatumView;
use crate::response::OutputView;
use crate::response::ResponseView;
use crate::response::ShotView;
use crate::session::path_view;
use crate::session::read_view;
use crate::session::SessionStore;
use crate::session::StoreView;
use crate::session::WriteOutcome;
use crate::session_commands::session_step;
use crate::session_commands::SessionStepView;
use crate::shot::shot_begin;
use crate::steps::ActionView;
use crate::steps::Event;
use crate::steps::StepView;
use crate::text::lemma_holds_character;
use crate::text::opt_string;
use crate::ui_commands::ui_begin;
use crate::ui_commands::ui_first_run;
use crate::ui_commands::ui_next;
use crate::ui_commands::UiCallView;
use crate::ui_commands::UiStageView;

verus! {

/// Whether a run of adb is followed by a recovery rather than taken as it is.
pub open spec fn is_mended(allowed: bool, output: OutputView) -> bool {
    allowed && output.exit_code != Some(0i32) && recoverable(output)
}

/// A command on a named device is one run of adb on that device, with the arguments of the command;
/// what the run comes to is answered under the name of the command, for that device.
pub proof fn law_device_commands_run_on_their_device(
    app: App,
    device: String,
    command: DeviceCommand,
    output: AdbOutput,
)
    requires
        app.cli_device == Some(device),
    ensures
        ({
            let begun = flow_begin(app, Commands::Device { command });
            let end = flow_next(app, begun->Do_1, Event::Ran(Some(output)));
            let answer = end->Done_0;
            &&& begun is Do && begun->Do_0 == ActionView::Adb(
                RequestView { delay_ms: 0, device: Some(device@), args: device_args(command) },
            )
            &&& !is_mended(app.auto_recover, output@) ==> {
                &&& end is Done
                &&& answer.ok <==> output.exit_code == Some(0i32)
                &&& answer.ok <==> answer.error is None
                &&& answer.device == Some(device@)
                &&& answer.action == device_action(command)
                &&& answer.exit_code == output.exit_code
                &&& answer.stdout == output.stdout@ && answer.stderr == output.stderr@
                &&& answer.data == device_data(command, output@)
            }
        }),
{
}

/// A command without a device is one run of adb, on no device, whatever device is named, and is
/// never followed by a recovery.
pub proof fn law_plain_commands_run_on_no_device(app: App, command: PlainCommand, output: AdbOutput)
    ensures
        ({
            let begun = flow_begin(app, Commands::Plain { command });
            let end = flow_next(app, begun->Do_1, Event::Ran(Some(output)));
            let answer = end->Done_0;
            &&& begun is Do && begun->Do_0 == ActionView::Adb(
                RequestView { delay_ms: 0, device: None, args: plain_args(command) },
            )
            &&& end is Done
            &&& answer.ok <==> output.exit_code == Some(0i32)
            &&& answer.device is None
            &&& answer.exit_code == output.exit_code
            &&& answer.stdout == output.stdout@ && answer.stderr == output.stderr@
            &&& command is Devices ==> plain_args(command) == seq!["devices"@, "-l"@]
                && answer.action == "devices"@ && answer.data == seq![
                ("devices"@, DatumView::Devices(listed_devices(output.stdout@))),
            ]
            &&& command is StartServer ==> plain_args(command) == seq!["start-server"@]
                && answer.action == "start-server"@ && answer.data.len() == 0
            &&& command is KillServer ==> plain_args(command) == seq!["kill-server"@]
                && answer.action == "kill-server"@ && answer.data.len() == 0
            &&& command matches PlainCommand::Disconnect { target } ==> {
                &&& answer.action == "disconnect"@ && answer.data.len() == 0
                &&& target is None ==> plain_args(command) == seq!["disconnect"@]
                &&& target is Some ==> plain_args(command) == seq!["disconnect"@, target->0@]
            }
        }),
{
    if let PlainCommand::Disconnect { target } = command {
        if let Some(target) = target {
            assert(plain_args(command) =~= seq!["disconnect"@, target@]);
        } else {
            assert(plain_args(command) =~= seq!["disconnect"@]);
        }
    }
    assert(command is Devices ==> plain_args(command) =~= seq!["devices"@, "-l"@]);
}

/// A device that comes from a session is used as one that is named: once the sessions were read,
/// the command goes on as though the call had named the device of the session.
pub proof fn law_session_devices_are_used_like_named_ones(
    app: App,
    command: Commands,
    read: Result<SessionStore, String>,
    device: String,
)
    requires
        app.cli_device is None,
        device_in_session(app, read_view(read)) == Some(device@),
        !(command is Plain) && !(command is Connect) && !(command is Session),
        !(command matches Commands::Raw { no_device, .. } && no_device),
    ensures
        ({
            let begun = flow_begin(app, command);
            let named = App { cli_device: Some(device), ..app };
            &&& begun is Do && begun->Do_0 is ReadStore
            &&& flow_next(app, begun->Do_1, Event::Store(read)) == flow_begin(named, command)
        }),
{
}

/// Without a device a command fails and says so; only a recovery, and raw arguments for adb, go on
/// without one.
pub proof fn law_most_commands_need_a_device(
    app: App,
    command: Commands,
    read: Result<SessionStore, String>,
    again: Result<SessionStore, String>,
)
    requires
        app.cli_device is None,
        device_in_session(app, read_view(read)) is None,
        command is Device || command is Screenshot || command is App || command is Ui
            || command is Recover || command is Raw,
        !(command matches Commands::Raw { no_device, .. } && no_device),
    ensures
        ({
            let begun = flow_begin(app, command);
            let next = flow_next(app, begun->Do_1, Event::Store(read));
            let end = flow_next(app, next->Do_1, Event::Store(again));
            &&& begun is Do && begun->Do_0 is ReadStore
            &&& next is Do
            &&& command is Raw || command is Recover ==> next->Do_0 is Adb
                && next->Do_0->Adb_0.device is None
            &&& !(command is Raw) && !(command is Recover) ==> {
                &&& next->Do_0 is ReadStore
                &&& end is Done && !end->Done_0.ok && end->Done_0.action == "error"@
                &&& end->Done_0.error == Some(no_device())
            }
        }),
{
}

/// Raw arguments go to adb as they are, on the device if there is one and it is not declined, and
/// the answer names that device.
pub proof fn law_raw_arguments_go_unchanged(
    app: App,
    no_device: bool,
    args: Vec<String>,
    output: AdbOutput,
)
    requires
        app.cli_device is Some || no_device,
    ensures
        ({
            let begun = flow_begin(app, Commands::Raw { no_device, args });
            let end = flow_next(app, begun->Do_1, Event::Ran(Some(output)));
            let device = if no_device {
                None
            } else {
                opt_string(app.cli_device)
            };
            &&& begun is Do && begun->Do_0 is Adb
            &&& begun->Do_0->Adb_0.device == device && begun->Do_0->Adb_0.delay_ms == 0
            &&& begun->Do_0->Adb_0.args.len() == args@.len()
            &&& forall|i: int|
                0 <= i < args@.len() ==> #[trigger] begun->Do_0->Adb_0.args[i] == args@[i]@
            &&& !is_mended(app.auto_recover && device is Some, output@) ==> {
                &&& end is Done
                &&& end->Done_0.ok <==> output.exit_code == Some(0i32)
                &&& end->Done_0.action == "raw"@
                &&& end->Done_0.device == device
                &&& end->Done_0.stdout == output.stdout@ && end->Done_0.stderr == output.stderr@
                &&& end->Done_0.data.len() == 0
            }
        }),
{
}

/// A recovery is carried out as it is asked for: it lists the devices first; where it is forced it
/// then kills the server whatever is listed, and starts it after the wait that is asked for.
pub proof fn law_recoveries_are_carried_out_as_asked(
    app: App,
    device: String,
    wait_ms: u64,
    force: bool,
    listed: AdbOutput,
    killed: AdbOutput,
)
    requires
        app.cli_device == Some(device),
    ensures
        ({
            let begun = flow_begin(app, Commands::Recover { force, wait_ms });
            let kill = flow_next(app, begun->Do_1, Event::Ran(Some(listed)));
            let start = flow_next(app, kill->Do_1, Event::Ran(Some(killed)));
            &&& begun is Do && begun->Do_0 == ActionView::Adb(
                RequestView { delay_ms: 0, device: None, args: seq!["devices"@, "-l"@] },
            )
            &&& force ==> kill is Do
            &&& kill is Do ==> {
                &&& kill->Do_0 == ActionView::Adb(
                    RequestView { delay_ms: 0, device: None, args: seq!["kill-server"@] },
                )
                &&& start is Do && start->Do_0 == ActionView::Adb(
                    RequestView { delay_ms: wait_ms, device: None, args: seq!["start-server"@] },
                )
            }
            &&& kill is Done ==> kill->Done_0.device == Some(device@) && kill->Done_0.action
                == "recover"@
        }),
{
}

/// A serial looks like `host:port` just where there is a colon in it.
pub proof fn law_tcp_serials_have_a_colon(serial: Seq<char>)
    ensures
        over_tcp(serial) <==> serial.contains(':'),
{
    reveal_strlit(":");
    assert(":"@ =~= seq![':']);
    lemma_holds_character(serial, ':');
}

/// Connecting runs adb on the target, on no device. Only where that succeeded and selecting is
/// asked for are the sessions read, and written once the time is known: the answer comes when they
/// are, and is that of the run.
pub proof fn law_connect_is_carried_out_as_asked(
    app: App,
    target: String,
    select: bool,
    output: AdbOutput,
    read: Result<SessionStore, String>,
    now: u64,
)
    ensures
        ({
            let begun = flow_begin(app, Commands::Connect { target, select });
            let next = flow_next(app, begun->Do_1, Event::Ran(Some(output)));
            let reads = flow_next(app, next->Do_1, Event::Store(read));
            let writes = flow_next(app, reads->Do_1, Event::Clock(now));
            let end = flow_next(app, writes->Do_1, Event::Wrote(WriteOutcome::Written));
            let saves = select && output.exit_code == Some(0i32);
            let answer = if saves {
                end->Done_0
            } else {
                next->Done_0
            };
            &&& begun is Do && begun->Do_0 == ActionView::Adb(
                RequestView { delay_ms: 0, device: None, args: seq!["connect"@, target@] },
            )
            &&& !saves ==> next is Done
            &&& saves ==> {
                &&& next is Do && next->Do_0 is ReadStore
                &&& reads is Do && reads->Do_0 is ReadClock
                &&& writes is Do && writes->Do_0 is WriteStore
                &&& writes->Do_0->WriteStore_0.current == Some("default"@)
                &&& writes->Do_0->WriteStore_0.sessions.contains_key("default"@)
                &&& writes->Do_0->WriteStore_0.sessions["default"@].device == target@
                &&& writes->Do_0->WriteStore_0.sessions["default"@].updated_at_unix == now
                &&& forall|name: Seq<char>|
                    name != "default"@ ==> (read matches Ok(store) ==> (
                    #[trigger] writes->Do_0->WriteStore_0.sessions.contains_key(name)
                        <==> store@.sessions.contains_key(name)))
                &&& app.session_path is Ok ==> end is Done
            }
            &&& (!saves || app.session_path is Ok) ==> {
                &&& answer.ok <==> output.exit_code == Some(0i32)
                &&& answer.action == "connect"@ && answer.device is None
                &&& answer.stdout == output.stdout@ && answer.stderr == output.stderr@
                &&& answer.data == seq![
                    ("target"@, DatumView::Text(target@)),
                    ("selected"@, DatumView::Flag(select)),
                ]
            }
        }),
{
}

/// A command on the sessions that changes them is answered once they are written: the store that it
/// comes to is handed out to be written, and the answer follows; where it could not be written the
/// command fails. `use` puts the time that the clock tells.
pub proof fn law_changed_sessions_are_written(
    app: App,
    command: SessionCommand,
    read: Result<SessionStore, String>,
    now: u64,
    store: StoreView,
    response: ResponseView,
)
    requires
        !(command is Path),
        app.session_path is Ok,
        session_step(path_view(app.session_path), command, read_view(read), if command is Use {
            now
        } else {
            0u64
        }) == SessionStepView::Save(store, response),
    ensures
        ({
            let begun = flow_begin(app, Commands::Session { command });
            let next = flow_next(app, begun->Do_1, Event::Store(read));
            let writes = if command is Use {
                flow_next(app, next->Do_1, Event::Clock(now))
            } else {
                next
            };
            &&& begun is Do && begun->Do_0 is ReadStore
            &&& command is Use ==> next is Do && next->Do_0 is ReadClock
            &&& writes is Do && writes->Do_0 == ActionView::WriteStore(store)
            &&& flow_next(app, writes->Do_1, Event::Wrote(WriteOutcome::Written)) == TurnView::Done(
                response,
            )
            &&& flow_next(app, writes->Do_1, Event::Wrote(WriteOutcome::NotWritten)) matches
                TurnView::Done(failed) ==> !failed.ok && failed.error == Some(
                "failed to write "@ + app.session_path->Ok_0@,
            )
        }),
{
}

/// A screenshot of a named device begins on that device, with what was asked for and with a retry
/// where that is allowed; its answer is for the device, names the file and tells what came of it.
pub proof fn law_screenshots_are_for_their_device(
    app: App,
    device: String,
    options: ShotOptions,
    shot: ShotView,
)
    requires
        app.cli_device == Some(device),
    ensures
        ({
            let begun = flow_begin(app, Commands::Screenshot { options });
            let answer = shot_answer(device@, shot);
            &&& begun is Do && begun->Do_0 == ActionView::MakeDir(options.path@)
            &&& begun->Do_1 == FlowView::Shot(
                device@,
                shot_begin(device@, app.auto_recover, options),
            )
            &&& answer.ok && answer.device == Some(device@)
            &&& answer.stdout == "saved "@ + shot.path + "\n"@
            &&& answer.data.contains(("screenshot"@, DatumView::Shot(shot)))
            &&& answer.data.contains(
                (
                    "coordinate_mapping"@,
                    DatumView::Mapping(
                        "round(preview_x * scale_x)"@,
                        "round(preview_y * scale_y)"@,
                    ),
                ),
            )
        }),
{
    let data = shot_answer(device@, shot).data;
    assert(data.contains(data[0]));
    assert(data.contains(data[1]));
}

/// What the library makes of a captured screen keeps to the box that was asked for, and to the
/// screen: its sides are those of the box at most, across and down, unless it is wanted in full.
pub proof fn law_decoded_screens_keep_to_the_box(
    file: Seq<u8>,
    max_width: u32,
    max_height: u32,
    full: bool,
    preview: Preview,
)
    requires
        1 <= max_width,
        1 <= max_height,
        may_answer(
            ActionView::Decode { file, max_width, max_height, full },
            Event::Previewed(Some(preview)),
        ),
    ensures
        !full ==> preview.output_width <= max_width && preview.output_height <= max_height,
        full ==> preview.output_width == preview.original_width && preview.output_height
            == preview.original_height,
        exists|content: Seq<u8>| #[trigger]
            decodes_to(file, Some(content)) && content_size(content) == (
                preview.original_width,
                preview.original_height,
            ),
{
    law_previews_keep_to_the_box(file, preview, max_width, max_height, full);
}

/// The adb command that is under way in a command, if there is one.
pub open spec fn active_call(flow: FlowView) -> Option<AdbCallView> {
    match flow {
        FlowView::Plain(_, call) => Some(call),
        FlowView::Connecting(_, _, call) => Some(call),
        FlowView::Device(_, _, call) => Some(call),
        FlowView::Raw(_, call) => Some(call),
        FlowView::App(call) => Some(call.call),
        FlowView::Ui(call) => match call.stage {
            UiStageView::Dumping(dump) => match dump.stage {
                DumpStageView::Dumping(inner) => Some(inner),
                DumpStageView::Reading(inner) => Some(inner),
                DumpStageView::Removing(inner, _) => Some(inner),
            },
            _ => None,
        },
        _ => None,
    }
}

/// Whether a command recovers just where the call allows it and there is a device.
pub open spec fn recovers_as_asked(app: App, flow: FlowView) -> bool {
    &&& active_call(flow) matches Some(call) ==> call.recovers == (app.auto_recover
        && call.device is Some)
    &&& flow matches FlowView::App(call) ==> call.recovers == app.auto_recover && call.call.device
        is Some
    &&& flow matches FlowView::Ui(call) ==> (call.stage matches UiStageView::Dumping(dump)
        ==> dump.recovers == app.auto_recover)
    &&& flow matches FlowView::Shot(_, call) ==> call.recovers == app.auto_recover
}

proof fn lemma_calls_keep_their_retry(adb: Seq<char>, call: AdbCallView, run: Option<OutputView>)
    ensures
        adb_next(adb, call, run) matches ProgressView::Run(request, next) ==> {
            &&& next.recovers == call.recovers && next.device == call.device
            &&& next.args == call.args
            &&& !(next.stage is First)
            &&& next.stage is Retry ==> call.stage is Recovering
            &&& request.device is Some ==> next.stage is Retry && request == own_run(next)
        },
{
}

proof fn lemma_dumps_keep_their_retry(app: App, call: UiCallView, event: Event)
    requires
        recovers_as_asked(app, FlowView::Ui(call)),
    ensures
        ui_next(app.adb@, call, event) matches StepView::Do(action, next) ==> {
            &&& recovers_as_asked(app, FlowView::Ui(next))
            &&& runs_its_call(FlowView::Ui(call), action, FlowView::Ui(next))
        },
{
    if let (UiStageView::Dumping(dump), Event::Ran(run)) = (call.stage, event) {
        match dump.stage {
            DumpStageView::Dumping(inner) => {
                lemma_calls_keep_their_retry(app.adb@, inner, run_view(run));
            },
            DumpStageView::Reading(inner) => {
                lemma_calls_keep_their_retry(app.adb@, inner, run_view(run));
            },
            DumpStageView::Removing(inner, _) => {
                lemma_calls_keep_their_retry(app.adb@, inner, run_view(run));
            },
        }
    }
}

/// Whether an action that is a run of adb on a device is the run of the adb command that is then
/// under way, at its first run, or at its second where it was recovering before.
pub open spec fn runs_its_call(flow: FlowView, action: ActionView, next: FlowView) -> bool {
    action matches ActionView::Adb(request) ==> (request.device is Some ==> {
        &&& active_call(next) matches Some(call) && {
            &&& request == (RequestView { delay_ms: 0, device: call.device, args: call.args })
            &&& call.stage is First || call.stage is Retry
            &&& call.stage is Retry ==> (active_call(flow) matches Some(before)
                && before.stage is Recovering)
        }
    })
}

/// Every run of adb on a device that a command begins may recover where the call has that asked
/// for, and none does else: so it is from the first turn of a command, and so it stays.
pub proof fn law_every_device_run_recovers_as_asked(app: App, command: Commands)
    ensures
        flow_begin(app, command) matches TurnView::Do(action, begun) ==> {
            &&& recovers_as_asked(app, begun)
            &&& action matches ActionView::Adb(request) ==> (request.device is Some ==> (
            active_call(begun) matches Some(call) && {
                &&& call.stage is First && call.recovers == app.auto_recover
                &&& request == (RequestView { delay_ms: 0, device: call.device, args: call.args })
            }))
        },
{
}

/// What `law_every_device_run_recovers_as_asked` says of the first turn of a command stays so: each
/// further run of adb on a device is one that may recover where that is asked for, or the second
/// run of one that did.
pub proof fn law_every_further_run_recovers_as_asked(app: App, flow: FlowView, event: Event)
    requires
        recovers_as_asked(app, flow),
    ensures
        flow_next(app, flow, event) matches TurnView::Do(action, next) ==> {
            &&& recovers_as_asked(app, next)
            &&& runs_its_call(flow, action, next)
        },
{
    if let Event::Ran(run) = event {
        if let Some(call) = active_call(flow) {
            lemma_calls_keep_their_retry(app.adb@, call, run_view(run));
        }
    }
    if let FlowView::Ui(call) = flow {
        lemma_dumps_keep_their_retry(app, call, event);
    }
}

/// Where a first run of adb that may recover failed with a complaint of a missing or offline
/// device, the devices are listed next, for a recovery that is forced and waits 700 milliseconds
/// before it starts the server. The recovery goes on by itself, and once it is over the same run
/// follows.
pub proof fn law_lost_devices_are_recovered_in_every_command(
    app: App,
    flow: FlowView,
    call: AdbCallView,
    output: AdbOutput,
    run: Option<AdbOutput>,
)
    requires
        active_call(flow) == Some(call),
        call.recovers,
        call.device is Some,
    ensures
        call.stage is First && output.exit_code != Some(0i32) && recoverable(output@) ==> {
            let next = flow_next(app, flow, Event::Ran(Some(output)));
            &&& next is Do && next->Do_0 == ActionView::Adb(
                RequestView { delay_ms: 0, device: None, args: seq!["devices"@, "-l"@] },
            )
            &&& active_call(next->Do_1) == Some(
                AdbCallView {
                    stage: AdbStageView::Recovering(recovery(call.device, true, 700)),
                    ..call
                },
            )
        },
        call.stage matches AdbStageView::Recovering(inner) ==> {
            let next = flow_next(app, flow, Event::Ran(run));
            match recovery_next(app.adb@, inner, run_view(run)) {
                ProgressView::Done(_) => {
                    &&& next is Do && next->Do_0 == ActionView::Adb(
                        RequestView { delay_ms: 0, device: call.device, args: call.args },
                    )
                    &&& active_call(next->Do_1) == Some(
                        AdbCallView { stage: AdbStageView::Retry, ..call },
                    )
                },
                ProgressView::Run(request, further) => {
                    &&& next is Do && next->Do_0 == ActionView::Adb(request)
                    &&& active_call(next->Do_1) == Some(
                        AdbCallView { stage: AdbStageView::Recovering(further), ..call },
                    )
                },
                ProgressView::Fail(_) => true,
            }
        },
{
}

/// Where the call asks for it, every command that begins with a run of adb on a device, one on an
/// app too, is recovered: if that run fails with a complaint of a missing or offline device, the
/// devices are listed for a forced recovery, and once that is over the same run follows.
pub proof fn law_auto_recover_is_for_every_command(
    app: App,
    command: Commands,
    request: RequestView,
    output: AdbOutput,
    flow: FlowView,
    run: Option<AdbOutput>,
)
    requires
        app.auto_recover,
        flow_begin(app, command) matches TurnView::Do(ActionView::Adb(first), _) && first
            == request,
        request.device is Some,
        output.exit_code != Some(0i32),
        recoverable(output@),
        active_call(flow) matches Some(call) && call.recovers && call.device == request.device
            && call.args == request.args && (call.stage matches AdbStageView::Recovering(inner)
            && recovery_next(app.adb@, inner, run_view(run)) is Done),
    ensures
        ({
            let begun = flow_begin(app, command)->Do_1;
            let next = flow_next(app, begun, Event::Ran(Some(output)));
            let again = flow_next(app, flow, Event::Ran(run));
            &&& next is Do && next->Do_0 == ActionView::Adb(
                RequestView { delay_ms: 0, device: None, args: seq!["devices"@, "-l"@] },
            )
            &&& active_call(next->Do_1) matches Some(call) && {
                &&& call.device == request.device && call.args == request.args
                &&& call.stage == AdbStageView::Recovering(recovery(request.device, true, 700))
            }
            &&& again is Do && again->Do_0 == ActionView::Adb(
                RequestView { delay_ms: 0, device: request.device, args: request.args },
            )
        }),
{
    law_every_device_run_recovers_as_asked(app, command);
    let begun = flow_begin(app, command)->Do_1;
    law_lost_devices_are_recovered_in_every_command(
        app,
        begun,
        active_call(begun)->0,
        output,
        run,
    );
    law_lost_devices_are_recovered_in_every_command(
        app,
        flow,
        active_call(flow)->0,
        output,
        run,
    );
}

/// A command on an app, and one on the user interface, begin on the device that is named, with what
/// was asked for.
pub proof fn law_app_and_ui_commands_run_on_their_device(
    app: App,
    device: String,
    on_app: AppCommand,
    on_ui: UiCommand,
)
    requires
        app.cli_device == Some(device),
    ensures
        ({
            let begun = flow_begin(app, Commands::App { command: on_app });
            let call = app_stage(device@, app.auto_recover, first_stage(on_app));
            &&& begun is Do && begun->Do_0 == ActionView::Adb(
                RequestView { delay_ms: 0, device: Some(device@), args: call.call.args },
            )
            &&& begun->Do_1 == FlowView::App(call)
        }),
        ({
            let begun = flow_begin(app, Commands::Ui { command: on_ui });
            &&& begun is Do && begun->Do_0 == ActionView::Adb(
                ui_first_run(device@, app.auto_recover, on_ui),
            )
            &&& begun->Do_1 == FlowView::Ui(ui_begin(device@, app.auto_recover, on_ui))
        }),
{
}

/// A command that fails is answered with its error, for the device that the call names, else for
/// that of the session that it is for. Here the failure is that adb could not be started.
pub proof fn law_failures_name_the_device(
    app: App,
    flow: FlowView,
    read: Result<SessionStore, String>,
)
    requires
        active_call(flow) matches Some(call) && (call.stage is First || call.stage is Retry),
        flow matches FlowView::Ui(call) ==> !(call.stage matches UiStageView::Dumping(dump)
            && dump.stage is Removing),
    ensures
        ({
            let next = flow_next(app, flow, Event::Ran(None));
            let end = if app.cli_device is Some {
                next
            } else {
                flow_next(app, next->Do_1, Event::Store(read))
            };
            let answer = end->Done_0;
            &&& app.cli_device is None ==> next is Do && next->Do_0 is ReadStore
            &&& end is Done
            &&& !answer.ok && answer.action == "error"@ && answer.exit_code is None
            &&& answer.error == Some("failed to execute `"@ + app.adb@ + "`"@)
            &&& answer.device == match app.cli_device {
                Some(device) => Some(device@),
                None => device_in_session(app, read_view(read)),
            }
        }),
{
}

} // verus!
