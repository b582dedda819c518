//! What holds of every command from its call to its answer.

use vstd::prelude::*;

use crate::adb::adb_next;
use crate::adb::recovery_next;
use crate::adb::run_view;
use crate::adb::AdbCallView;
use crate::adb::AdbStageView;
use crate::adb::ProgressView;
use crate::adb::RecoverView;
use crate::adb::StageView;
use crate::app::device_for;
use crate::app::App;
use crate::app_commands::app_next;
use crate::app_commands::AppCallView;
use crate::app_commands::AppStageView;
use crate::commands::Commands;
use crate::commands::SessionCommand;
use crate::dispatch::fails;
use crate::dispatch::flow_begin;
use crate::dispatch::flow_next;
use crate::dispatch::inside;
use crate::dispatch::may_answer;
use crate::dispatch::session_turn;
use crate::dispatch::shot_answer;
use crate::dispatch::uses_device;
use crate::dispatch::DeviceUse;
use crate::dispatch::FlowView;
use crate::dispatch::TurnView;
use crate::dump::dump_next;
use crate::dump::DumpStageView;
use crate::dump::DumpView;
use crate::recover::recover_answer;
use crate::response::OutputView;
use crate::response::ResponseView;
use crate::response::ShotView;
use crate::session::path_view;
use crate::session::read_view;
use crate::session::session_device;
use crate::session::StoreView;
use crate::session_commands::session_step;
use crate::shot::shot_next;
use crate::shot::ShotCallView;
use crate::shot::ShotStageView;
use crate::steps::stray_event;
use crate::steps::ActionView;
use crate::steps::Event;
use crate::steps::StepView;
use crate::ui_commands::ui_next;
use crate::ui_commands::UiCallView;
use crate::ui_commands::UiStageView;

verus! {

/// Whether an answer agrees with itself: all is well just where there is no error, and just where
/// the exit code is zero.
pub open spec fn sound(response: ResponseView) -> bool {
    &&& response.ok <==> response.error is None
    &&& response.ok <==> response.exit_code == Some(0i32)
}

/// Whether the answer that a command holds ready, if it does, agrees with itself.
pub open spec fn flow_sound(flow: FlowView) -> bool {
    flow matches FlowView::SessionSaves(response) ==> sound(response)
}

/// Whether the answer of a turn, or the one that is held ready in it, agrees with itself.
pub open spec fn turn_sound(turn: TurnView) -> bool {
    match turn {
        TurnView::Do(_, flow) => flow_sound(flow),
        TurnView::Done(response) => sound(response),
    }
}

/// How many runs of adb a recovery has before it at most.
pub open spec fn recover_rank(call: RecoverView) -> nat {
    match call.stage {
        StageView::ListingBefore => 5,
        StageView::Killing(_) => 4,
        StageView::Starting(_) => 3,
        StageView::Connecting(_) => 2,
        StageView::ListingAfter(_, _) => 1,
    }
}

/// How many runs of adb an adb command has before it at most.
pub open spec fn adb_rank(call: AdbCallView) -> nat {
    match call.stage {
        AdbStageView::First => 7,
        AdbStageView::Recovering(inner) => 1 + recover_rank(inner),
        AdbStageView::Retry => 1,
    }
}

/// How many runs of adb a dump has before it at most.
pub open spec fn dump_rank(call: DumpView) -> nat {
    match call.stage {
        DumpStageView::Dumping(inner) => 14 + adb_rank(inner),
        DumpStageView::Reading(inner) => 7 + adb_rank(inner),
        DumpStageView::Removing(inner, _) => adb_rank(inner),
    }
}

/// How many runs of adb a command on an app has before it at most.
pub open spec fn app_rank(call: AppCallView) -> nat {
    match call.stage {
        AppStageView::StoppingFirst(_) => 7 + adb_rank(call.call),
        _ => adb_rank(call.call),
    }
}

/// How many actions a command on the user interface has before it at most.
pub open spec fn ui_rank(call: UiCallView) -> nat {
    match call.stage {
        UiStageView::Dumping(inner) => 2 + dump_rank(inner),
        UiStageView::MakingDir(_) => 2,
        UiStageView::Saving(_) => 1,
    }
}

/// How many actions a screenshot has before it at most.
pub open spec fn shot_rank(call: ShotCallView) -> nat {
    match call.stage {
        ShotStageView::MakingDir => 12,
        ShotStageView::Capturing => 11,
        ShotStageView::Recovering(inner) => 5 + recover_rank(inner),
        ShotStageView::Recapturing => 5,
        ShotStageView::Decoding => 4,
        ShotStageView::Creating(_) => 3,
        ShotStageView::Writing(_) => 2,
        ShotStageView::Measuring(_) => 1,
    }
}

/// How many actions a command has before it at most, the one that is due among them.
pub open spec fn flow_rank(flow: FlowView) -> nat {
    match flow {
        FlowView::Plain(_, call) => 1 + adb_rank(call),
        FlowView::Connecting(_, _, call) => 4 + adb_rank(call),
        FlowView::ConnectReads(_, _) => 4,
        FlowView::ConnectClock(_, _, _) => 3,
        FlowView::ConnectSaves(_, _) => 2,
        FlowView::Choosing(_) => 25,
        FlowView::Device(_, _, call) => 1 + adb_rank(call),
        FlowView::Shot(_, call) => 1 + shot_rank(call),
        FlowView::App(call) => 1 + app_rank(call),
        FlowView::Ui(call) => 1 + ui_rank(call),
        FlowView::Raw(_, call) => 1 + adb_rank(call),
        FlowView::Recover(call) => 1 + recover_rank(call),
        FlowView::SessionReads(_) => 4,
        FlowView::SessionClock(_, _) => 3,
        FlowView::SessionSaves(_) => 2,
        FlowView::Failing(_) => 1,
    }
}

/// Whether an event is of the kind that comes of an action.
pub open spec fn of_kind(action: ActionView, event: Event) -> bool {
    match action {
        ActionView::Adb(_) => event is Ran,
        ActionView::ReadStore => event is Store,
        ActionView::WriteStore(_) => event is Wrote,
        ActionView::ReadClock => event is Clock,
        ActionView::MakeDir(_) => event is Dir,
        ActionView::Capture(_) => event is Captured,
        ActionView::Decode { .. } => event is Previewed,
        ActionView::CreateFile(_) => event is Stored,
        ActionView::WriteFile(_, _) => event is Stored,
        ActionView::WriteText(_, _) => event is Stored,
        ActionView::Measure(_) => event is Measured,
    }
}

/// Whether a command can make use of an event as it stands.
pub open spec fn expects(flow: FlowView, event: Event) -> bool {
    match flow {
        FlowView::Plain(_, _) => event is Ran,
        FlowView::Connecting(_, _, _) => event is Ran,
        FlowView::ConnectReads(_, _) => event is Store,
        FlowView::ConnectClock(_, _, _) => event is Clock,
        FlowView::ConnectSaves(_, _) => event is Wrote,
        FlowView::Choosing(_) => event is Store,
        FlowView::Device(_, _, _) => event is Ran,
        FlowView::Shot(_, call) => match call.stage {
            ShotStageView::MakingDir => event is Dir,
            ShotStageView::Capturing => event is Captured,
            ShotStageView::Recovering(_) => event is Ran,
            ShotStageView::Recapturing => event is Captured,
            ShotStageView::Decoding => event is Previewed,
            ShotStageView::Creating(_) => event is Stored,
            ShotStageView::Writing(_) => event is Stored,
            ShotStageView::Measuring(_) => event is Measured,
        },
        FlowView::App(_) => event is Ran,
        FlowView::Ui(call) => match call.stage {
            UiStageView::Dumping(_) => event is Ran,
            UiStageView::MakingDir(_) => event is Dir,
            UiStageView::Saving(_) => event is Stored,
        },
        FlowView::Raw(_, _) => event is Ran,
        FlowView::Recover(_) => event is Ran,
        FlowView::SessionReads(_) => event is Store,
        FlowView::SessionClock(_, _) => event is Clock,
        FlowView::SessionSaves(_) => event is Wrote,
        FlowView::Failing(_) => event is Store,
    }
}

/// Whether the action that is due in a turn is the one whose event the command expects.
pub open spec fn well_asked(turn: TurnView) -> bool {
    turn matches TurnView::Do(action, flow) ==> forall|event: Event| #[trigger]
        of_kind(action, event) <==> expects(flow, event)
}

/// What holds of a turn that follows on `flow`: it has less before it, it asks for what it expects,
/// and its answer agrees with itself if the one held ready does.
spec fn goes_on(flow: FlowView, turn: TurnView) -> bool {
    &&& flow_sound(flow) ==> turn_sound(turn)
    &&& well_asked(turn)
    &&& turn matches TurnView::Do(_, next) ==> flow_rank(next) < flow_rank(flow)
}

proof fn lemma_recovery_ends(adb: Seq<char>, call: RecoverView, run: Option<OutputView>)
    ensures
        recovery_next(adb, call, run) matches ProgressView::Run(_, next) ==> recover_rank(next)
            < recover_rank(call),
        recovery_next(adb, call, run) matches ProgressView::Done(report) ==> sound(
            recover_answer(report),
        ),
{
}

proof fn lemma_adb_ends(adb: Seq<char>, call: AdbCallView, run: Option<OutputView>)
    ensures
        adb_next(adb, call, run) matches ProgressView::Run(_, next) ==> adb_rank(next) < adb_rank(
            call,
        ),
        0 < adb_rank(call) <= 7,
{
    if let AdbStageView::Recovering(inner) = call.stage {
        lemma_recovery_ends(adb, inner, run);
    }
}

proof fn lemma_dump_ends(adb: Seq<char>, call: DumpView, run: Option<OutputView>)
    ensures
        dump_next(adb, call, run) matches ProgressView::Run(_, next) ==> dump_rank(next)
            < dump_rank(call),
        0 < dump_rank(call) <= 21,
{
    match call.stage {
        DumpStageView::Dumping(inner) => lemma_adb_ends(adb, inner, run),
        DumpStageView::Reading(inner) => lemma_adb_ends(adb, inner, run),
        DumpStageView::Removing(inner, _) => lemma_adb_ends(adb, inner, run),
    }
}

proof fn lemma_app_goes_on(adb: Seq<char>, call: AppCallView, run: Option<OutputView>)
    ensures
        app_next(adb, call, run) matches ProgressView::Run(_, next) ==> app_rank(next) < app_rank(
            call,
        ),
        app_next(adb, call, run) matches ProgressView::Done(response) ==> sound(response),
        0 < app_rank(call) <= 14,
{
    lemma_adb_ends(adb, call.call, run);
}

proof fn lemma_ui_goes_on(adb: Seq<char>, call: UiCallView, event: Event)
    ensures
        ui_next(adb, call, event) matches StepView::Do(action, next) ==> {
            &&& ui_rank(next) < ui_rank(call)
            &&& well_asked(TurnView::Do(action, FlowView::Ui(next)))
        },
        ui_next(adb, call, event) matches StepView::Done(response) ==> sound(response),
        !expects(FlowView::Ui(call), event) ==> ui_next(adb, call, event) == StepView::<
            UiCallView,
            ResponseView,
        >::Fail(stray_event()),
{
    if let (UiStageView::Dumping(inner), Event::Ran(run)) = (call.stage, event) {
        lemma_dump_ends(adb, inner, run_view(run));
    }
}

proof fn lemma_shot_goes_on(adb: Seq<char>, device: Seq<char>, call: ShotCallView, event: Event)
    ensures
        shot_next(adb, call, event) matches StepView::Do(action, next) ==> {
            &&& shot_rank(next) < shot_rank(call)
            &&& well_asked(TurnView::Do(action, FlowView::Shot(device, next)))
        },
        shot_next(adb, call, event) matches StepView::Done(shot) ==> sound(
            shot_answer(device, shot),
        ),
        !expects(FlowView::Shot(device, call), event) ==> shot_next(adb, call, event) == StepView::<
            ShotCallView,
            ShotView,
        >::Fail(stray_event()),
{
    if let (ShotStageView::Recovering(inner), Event::Ran(run)) = (call.stage, event) {
        lemma_recovery_ends(adb, inner, run_view(run));
    }
}

proof fn lemma_session_turn(
    app: App,
    command: SessionCommand,
    read: Result<StoreView, Seq<char>>,
    now: u64,
    flow: FlowView,
)
    requires
        flow_rank(flow) > 2,
    ensures
        goes_on(
            flow,
            session_turn(app, session_step(path_view(app.session_path), command, read, now)),
        ),
{
}

proof fn lemma_uses_device(app: App, wanted: DeviceUse, device: Option<Seq<char>>)
    ensures
        goes_on(FlowView::Choosing(wanted), uses_device(app, wanted, device)),
{
}

/// What holds of every turn of a command.
proof fn lemma_goes_on(app: App, flow: FlowView, event: Event)
    ensures
        goes_on(flow, flow_next(app, flow, event)),
        !expects(flow, event) && !(flow is Failing) ==> flow_next(app, flow, event) == fails(
            app,
            stray_event(),
        ),
{
    match flow {
        FlowView::Plain(_, call) => {
            if let Event::Ran(run) = event {
                lemma_adb_ends(app.adb@, call, run_view(run));
            }
        },
        FlowView::Connecting(_, _, call) => {
            if let Event::Ran(run) = event {
                lemma_adb_ends(app.adb@, call, run_view(run));
            }
        },
        FlowView::Device(_, _, call) => {
            if let Event::Ran(run) = event {
                lemma_adb_ends(app.adb@, call, run_view(run));
            }
        },
        FlowView::Raw(_, call) => {
            if let Event::Ran(run) = event {
                lemma_adb_ends(app.adb@, call, run_view(run));
            }
        },
        FlowView::Recover(call) => {
            if let Event::Ran(run) = event {
                lemma_recovery_ends(app.adb@, call, run_view(run));
            }
        },
        FlowView::App(call) => {
            if let Event::Ran(run) = event {
                lemma_app_goes_on(app.adb@, call, run_view(run));
            }
        },
        FlowView::Ui(call) => lemma_ui_goes_on(app.adb@, call, event),
        FlowView::Shot(device, call) => lemma_shot_goes_on(app.adb@, device, call, event),
        FlowView::Choosing(wanted) => {
            if let Event::Store(read) = event {
                lemma_uses_device(app, wanted, device_for(app, read_view(read)));
            }
        },
        FlowView::SessionReads(command) => {
            if let Event::Store(read) = event {
                lemma_session_turn(app, command, read_view(read), 0, flow);
            }
        },
        FlowView::SessionClock(command, read) => {
            if let Event::Clock(now) = event {
                lemma_session_turn(app, command, read, now, flow);
            }
        },
        _ => {},
    }
}

/// What holds of the first turn of a command.
proof fn lemma_begins(app: App, command: Commands)
    ensures
        turn_sound(flow_begin(app, command)),
        well_asked(flow_begin(app, command)),
        flow_begin(app, command) matches TurnView::Do(_, begun) ==> flow_rank(begun) <= 25,
{
    let device = match app.cli_device {
        Some(device) => Some(device@),
        None => None,
    };
    match command {
        Commands::Recover { force, wait_ms } => {
            lemma_uses_device(app, DeviceUse::Recover { force, wait_ms }, device);
        },
        Commands::Device { command } => {
            lemma_uses_device(app, DeviceUse::Device(command), device);
        },
        Commands::Screenshot { options } => {
            lemma_uses_device(app, DeviceUse::Shot(options), device);
        },
        Commands::App { command } => {
            lemma_uses_device(app, DeviceUse::App(command), device);
        },
        Commands::Ui { command } => {
            lemma_uses_device(app, DeviceUse::Ui(command), device);
        },
        Commands::Raw { no_device, args } => {
            lemma_uses_device(app, DeviceUse::Raw(args), device);
            lemma_uses_device(app, DeviceUse::Raw(args), None);
        },
        _ => {},
    }
}

/// Whatever the actions come to, an answer is `ok` just where it has no error, and just where its
/// exit code is zero: so it is from the first turn of a command, and so it stays.
pub proof fn law_answers_are_sound(app: App, command: Commands, flow: FlowView, event: Event)
    ensures
        turn_sound(flow_begin(app, command)),
        flow_sound(flow) ==> turn_sound(flow_next(app, flow, event)),
{
    lemma_begins(app, command);
    lemma_goes_on(app, flow, event);
}

/// Every command ends: it begins with at most twenty-five actions before it, and each event takes
/// one off at least, whatever it is.
pub proof fn law_every_command_ends(app: App, command: Commands, flow: FlowView, event: Event)
    ensures
        flow_begin(app, command) matches TurnView::Do(_, begun) ==> flow_rank(begun) <= 25,
        flow_next(app, flow, event) matches TurnView::Do(_, next) ==> flow_rank(next) < flow_rank(
            flow,
        ),
{
    lemma_begins(app, command);
    lemma_goes_on(app, flow, event);
}

/// A command always asks for the action whose event it can go on with. Only an event of another
/// kind makes it fail as stray.
pub proof fn law_commands_ask_for_what_they_expect(
    app: App,
    command: Commands,
    flow: FlowView,
    event: Event,
)
    ensures
        well_asked(flow_begin(app, command)),
        well_asked(flow_next(app, flow, event)),
        !expects(flow, event) && !(flow is Failing) ==> flow_next(app, flow, event) == fails(
            app,
            stray_event(),
        ),
{
    lemma_begins(app, command);
    lemma_goes_on(app, flow, event);
}

/// An action that the library carries out itself is never followed at once by another.
pub proof fn law_one_inside_action_at_a_time(
    app: App,
    action: ActionView,
    flow: FlowView,
    event: Event,
)
    requires
        well_asked(TurnView::Do(action, flow)),
        inside(action),
        may_answer(action, event),
    ensures
        flow_next(app, flow, event) matches TurnView::Do(next, _) ==> !inside(next),
{
    assert(of_kind(action, event));
}

/// Once a target was connected to and is to be selected, the sessions are written in which it is
/// the device of a command that names no session.
pub proof fn law_connect_selects_the_target(
    app: App,
    target: Seq<char>,
    output: OutputView,
    store: StoreView,
    now: u64,
)
    ensures
        ({
            let turn = flow_next(
                app,
                FlowView::ConnectClock(target, output, store),
                Event::Clock(now),
            );
            &&& turn is Do
            &&& turn->Do_0 is WriteStore
            &&& session_device(turn->Do_0->WriteStore_0, None) == Some(target)
        }),
{
}

/// Whether a command is one that reads or writes the sessions for their own sake.
pub open spec fn on_sessions(flow: FlowView) -> bool {
    flow is Connecting || flow is ConnectReads || flow is ConnectClock || flow is ConnectSaves
        || flow is SessionReads || flow is SessionClock || flow is SessionSaves
}

/// Where the call names a device, a command neither reads nor writes the sessions, but for those
/// that are about them.
pub proof fn law_named_device_needs_no_sessions(
    app: App,
    command: Commands,
    flow: FlowView,
    event: Event,
)
    requires
        app.cli_device is Some,
    ensures
        !(command is Session) ==> (flow_begin(app, command) matches TurnView::Do(action, _)
            ==> !(action is ReadStore) && !(action is WriteStore)),
        !on_sessions(flow) ==> (flow_next(app, flow, event) matches TurnView::Do(action, _)
            ==> !(action is ReadStore) && !(action is WriteStore)),
{
}

/// Whether a command may come to write the sessions from where it stands.
pub open spec fn may_write_sessions(flow: FlowView) -> bool {
    match flow {
        FlowView::Connecting(_, select, _) => select,
        FlowView::ConnectReads(_, _) => true,
        FlowView::ConnectClock(_, _, _) => true,
        FlowView::SessionReads(_) => true,
        FlowView::SessionClock(_, _) => true,
        _ => false,
    }
}

/// Only a command on the sessions, and one that selects what it connects to, ever writes them: any
/// other leaves them and the selection as they are.
pub proof fn law_other_commands_leave_the_sessions_alone(
    app: App,
    command: Commands,
    flow: FlowView,
    event: Event,
)
    ensures
        !(command is Session) && !(command matches Commands::Connect { select, .. } && select) ==> (
        flow_begin(app, command) matches TurnView::Do(action, begun) ==> !(action is WriteStore)
            && !may_write_sessions(begun)),
        !may_write_sessions(flow) ==> (flow_next(app, flow, event) matches TurnView::Do(
            action,
            next,
        ) ==> !(action is WriteStore) && !may_write_sessions(next)),
{
}

/// Whether a run of adb in a command may be followed by a recovery of the server and a retry.
pub open spec fn may_recover(flow: FlowView) -> bool {
    match flow {
        FlowView::Plain(_, call) => call.recovers,
        FlowView::Connecting(_, _, call) => call.recovers,
        FlowView::Device(_, _, call) => call.recovers,
        FlowView::Raw(_, call) => call.recovers,
        FlowView::Shot(_, call) => call.recovers,
        FlowView::App(call) => call.recovers || call.call.recovers,
        FlowView::Ui(call) => match call.stage {
            UiStageView::Dumping(dump) => dump.recovers || match dump.stage {
                DumpStageView::Dumping(inner) => inner.recovers,
                DumpStageView::Reading(inner) => inner.recovers,
                DumpStageView::Removing(inner, _) => inner.recovers,
            },
            _ => false,
        },
        _ => false,
    }
}

/// No command recovers the server and runs again unless the call allows it, and no command without
/// a device ever does.
pub proof fn law_retries_are_asked_for(app: App, command: Commands, flow: FlowView, event: Event)
    ensures
        flow_begin(app, command) matches TurnView::Do(_, begun) ==> (may_recover(begun) ==> {
            &&& app.auto_recover
            &&& !(command is Plain) && !(command is Connect)
        }),
        flow_next(app, flow, event) matches TurnView::Do(_, next) ==> (may_recover(next)
            ==> may_recover(flow) || (flow is Choosing && app.auto_recover)),
{
}

} // verus!
