//! The commands on apps: start, stop and restart.

use vstd::prelude::*;

use crate::adb::adb_command;
use crate::adb::adb_next;
use crate::adb::own_run;
use crate::adb::run_view;
use crate::adb::AdbCall;
use crate::adb::AdbCallView;
use crate::adb::AdbRequest;
use crate::adb::Progress;
use crate::adb::ProgressView;
use crate::commands::app_start_args;
use crate::commands::app_start_data;
use crate::commands::app_stop_args;
use crate::commands::build_app_start_args;
use crate::commands::law_apps_start_by_activity_or_launcher;
use crate::commands::start_data;
use crate::commands::stop_args;
use crate::commands::text_field;
use crate::commands::AppCommand;
use crate::response::answer_from;
use crate::response::errors_or;
use crate::response::errors_or_text;
use crate::response::field_views;
use crate::response::response_from_output;
use crate::response::succeeded;
use crate::response::AdbOutput;
use crate::response::Datum;
use crate::response::DatumView;
use crate::response::Field;
use crate::response::OutputView;
use crate::response::Response;
use crate::response::ResponseView;
use crate::text::as_text;
use crate::text::cat2;
use crate::text::opt_string;
use crate::text::trimmed;

verus! {

/// The app that a command starts, and how.
#[derive(Debug)]
pub struct AppStart {
    pub package: String,
    pub activity: Option<String>,
    pub wait: bool,
}

/// What an `AppStart` holds.
#[verifier::ext_equal]
pub struct AppStartView {
    pub package: Seq<char>,
    pub activity: Option<Seq<char>>,
    pub wait: bool,
}

impl View for AppStart {
    type V = AppStartView;

    open spec fn view(&self) -> AppStartView {
        AppStartView {
            package: self.package@,
            activity: opt_string(self.activity),
            wait: self.wait,
        }
    }
}

/// What the adb command is for that is under way.
#[derive(Debug)]
pub enum AppStage {
    Starting(AppStart),
    /// Stopping the app of this package.
    Stopping(String),
    /// Stopping an app to start it again.
    StoppingFirst(AppStart),
    /// Starting an app again, with what came of stopping it.
    StartingAgain(AppStart, AdbOutput),
}

/// What an `AppStage` holds.
#[verifier::ext_equal]
pub enum AppStageView {
    Starting(AppStartView),
    Stopping(Seq<char>),
    StoppingFirst(AppStartView),
    StartingAgain(AppStartView, OutputView),
}

impl View for AppStage {
    type V = AppStageView;

    open spec fn view(&self) -> AppStageView {
        match self {
            AppStage::Starting(start) => AppStageView::Starting(start@),
            AppStage::Stopping(package) => AppStageView::Stopping(package@),
            AppStage::StoppingFirst(start) => AppStageView::StoppingFirst(start@),
            AppStage::StartingAgain(start, stop) => AppStageView::StartingAgain(start@, stop@),
        }
    }
}

/// A command on an app under way.
#[derive(Debug)]
pub struct AppCall {
    pub device: String,
    /// Whether a failure may be recovered from.
    pub recovers: bool,
    pub stage: AppStage,
    pub call: AdbCall,
}

/// What an `AppCall` holds.
#[verifier::ext_equal]
pub struct AppCallView {
    pub device: Seq<char>,
    pub recovers: bool,
    pub stage: AppStageView,
    pub call: AdbCallView,
}

impl View for AppCall {
    type V = AppCallView;

    open spec fn view(&self) -> AppCallView {
        AppCallView {
            device: self.device@,
            recovers: self.recovers,
            stage: self.stage@,
            call: self.call@,
        }
    }
}

/// What the progress of a command on an app holds.
pub open spec fn app_progress(p: Progress<AppCall, Response>) -> ProgressView<
    AppCallView,
    ResponseView,
> {
    match p {
        Progress::Run(request, call) => ProgressView::Run(request@, call@),
        Progress::Done(response) => ProgressView::Done(response@),
        Progress::Fail(error) => ProgressView::Fail(error@),
    }
}

/// The arguments of adb at a stage of a command on an app.
pub open spec fn stage_args(stage: AppStageView) -> Seq<Seq<char>> {
    match stage {
        AppStageView::Starting(start) => app_start_args(start.package, start.activity, start.wait),
        AppStageView::Stopping(package) => app_stop_args(package),
        AppStageView::StoppingFirst(start) => app_stop_args(start.package),
        AppStageView::StartingAgain(start, stop) => app_start_args(
            start.package,
            start.activity,
            start.wait,
        ),
    }
}

/// A command on an app with the adb command of a stage under way.
pub open spec fn app_stage(device: Seq<char>, recovers: bool, stage: AppStageView) -> AppCallView {
    AppCallView {
        device,
        recovers,
        stage,
        call: adb_command(Some(device), stage_args(stage), recovers),
    }
}

/// The stage with which a command on an app begins.
pub open spec fn first_stage(command: AppCommand) -> AppStageView {
    match command {
        AppCommand::Start { package, activity, wait } => AppStageView::Starting(
            AppStartView { package: package@, activity: opt_string(activity), wait },
        ),
        AppCommand::Stop { package } => AppStageView::Stopping(package@),
        AppCommand::Restart { package, activity, wait } => AppStageView::StoppingFirst(
            AppStartView { package: package@, activity: opt_string(activity), wait },
        ),
    }
}

/// The answer to a restart whose two parts have run: what both wrote, and whether the start
/// succeeded.
pub open spec fn restart_answer(
    device: Seq<char>,
    start: AppStartView,
    stopped: OutputView,
    started: OutputView,
) -> ResponseView {
    let stderr = stopped.stderr + started.stderr;
    ResponseView {
        ok: succeeded(started),
        action: "app.restart"@,
        device: Some(device),
        exit_code: started.exit_code,
        stdout: stopped.stdout + started.stdout,
        stderr,
        data: app_start_data(start.package, start.activity, start.wait),
        error: if succeeded(started) {
            None
        } else {
            Some(errors_or(stderr, "app restart failed"@))
        },
    }
}

/// What a command on an app comes to when the adb command of its stage is over. An app that could
/// not be stopped is not started again.
pub open spec fn app_output(call: AppCallView, output: OutputView) -> ProgressView<
    AppCallView,
    ResponseView,
> {
    match call.stage {
        AppStageView::Starting(start) => ProgressView::Done(
            answer_from(
                "app.start"@,
                Some(call.device),
                output,
                app_start_data(start.package, start.activity, start.wait),
            ),
        ),
        AppStageView::Stopping(package) => ProgressView::Done(
            answer_from(
                "app.stop"@,
                Some(call.device),
                output,
                seq![("package"@, DatumView::Text(package))],
            ),
        ),
        AppStageView::StoppingFirst(start) => if succeeded(output) {
            let next = app_stage(
                call.device,
                call.recovers,
                AppStageView::StartingAgain(start, output),
            );
            ProgressView::Run(own_run(next.call), next)
        } else {
            ProgressView::Done(
                answer_from(
                    "app.restart"@,
                    Some(call.device),
                    output,
                    seq![
                        ("package"@, DatumView::Text(start.package)),
                        ("phase"@, DatumView::Text("stop"@)),
                    ],
                ),
            )
        },
        AppStageView::StartingAgain(start, stopped) => ProgressView::Done(
            restart_answer(call.device, start, stopped, output),
        ),
    }
}

/// How a command on an app goes on after a run of adb.
pub open spec fn app_next(adb: Seq<char>, call: AppCallView, run: Option<OutputView>) -> ProgressView<
    AppCallView,
    ResponseView,
> {
    match adb_next(adb, call.call, run) {
        ProgressView::Run(request, inner) => ProgressView::Run(
            request,
            AppCallView { call: inner, ..call },
        ),
        ProgressView::Fail(error) => ProgressView::Fail(error),
        ProgressView::Done(output) => app_output(call, output),
    }
}

/// Begins the adb command of a stage.
fn begin_stage(device: String, recovers: bool, stage: AppStage) -> (begun: (AdbRequest, AppCall))
    ensures
        begun.1@ == app_stage(device@, recovers, stage@),
        begun.0@ == own_run(begun.1@.call),
{
    let args = match &stage {
        AppStage::Starting(start) => build_app_start_args(
            start.package.as_str(),
            as_text(&start.activity),
            start.wait,
        ).0,
        AppStage::Stopping(package) => stop_args(package),
        AppStage::StoppingFirst(start) => stop_args(&start.package),
        AppStage::StartingAgain(start, _) => build_app_start_args(
            start.package.as_str(),
            as_text(&start.activity),
            start.wait,
        ).0,
    };
    let (request, call) = AdbCall::begin(Some(device.clone()), args, recovers);
    (request, AppCall { device, recovers, stage, call })
}

/// Begins a command on an app.
pub fn handle_app(device: String, recovers: bool, command: AppCommand) -> (begun: (
    AdbRequest,
    AppCall,
))
    ensures
        begun.1@ == app_stage(device@, recovers, first_stage(command)),
        begun.0@ == own_run(begun.1@.call),
{
    let stage = match command {
        AppCommand::Start { package, activity, wait } => AppStage::Starting(
            AppStart { package, activity, wait },
        ),
        AppCommand::Stop { package } => AppStage::Stopping(package),
        AppCommand::Restart { package, activity, wait } => AppStage::StoppingFirst(
            AppStart { package, activity, wait },
        ),
    };
    begin_stage(device, recovers, stage)
}

/// Makes the answer to a restart whose two parts have run.
fn restarted(device: String, start: AppStart, stopped: AdbOutput, started: AdbOutput) -> (response:
    Response)
    ensures
        response@ == restart_answer(device@, start@, stopped@, started@),
{
    let ok: bool = started.success();
    let stderr = cat2(stopped.stderr.as_str(), started.stderr.as_str());
    let error: Option<String> = if ok {
        None
    } else {
        Some(errors_or_text(stderr.as_str(), "app restart failed"))
    };
    Response {
        ok,
        action: "app.restart".to_string(),
        device: Some(device),
        exit_code: started.exit_code,
        stdout: cat2(stopped.stdout.as_str(), started.stdout.as_str()),
        stderr,
        data: start_data(&start.package, &start.activity, start.wait),
        error,
    }
}

impl AppCall {
    /// Goes on with a command on an app after a run of adb.
    pub fn resume(self, adb: &str, run: Option<AdbOutput>) -> (next: Progress<AppCall, Response>)
        ensures
            app_progress(next) == app_next(adb@, self@, run_view(run)),
    {
        let device = self.device;
        let recovers: bool = self.recovers;
        let stage = self.stage;
        let output = match self.call.resume(adb, run) {
            Progress::Run(request, call) => {
                return Progress::Run(request, AppCall { device, recovers, stage, call });
            },
            Progress::Fail(error) => {
                return Progress::Fail(error);
            },
            Progress::Done(output) => output,
        };
        match stage {
            AppStage::Starting(start) => {
                let data = start_data(&start.package, &start.activity, start.wait);
                Progress::Done(response_from_output("app.start", Some(device), output, data))
            },
            AppStage::Stopping(package) => {
                let mut data: Vec<Field> = Vec::new();
                data.push(text_field("package", &package));
                assert(field_views(data@) =~= seq![("package"@, DatumView::Text(package@))]);
                Progress::Done(response_from_output("app.stop", Some(device), output, data))
            },
            AppStage::StoppingFirst(start) => {
                if output.success() {
                    let (request, call) = begin_stage(
                        device,
                        recovers,
                        AppStage::StartingAgain(start, output),
                    );
                    Progress::Run(request, call)
                } else {
                    let mut data: Vec<Field> = Vec::new();
                    data.push(text_field("package", &start.package));
                    data.push(Field { key: "phase", value: Datum::Text("stop".to_string()) });
                    assert(field_views(data@) =~= seq![
                        ("package"@, DatumView::Text(start.package@)),
                        ("phase"@, DatumView::Text("stop"@)),
                    ]);
                    Progress::Done(response_from_output("app.restart", Some(device), output, data))
                }
            },
            AppStage::StartingAgain(start, stopped) => Progress::Done(
                restarted(device, start, stopped, output),
            ),
        }
    }
}

/// A restart is a stop and then a start: it runs adb as stopping the app does and, once that has
/// succeeded, as starting it does. Where it has not, nothing more is run.
pub proof fn law_restart_stops_and_starts(
    adb: Seq<char>,
    device: Seq<char>,
    recovers: bool,
    package: String,
    activity: Option<String>,
    wait: bool,
    output: OutputView,
)
    ensures
        ({
            let restart = app_stage(
                device,
                recovers,
                first_stage(AppCommand::Restart { package, activity, wait }),
            );
            let stop = app_stage(device, recovers, first_stage(AppCommand::Stop { package }));
            let start = app_stage(
                device,
                recovers,
                first_stage(AppCommand::Start { package, activity, wait }),
            );
            let next = app_next(adb, restart, Some(output));
            &&& restart.call == stop.call
            &&& output.exit_code == Some(0i32) ==> {
                &&& next is Run
                &&& next->Run_0 == own_run(start.call)
                &&& next->Run_1.call == start.call
            }
            &&& output.exit_code != Some(0i32) && !recovers ==> {
                &&& next is Done
                &&& !next->Done_0.ok
                &&& next->Done_0.action == "app.restart"@
                &&& next->Done_0.data.contains(("package"@, DatumView::Text(package@)))
                &&& next->Done_0.data.contains(("phase"@, DatumView::Text("stop"@)))
            }
        }),
{
    let restart = app_stage(
        device,
        recovers,
        first_stage(AppCommand::Restart { package, activity, wait }),
    );
    let next = app_next(adb, restart, Some(output));
    if next is Done {
        let data = next->Done_0.data;
        assert(data.contains(data[0]));
        assert(data.contains(data[1]));
    }
}

/// A command on an app runs adb on its device: to start the app that it names, or to stop it. The
/// run may be followed by a recovery and a retry just where that is allowed, and so may the start
/// in a restart.
pub proof fn law_app_commands_run_on_their_device(
    device: Seq<char>,
    recovers: bool,
    stage: AppStageView,
)
    ensures
        ({
            let call = app_stage(device, recovers, stage).call;
            &&& call.device == Some(device)
            &&& call.recovers == recovers
            &&& call.stage is First
            &&& match stage {
                AppStageView::Starting(start) => call.args == app_start_args(
                    start.package,
                    start.activity,
                    start.wait,
                ),
                AppStageView::StartingAgain(start, _) => call.args == app_start_args(
                    start.package,
                    start.activity,
                    start.wait,
                ),
                AppStageView::Stopping(package) => call.args == app_stop_args(package),
                AppStageView::StoppingFirst(start) => call.args == app_stop_args(start.package),
            }
        }),
{
}

/// The answer to a command on an app is that of its run of adb; to a restart it is that of the
/// start, with what both runs wrote, one behind the other.
pub proof fn law_app_answers_are_those_of_adb(
    adb: Seq<char>,
    call: AppCallView,
    output: OutputView,
)
    requires
        !(call.call.stage is Recovering),
        call.call.recovers ==> call.call.stage is Retry,
        !(call.stage is StoppingFirst),
    ensures
        ({
            let end = app_next(adb, call, Some(output));
            let answer = end->Done_0;
            &&& end is Done
            &&& answer.ok <==> output.exit_code == Some(0i32)
            &&& answer.ok <==> answer.error is None
            &&& answer.exit_code == output.exit_code
            &&& answer.device == Some(call.device)
            &&& match call.stage {
                AppStageView::Starting(start) => {
                    &&& answer.action == "app.start"@
                    &&& answer.stdout == output.stdout && answer.stderr == output.stderr
                    &&& answer.data == app_start_data(start.package, start.activity, start.wait)
                },
                AppStageView::Stopping(package) => {
                    &&& answer.action == "app.stop"@
                    &&& answer.stdout == output.stdout && answer.stderr == output.stderr
                    &&& answer.data == seq![("package"@, DatumView::Text(package))]
                },
                AppStageView::StartingAgain(start, stopped) => {
                    &&& answer.action == "app.restart"@
                    &&& answer.stdout == stopped.stdout + output.stdout
                    &&& answer.stderr == stopped.stderr + output.stderr
                    &&& answer.data == app_start_data(start.package, start.activity, start.wait)
                    &&& !answer.ok ==> answer.error == Some(
                        if trimmed(answer.stderr).len() > 0 {
                            trimmed(answer.stderr)
                        } else {
                            "app restart failed"@
                        },
                    )
                },
                AppStageView::StoppingFirst(_) => false,
            }
        }),
{
}

/// A command on an app begins with a run of adb on the app that it names: stopping names its
/// package, and so does starting by the launcher; starting by an activity names the component, and
/// waits just where that is asked for.
pub proof fn law_app_commands_name_their_app(
    device: Seq<char>,
    recovers: bool,
    command: AppCommand,
)
    ensures
        ({
            let args = app_stage(device, recovers, first_stage(command)).call.args;
            match command {
                AppCommand::Stop { package } => args.last() == package@,
                AppCommand::Restart { package, .. } => args.last() == package@,
                AppCommand::Start { package, activity: None, .. } => args[3] == package@,
                AppCommand::Start { package, activity: Some(activity), wait } => {
                    &&& activity@.contains('/') ==> args.last() == activity@
                    &&& !activity@.contains('/') ==> args.last() == package@ + seq!['/']
                        + activity@
                    &&& args.len() == 6 <==> wait
                },
            }
        }),
{
    if let AppCommand::Start { package, activity, wait } = command {
        law_apps_start_by_activity_or_launcher(package@, opt_string(activity), wait);
        let args = app_start_args(package@, opt_string(activity), wait);
        assert(activity is None ==> args.take(4)[3] == args[3]);
    }
}

} // verus!
