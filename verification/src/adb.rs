//! Runs of adb: one command with its single retry, and the recovery of the adb server.
//!
//! Nothing is run here. A call says which run of adb comes next, and is resumed with what came of
//! it; a run that could not be started is resumed with nothing.

use vstd::prelude::*;

use crate::devices::authorization_advice;
use crate::devices::authorization_hint;
use crate::devices::device_views;
use crate::devices::healthy;
use crate::devices::is_device_healthy;
use crate::devices::lemma_advice;
use crate::devices::listed_devices;
use crate::devices::meant;
use crate::devices::parse_devices;
use crate::devices::ready;
use crate::devices::unauthorized;
use crate::devices::DeviceInfo;
use crate::devices::DeviceView;
use crate::response::complains_unauthorized;
use crate::response::is_recoverable_adb_error;
use crate::response::recoverable;
use crate::response::succeeded;
use crate::response::AdbOutput;
use crate::response::OutputView;
use crate::response::RecoverReport;
use crate::response::ReportView;
use crate::text::as_text;
use crate::text::cat3;
use crate::text::contains_text;
use crate::text::copy_optional;
use crate::text::copy_texts;
use crate::text::holds;
use crate::text::opt_string;
use crate::text::texts;

verus! {

/// A run of adb that is due: after a wait, on a device if one is named, with arguments.
#[derive(Debug)]
pub struct AdbRequest {
    pub delay_ms: u64,
    pub device: Option<String>,
    pub args: Vec<String>,
}

/// What an `AdbRequest` holds.
#[verifier::ext_equal]
pub struct RequestView {
    pub delay_ms: u64,
    pub device: Option<Seq<char>>,
    pub args: Seq<Seq<char>>,
}

impl View for AdbRequest {
    type V = RequestView;

    open spec fn view(&self) -> RequestView {
        RequestView {
            delay_ms: self.delay_ms,
            device: opt_string(self.device),
            args: texts(self.args@),
        }
    }
}

/// The arguments that a run of adb is started with: the device goes before the command.
pub open spec fn command_line(request: RequestView) -> Seq<Seq<char>> {
    match request.device {
        Some(device) => seq!["-s"@, device] + request.args,
        None => request.args,
    }
}

impl AdbRequest {
    /// The arguments that adb is started with.
    pub fn command_line(&self) -> (line: Vec<String>)
        ensures
            texts(line@) == command_line(self@),
    {
        let mut line: Vec<String> = Vec::new();
        if let Some(device) = &self.device {
            line.push("-s".to_string());
            line.push(device.clone());
        }
        let ghost head = texts(line@);
        let mut args = copy_texts(&self.args);
        let ghost tail = texts(args@);
        line.append(&mut args);
        assert(texts(line@) =~= head + tail);
        line
    }
}

/// A run of adb without a device, at once.
pub open spec fn plain_run(args: Seq<Seq<char>>) -> RequestView {
    RequestView { delay_ms: 0, device: None, args }
}

/// The error of a run of adb that could not be started.
pub open spec fn start_error(adb: Seq<char>) -> Seq<char> {
    "failed to execute `"@ + adb + "`"@
}

/// Says that adb could not be started.
pub fn start_failure(adb: &str) -> (error: String)
    ensures
        error@ == start_error(adb@),
{
    cat3("failed to execute `", adb, "`")
}

/// What came of a run of adb.
pub open spec fn run_view(run: Option<AdbOutput>) -> Option<OutputView> {
    match run {
        Some(output) => Some(output@),
        None => None,
    }
}

/// Where a call stands: a run of adb is due, or the call is over, well or badly.
#[derive(Debug)]
pub enum Progress<C, T> {
    Run(AdbRequest, C),
    Done(T),
    Fail(String),
}

/// What a `Progress` holds.
#[verifier::ext_equal]
pub enum ProgressView<C, T> {
    Run(RequestView, C),
    Done(T),
    Fail(Seq<char>),
}

/// The arguments that list the devices.
pub open spec fn list_args() -> Seq<Seq<char>> {
    seq!["devices"@, "-l"@]
}

/// The run of adb that lists the devices.
fn list_request() -> (request: AdbRequest)
    ensures
        request@ == plain_run(list_args()),
{
    let mut args: Vec<String> = Vec::new();
    args.push("devices".to_string());
    args.push("-l".to_string());
    assert(texts(args@) =~= list_args());
    AdbRequest { delay_ms: 0, device: None, args }
}

/// Reads the devices out of the run of adb that lists them.
pub fn adb_devices(adb: &str, run: &Option<AdbOutput>) -> (devices: Result<Vec<DeviceInfo>, String>)
    ensures
        match devices {
            Ok(list) => run matches Some(output) && device_views(list@) == listed_devices(
                output.stdout@,
            ),
            Err(error) => run is None && error@ == start_error(adb@),
        },
{
    match run {
        Some(output) => Ok(parse_devices(output.stdout.as_str())),
        None => Err(start_failure(adb)),
    }
}

/// The devices that a run of adb lists; none where it could not be started.
pub open spec fn devices_after(run: Option<OutputView>) -> Seq<DeviceView> {
    match run {
        Some(output) => listed_devices(output.stdout),
        None => Seq::empty(),
    }
}

/// Reads the devices out of a run of adb; none where it could not be started.
fn devices_or_none(adb: &str, run: &Option<AdbOutput>) -> (devices: Vec<DeviceInfo>)
    ensures
        device_views(devices@) == devices_after(run_view(*run)),
{
    match adb_devices(adb, run) {
        Ok(list) => list,
        Err(_) => {
            let none: Vec<DeviceInfo> = Vec::new();
            assert(device_views(none@) =~= Seq::empty());
            none
        },
    }
}

/// Whether the adb server is restarted: on demand, and where the device that is meant is missing
/// or offline. A device that is not authorized is the user's to mend, and no reason to restart.
pub open spec fn restart_due(
    expected: Option<Seq<char>>,
    force: bool,
    devices: Seq<DeviceView>,
) -> bool {
    force || (authorization_advice(expected, devices) is None && !healthy(expected, devices))
}

/// Whether a serial looks like `host:port`.
pub open spec fn over_tcp(serial: Seq<char>) -> bool {
    holds(serial, ":"@)
}

/// How far a recovery is: what the run of adb is for that is under way.
#[derive(Debug)]
pub enum RecoverStage {
    ListingBefore,
    Killing(Vec<DeviceInfo>),
    Starting(Vec<DeviceInfo>),
    Connecting(Vec<DeviceInfo>),
    ListingAfter(Vec<DeviceInfo>, bool),
}

/// What a `RecoverStage` holds.
#[verifier::ext_equal]
pub enum StageView {
    ListingBefore,
    Killing(Seq<DeviceView>),
    Starting(Seq<DeviceView>),
    Connecting(Seq<DeviceView>),
    ListingAfter(Seq<DeviceView>, bool),
}

impl View for RecoverStage {
    type V = StageView;

    open spec fn view(&self) -> StageView {
        match self {
            RecoverStage::ListingBefore => StageView::ListingBefore,
            RecoverStage::Killing(before) => StageView::Killing(device_views(before@)),
            RecoverStage::Starting(before) => StageView::Starting(device_views(before@)),
            RecoverStage::Connecting(before) => StageView::Connecting(device_views(before@)),
            RecoverStage::ListingAfter(before, reconnected) => StageView::ListingAfter(
                device_views(before@),
                *reconnected,
            ),
        }
    }
}

/// A recovery of the adb server.
#[derive(Debug)]
pub struct RecoverCall {
    pub expected: Option<String>,
    pub force: bool,
    pub wait_ms: u64,
    pub stage: RecoverStage,
}

/// What a `RecoverCall` holds.
#[verifier::ext_equal]
pub struct RecoverView {
    pub expected: Option<Seq<char>>,
    pub force: bool,
    pub wait_ms: u64,
    pub stage: StageView,
}

impl View for RecoverCall {
    type V = RecoverView;

    open spec fn view(&self) -> RecoverView {
        RecoverView {
            expected: opt_string(self.expected),
            force: self.force,
            wait_ms: self.wait_ms,
            stage: self.stage@,
        }
    }
}

/// What the progress of a recovery holds.
pub open spec fn recover_progress(p: Progress<RecoverCall, RecoverReport>) -> ProgressView<
    RecoverView,
    ReportView,
> {
    match p {
        Progress::Run(request, call) => ProgressView::Run(request@, call@),
        Progress::Done(report) => ProgressView::Done(report@),
        Progress::Fail(error) => ProgressView::Fail(error@),
    }
}

/// A recovery as it begins: with a look at the devices.
pub open spec fn recovery(expected: Option<Seq<char>>, force: bool, wait_ms: u64) -> RecoverView {
    RecoverView { expected, force, wait_ms, stage: StageView::ListingBefore }
}

/// A recovery with another run of adb under way.
pub open spec fn recovery_at(call: RecoverView, stage: StageView) -> RecoverView {
    RecoverView { stage, ..call }
}

/// How a recovery goes on after a run of adb: it looks at the devices and, if need be, kills the
/// server, waits, starts it, connects again to a device reached over TCP, and looks again.
pub open spec fn recovery_next(
    adb: Seq<char>,
    call: RecoverView,
    run: Option<OutputView>,
) -> ProgressView<RecoverView, ReportView> {
    match call.stage {
        StageView::ListingBefore => {
            let before = devices_after(run);
            if restart_due(call.expected, call.force, before) {
                ProgressView::Run(
                    plain_run(seq!["kill-server"@]),
                    recovery_at(call, StageView::Killing(before)),
                )
            } else {
                ProgressView::Done(
                    ReportView {
                        expected_device: call.expected,
                        restarted_server: false,
                        reconnected_tcp: false,
                        before,
                        after: before,
                    },
                )
            }
        },
        StageView::Killing(before) => if run is None {
            ProgressView::Fail(start_error(adb))
        } else {
            ProgressView::Run(
                RequestView {
                    delay_ms: call.wait_ms,
                    device: None,
                    args: seq!["start-server"@],
                },
                recovery_at(call, StageView::Starting(before)),
            )
        },
        StageView::Starting(before) => if run is None {
            ProgressView::Fail(start_error(adb))
        } else if call.expected is Some && over_tcp(call.expected->0) {
            ProgressView::Run(
                plain_run(seq!["connect"@, call.expected->0]),
                recovery_at(call, StageView::Connecting(before)),
            )
        } else {
            ProgressView::Run(
                plain_run(list_args()),
                recovery_at(call, StageView::ListingAfter(before, false)),
            )
        },
        StageView::Connecting(before) => if run is None {
            ProgressView::Fail(start_error(adb))
        } else {
            ProgressView::Run(
                plain_run(list_args()),
                recovery_at(call, StageView::ListingAfter(before, true)),
            )
        },
        StageView::ListingAfter(before, reconnected) => ProgressView::Done(
            ReportView {
                expected_device: call.expected,
                restarted_server: true,
                reconnected_tcp: reconnected,
                before,
                after: devices_after(run),
            },
        ),
    }
}

/// Begins a recovery of the adb server.
pub fn recover_adb_server(expected_device: Option<String>, force: bool, wait_ms: u64) -> (begun: (
    AdbRequest,
    RecoverCall,
))
    ensures
        begun.0@ == plain_run(list_args()),
        begun.1@ == recovery(opt_string(expected_device), force, wait_ms),
{
    (
        list_request(),
        RecoverCall {
            expected: expected_device,
            force,
            wait_ms,
            stage: RecoverStage::ListingBefore,
        },
    )
}

/// A second device that holds the same.
fn copy_device(device: &DeviceInfo) -> (other: DeviceInfo)
    ensures
        other@ == device@,
{
    DeviceInfo {
        serial: device.serial.clone(),
        state: device.state.clone(),
        details: copy_texts(&device.details),
    }
}

/// A second list of devices that hold the same.
fn copy_devices(list: &Vec<DeviceInfo>) -> (out: Vec<DeviceInfo>)
    ensures
        device_views(out@) == device_views(list@),
{
    let mut out: Vec<DeviceInfo> = Vec::new();
    let mut i: usize = 0;
    while i < list.len()
        invariant
            i <= list.len(),
            out.len() == i,
            forall|j: int| 0 <= j < i ==> (#[trigger] out@[j])@ == list@[j]@,
        decreases list.len() - i,
    {
        out.push(copy_device(&list[i]));
        i += 1;
    }
    assert(device_views(out@) =~= device_views(list@));
    out
}

impl RecoverCall {
    /// Goes on with a recovery after a run of adb.
    pub fn resume(self, adb: &str, run: Option<AdbOutput>) -> (next: Progress<
        RecoverCall,
        RecoverReport,
    >)
        ensures
            recover_progress(next) == recovery_next(adb@, self@, run_view(run)),
    {
        let expected = self.expected;
        let force: bool = self.force;
        let wait_ms: u64 = self.wait_ms;
        match self.stage {
            RecoverStage::ListingBefore => {
                let before = devices_or_none(adb, &run);
                let advised: bool = authorization_hint(
                    as_text(&expected),
                    before.as_slice(),
                ).is_some();
                let ready: bool = is_device_healthy(as_text(&expected), before.as_slice());
                if force || (!advised && !ready) {
                    let mut args: Vec<String> = Vec::new();
                    args.push("kill-server".to_string());
                    assert(texts(args@) =~= seq!["kill-server"@]);
                    Progress::Run(
                        AdbRequest { delay_ms: 0, device: None, args },
                        RecoverCall {
                            expected,
                            force,
                            wait_ms,
                            stage: RecoverStage::Killing(before),
                        },
                    )
                } else {
                    let after = copy_devices(&before);
                    Progress::Done(
                        RecoverReport {
                            expected_device: expected,
                            restarted_server: false,
                            reconnected_tcp: false,
                            before,
                            after,
                        },
                    )
                }
            },
            RecoverStage::Killing(before) => {
                if run.is_none() {
                    return Progress::Fail(start_failure(adb));
                }
                let mut args: Vec<String> = Vec::new();
                args.push("start-server".to_string());
                assert(texts(args@) =~= seq!["start-server"@]);
                Progress::Run(
                    AdbRequest { delay_ms: wait_ms, device: None, args },
                    RecoverCall { expected, force, wait_ms, stage: RecoverStage::Starting(before) },
                )
            },
            RecoverStage::Starting(before) => {
                if run.is_none() {
                    return Progress::Fail(start_failure(adb));
                }
                let mut args: Vec<String> = Vec::new();
                if let Some(device) = &expected {
                    if contains_text(device.as_str(), ":") {
                        args.push("connect".to_string());
                        args.push(device.clone());
                    }
                }
                if args.len() > 0 {
                    assert(texts(args@) =~= seq!["connect"@, expected->0@]);
                    Progress::Run(
                        AdbRequest { delay_ms: 0, device: None, args },
                        RecoverCall {
                            expected,
                            force,
                            wait_ms,
                            stage: RecoverStage::Connecting(before),
                        },
                    )
                } else {
                    Progress::Run(
                        list_request(),
                        RecoverCall {
                            expected,
                            force,
                            wait_ms,
                            stage: RecoverStage::ListingAfter(before, false),
                        },
                    )
                }
            },
            RecoverStage::Connecting(before) => {
                if run.is_none() {
                    return Progress::Fail(start_failure(adb));
                }
                Progress::Run(
                    list_request(),
                    RecoverCall {
                        expected,
                        force,
                        wait_ms,
                        stage: RecoverStage::ListingAfter(before, true),
                    },
                )
            },
            RecoverStage::ListingAfter(before, reconnected) => {
                let after = devices_or_none(adb, &run);
                Progress::Done(
                    RecoverReport {
                        expected_device: expected,
                        restarted_server: true,
                        reconnected_tcp: reconnected,
                        before,
                        after,
                    },
                )
            },
        }
    }
}

/// How far an adb command is.
#[derive(Debug)]
pub enum AdbStage {
    /// It runs for the first time.
    First,
    /// The server is recovered before it runs again.
    Recovering(RecoverCall),
    /// It runs for the second time.
    Retry,
}

/// What an `AdbStage` holds.
#[verifier::ext_equal]
pub enum AdbStageView {
    First,
    Recovering(RecoverView),
    Retry,
}

impl View for AdbStage {
    type V = AdbStageView;

    open spec fn view(&self) -> AdbStageView {
        match self {
            AdbStage::First => AdbStageView::First,
            AdbStage::Recovering(call) => AdbStageView::Recovering(call@),
            AdbStage::Retry => AdbStageView::Retry,
        }
    }
}

/// An adb command, run again after a recovery of the server where that is allowed and may help.
#[derive(Debug)]
pub struct AdbCall {
    pub device: Option<String>,
    pub args: Vec<String>,
    /// Whether a failure may be recovered from.
    pub recovers: bool,
    pub stage: AdbStage,
}

/// What an `AdbCall` holds.
#[verifier::ext_equal]
pub struct AdbCallView {
    pub device: Option<Seq<char>>,
    pub args: Seq<Seq<char>>,
    pub recovers: bool,
    pub stage: AdbStageView,
}

impl View for AdbCall {
    type V = AdbCallView;

    open spec fn view(&self) -> AdbCallView {
        AdbCallView {
            device: opt_string(self.device),
            args: texts(self.args@),
            recovers: self.recovers,
            stage: self.stage@,
        }
    }
}

/// What the progress of an adb command holds.
pub open spec fn adb_progress(p: Progress<AdbCall, AdbOutput>) -> ProgressView<
    AdbCallView,
    OutputView,
> {
    match p {
        Progress::Run(request, call) => ProgressView::Run(request@, call@),
        Progress::Done(output) => ProgressView::Done(output@),
        Progress::Fail(error) => ProgressView::Fail(error@),
    }
}

/// An adb command as it begins.
pub open spec fn adb_command(
    device: Option<Seq<char>>,
    args: Seq<Seq<char>>,
    recovers: bool,
) -> AdbCallView {
    AdbCallView { device, args, recovers, stage: AdbStageView::First }
}

/// The run of adb of a command itself.
pub open spec fn own_run(call: AdbCallView) -> RequestView {
    RequestView { delay_ms: 0, device: call.device, args: call.args }
}

/// An adb command at another stage.
pub open spec fn adb_at(call: AdbCallView, stage: AdbStageView) -> AdbCallView {
    AdbCallView { stage, ..call }
}

/// The milliseconds between the end and the start of the server in a recovery before a retry.
pub const RETRY_WAIT_MS: u64 = 700;

/// How an adb command goes on after a run of adb. A first run that failed for a missing or
/// offline device is followed by a recovery and a second run, the last.
pub open spec fn adb_next(
    adb: Seq<char>,
    call: AdbCallView,
    run: Option<OutputView>,
) -> ProgressView<AdbCallView, OutputView> {
    match call.stage {
        AdbStageView::First => match run {
            None => ProgressView::Fail(start_error(adb)),
            Some(output) => if call.recovers && !succeeded(output) && recoverable(output) {
                ProgressView::Run(
                    plain_run(list_args()),
                    adb_at(
                        call,
                        AdbStageView::Recovering(recovery(call.device, true, RETRY_WAIT_MS)),
                    ),
                )
            } else {
                ProgressView::Done(output)
            },
        },
        AdbStageView::Recovering(inner) => match recovery_next(adb, inner, run) {
            ProgressView::Run(request, inner) => ProgressView::Run(
                request,
                adb_at(call, AdbStageView::Recovering(inner)),
            ),
            ProgressView::Done(_) => ProgressView::Run(
                own_run(call),
                adb_at(call, AdbStageView::Retry),
            ),
            ProgressView::Fail(error) => ProgressView::Fail(error),
        },
        AdbStageView::Retry => match run {
            None => ProgressView::Fail(start_error(adb)),
            Some(output) => ProgressView::Done(output),
        },
    }
}

impl AdbCall {
    /// Begins an adb command.
    pub fn begin(device: Option<String>, args: Vec<String>, recovers: bool) -> (begun: (
        AdbRequest,
        AdbCall,
    ))
        ensures
            begun.1@ == adb_command(opt_string(device), texts(args@), recovers),
            begun.0@ == own_run(begun.1@),
    {
        let request = AdbRequest {
            delay_ms: 0,
            device: copy_optional(&device),
            args: copy_texts(&args),
        };
        (request, AdbCall { device, args, recovers, stage: AdbStage::First })
    }

    /// Goes on with an adb command after a run of adb.
    pub fn resume(self, adb: &str, run: Option<AdbOutput>) -> (next: Progress<AdbCall, AdbOutput>)
        ensures
            adb_progress(next) == adb_next(adb@, self@, run_view(run)),
    {
        let device = self.device;
        let args = self.args;
        let recovers: bool = self.recovers;
        match self.stage {
            AdbStage::First => match run {
                None => Progress::Fail(start_failure(adb)),
                Some(output) => {
                    if recovers && !output.success() && is_recoverable_adb_error(&output) {
                        let (request, inner) = recover_adb_server(
                            copy_optional(&device),
                            true,
                            RETRY_WAIT_MS,
                        );
                        Progress::Run(
                            request,
                            AdbCall { device, args, recovers, stage: AdbStage::Recovering(inner) },
                        )
                    } else {
                        Progress::Done(output)
                    }
                },
            },
            AdbStage::Recovering(inner) => match inner.resume(adb, run) {
                Progress::Run(request, inner) => Progress::Run(
                    request,
                    AdbCall { device, args, recovers, stage: AdbStage::Recovering(inner) },
                ),
                Progress::Done(_) => {
                    let request = AdbRequest {
                        delay_ms: 0,
                        device: copy_optional(&device),
                        args: copy_texts(&args),
                    };
                    Progress::Run(
                        request,
                        AdbCall { device, args, recovers, stage: AdbStage::Retry },
                    )
                },
                Progress::Fail(error) => Progress::Fail(error),
            },
            AdbStage::Retry => match run {
                None => Progress::Fail(start_failure(adb)),
                Some(output) => Progress::Done(output),
            },
        }
    }
}

/// Without being forced, a recovery restarts the server just where no device that is meant is
/// ready for use, and none waits for the user's authorization: they are missing or offline.
pub proof fn law_restart_is_for_missing_devices(
    expected: Option<Seq<char>>,
    devices: Seq<DeviceView>,
)
    ensures
        restart_due(expected, false, devices) <==> forall|i: int|
            0 <= i < devices.len() && #[trigger] meant(expected, devices[i]) ==> !ready(devices[i])
                && !unauthorized(devices[i]),
{
    lemma_advice(expected, devices, 0);
}

/// A recovery that need not restart the server is over after one look at the devices: the server
/// is left alone, and the devices are reported as they are.
pub proof fn law_recovery_leaves_the_rest_alone(
    adb: Seq<char>,
    expected: Option<Seq<char>>,
    wait_ms: u64,
    listed: Option<OutputView>,
)
    requires
        !restart_due(expected, false, devices_after(listed)),
    ensures
        recovery_next(adb, recovery(expected, false, wait_ms), listed) == ProgressView::<
            RecoverView,
            ReportView,
        >::Done(
            ReportView {
                expected_device: expected,
                restarted_server: false,
                reconnected_tcp: false,
                before: devices_after(listed),
                after: devices_after(listed),
            },
        ),
{
}

/// The call that a step goes on with.
pub open spec fn next_call<C, T>(step: ProgressView<C, T>) -> C {
    step->Run_1
}

/// A recovery that is due or forced kills the server, waits, starts it, connects again where the
/// serial looks like `host:port` and only there, and lists the devices again.
pub proof fn law_recovery_restarts_and_reconnects(
    adb: Seq<char>,
    expected: Option<Seq<char>>,
    force: bool,
    wait_ms: u64,
    listed: Option<OutputView>,
    killed: OutputView,
    started: OutputView,
    connected: OutputView,
    relisted: Option<OutputView>,
)
    requires
        restart_due(expected, force, devices_after(listed)),
    ensures
        ({
            let tcp = expected is Some && over_tcp(expected->0);
            let kill = recovery_next(adb, recovery(expected, force, wait_ms), listed);
            let start = recovery_next(adb, next_call(kill), Some(killed));
            let third = recovery_next(adb, next_call(start), Some(started));
            let fourth = if tcp {
                recovery_next(adb, next_call(third), Some(connected))
            } else {
                third
            };
            let end = recovery_next(adb, next_call(fourth), relisted);
            &&& kill is Run && kill->Run_0 == plain_run(seq!["kill-server"@])
            &&& start is Run && start->Run_0.args == seq!["start-server"@]
            &&& start->Run_0.delay_ms == wait_ms
            &&& tcp ==> third is Run && third->Run_0 == plain_run(seq!["connect"@, expected->0])
            &&& fourth is Run && fourth->Run_0 == plain_run(list_args())
            &&& end is Done && end->Done_0 == ReportView {
                expected_device: expected,
                restarted_server: true,
                reconnected_tcp: tcp,
                before: devices_after(listed),
                after: devices_after(relisted),
            }
        }),
{
}

/// An adb command is run again only where that is allowed, where its first run failed, and where
/// it complained of a missing or offline device and not of one that is not authorized. It is
/// run again once.
pub proof fn law_one_retry_where_it_may_help(
    adb: Seq<char>,
    call: AdbCallView,
    run: Option<OutputView>,
)
    ensures
        call.stage is First && adb_next(adb, call, run) is Run ==> {
            &&& call.recovers
            &&& run matches Some(output) && !succeeded(output) && recoverable(output)
                && !complains_unauthorized(output)
        },
        call.stage is Retry ==> !(adb_next(adb, call, run) is Run),
        adb_next(adb, call, run) matches ProgressView::Run(_, next) ==> !(next.stage is First),
{
}

/// A retry runs the command as it was, and its outcome is the outcome of the command.
pub proof fn law_retry_runs_the_same_command(
    adb: Seq<char>,
    call: AdbCallView,
    run: Option<OutputView>,
    output: OutputView,
)
    requires
        call.stage is Recovering,
    ensures
        adb_next(adb, call, run) matches ProgressView::Run(request, next) ==> {
            &&& next.stage is Retry ==> request == own_run(call)
            &&& next.stage is Retry ==> adb_next(adb, next, Some(output)) == ProgressView::<
                AdbCallView,
                OutputView,
            >::Done(output)
        },
{
}

/// A run of adb on a device names it behind `-s`, before the arguments of the command; a run on no
/// device is started with those arguments alone.
pub proof fn law_the_device_goes_before_the_command(request: RequestView)
    ensures
        ({
            let line = command_line(request);
            &&& request.device is None ==> line == request.args
            &&& request.device is Some ==> line.len() == request.args.len() + 2 && line[0] == "-s"@
                && line[1] == request.device->0 && line.skip(2) == request.args
        }),
{
    if let Some(device) = request.device {
        assert(command_line(request).skip(2) =~= request.args);
    }
}

/// A recovery that cannot start adb once it restarts the server fails with that; where adb cannot
/// be started to list the devices, none are listed. Devices are listed on the output of adb.
pub proof fn law_recovery_needs_adb(adb: Seq<char>, call: RecoverView, output: OutputView)
    ensures
        call.stage is Killing || call.stage is Starting || call.stage is Connecting
            ==> recovery_next(adb, call, None) == ProgressView::<RecoverView, ReportView>::Fail(
            "failed to execute `"@ + adb + "`"@,
        ),
        call.stage is ListingAfter ==> {
            let end = recovery_next(adb, call, None);
            &&& end is Done && end->Done_0.after.len() == 0 && end->Done_0.restarted_server
        },
        call.stage is ListingBefore ==> (recovery_next(adb, call, None) matches ProgressView::Run(
            request,
            _,
        ) && request.args == seq!["kill-server"@]),
        call.stage is ListingAfter ==> recovery_next(adb, call, Some(output))->Done_0.after
            == listed_devices(output.stdout),
{
    if call.stage is ListingBefore {
        lemma_advice(call.expected, devices_after(None), 0);
    }
}

} // verus!
