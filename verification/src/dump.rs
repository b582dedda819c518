//! Dumping the user interface of a device: uiautomator writes it there, then it is read and the
//! file removed.

use vstd::prelude::*;

use crate::adb::adb_command;
use crate::adb::adb_next;
use crate::adb::own_run;
use crate::adb::run_view;
use crate::adb::AdbCall;
use crate::adb::AdbCallView;
use crate::adb::AdbRequest;
use crate::adb::Progress;
use crate::adb::ProgressView;
use crate::response::succeeded;
use crate::response::AdbOutput;
use crate::response::OutputView;
use crate::text::add_text;
use crate::text::cat2;
use crate::text::strings;
use crate::text::texts;
use crate::text::trim;
use crate::text::trimmed;
use crate::ui::parse_ui_nodes;
use crate::ui::parsed_ui;
use crate::ui::ui_nodes;
use crate::ui::ui_views;
use crate::ui::xml_document;
use crate::ui::UiNode;
use crate::ui::UiView;
use crate::ui::XmlView;

verus! {

/// A dump of the user interface: the XML and the nodes in it.
#[derive(Debug)]
pub struct UiDump {
    pub xml: String,
    pub nodes: Vec<UiNode>,
}

/// What a `UiDump` holds.
#[verifier::ext_equal]
pub struct UiDumpView {
    pub xml: Seq<char>,
    pub nodes: Seq<UiView>,
}

impl View for UiDump {
    type V = UiDumpView;

    open spec fn view(&self) -> UiDumpView {
        UiDumpView { xml: self.xml@, nodes: ui_views(self.nodes@) }
    }
}

/// How far a dump is: what the adb command is for that is under way.
#[derive(Debug)]
pub enum DumpStage {
    Dumping(AdbCall),
    Reading(AdbCall),
    /// The file is removed; what was read of it waits.
    Removing(AdbCall, AdbOutput),
}

/// What a `DumpStage` holds.
#[verifier::ext_equal]
pub enum DumpStageView {
    Dumping(AdbCallView),
    Reading(AdbCallView),
    Removing(AdbCallView, OutputView),
}

impl View for DumpStage {
    type V = DumpStageView;

    open spec fn view(&self) -> DumpStageView {
        match self {
            DumpStage::Dumping(call) => DumpStageView::Dumping(call@),
            DumpStage::Reading(call) => DumpStageView::Reading(call@),
            DumpStage::Removing(call, read) => DumpStageView::Removing(call@, read@),
        }
    }
}

/// A dump of the user interface under way.
#[derive(Debug)]
pub struct DumpCall {
    pub device: String,
    pub remote: String,
    pub keep_remote: bool,
    /// Whether a failure may be recovered from.
    pub recovers: bool,
    pub stage: DumpStage,
}

/// What a `DumpCall` holds.
#[verifier::ext_equal]
pub struct DumpView {
    pub device: Seq<char>,
    pub remote: Seq<char>,
    pub keep_remote: bool,
    pub recovers: bool,
    pub stage: DumpStageView,
}

impl View for DumpCall {
    type V = DumpView;

    open spec fn view(&self) -> DumpView {
        DumpView {
            device: self.device@,
            remote: self.remote@,
            keep_remote: self.keep_remote,
            recovers: self.recovers,
            stage: self.stage@,
        }
    }
}

/// What the progress of a dump holds.
pub open spec fn dump_progress(p: Progress<DumpCall, UiDump>) -> ProgressView<
    DumpView,
    UiDumpView,
> {
    match p {
        Progress::Run(request, call) => ProgressView::Run(request@, call@),
        Progress::Done(dump) => ProgressView::Done(dump@),
        Progress::Fail(error) => ProgressView::Fail(error@),
    }
}

/// The arguments of adb that dump the user interface to a file on the device.
pub open spec fn dump_args(compressed: bool, remote: Seq<char>) -> Seq<Seq<char>> {
    if compressed {
        seq!["shell"@, "uiautomator"@, "dump"@, "--compressed"@, remote]
    } else {
        seq!["shell"@, "uiautomator"@, "dump"@, remote]
    }
}

/// The arguments of adb that read a file on the device.
pub open spec fn read_args(remote: Seq<char>) -> Seq<Seq<char>> {
    seq!["exec-out"@, "cat"@, remote]
}

/// The arguments of adb that remove a file on the device.
pub open spec fn remove_args(remote: Seq<char>) -> Seq<Seq<char>> {
    seq!["shell"@, "rm"@, "-f"@, remote]
}

/// What a failed run of adb said: its errors or, where there are none, its output.
pub open spec fn failure_text(output: OutputView) -> Seq<char> {
    if trimmed(output.stderr).len() == 0 {
        trimmed(output.stdout)
    } else {
        trimmed(output.stderr)
    }
}

/// Picks what a failed run of adb said.
fn failure_string(output: &AdbOutput) -> (said: String)
    ensures
        said@ == failure_text(output@),
{
    let errors = trim(output.stderr.as_str());
    if errors.as_str().is_empty() {
        trim(output.stdout.as_str())
    } else {
        errors
    }
}

/// A dump as it begins.
pub open spec fn dump_begin(
    device: Seq<char>,
    compressed: bool,
    remote: Seq<char>,
    keep_remote: bool,
    recovers: bool,
) -> DumpView {
    DumpView {
        device,
        remote,
        keep_remote,
        recovers,
        stage: DumpStageView::Dumping(
            adb_command(Some(device), dump_args(compressed, remote), recovers),
        ),
    }
}

/// A dump at another stage.
pub open spec fn dump_at(call: DumpView, stage: DumpStageView) -> DumpView {
    DumpView { stage, ..call }
}

/// What comes of the file that was read.
pub open spec fn dump_read(read: OutputView) -> ProgressView<DumpView, UiDumpView> {
    if !succeeded(read) {
        ProgressView::Fail("failed to read UI dump: "@ + failure_text(read))
    } else {
        match parsed_ui(read.stdout) {
            Ok(nodes) => ProgressView::Done(UiDumpView { xml: read.stdout, nodes }),
            Err(error) => ProgressView::Fail(error),
        }
    }
}

/// The step of a dump whose next adb command this is.
pub open spec fn dump_runs(call: DumpView, next: AdbCallView, stage: DumpStageView) -> ProgressView<
    DumpView,
    UiDumpView,
> {
    ProgressView::Run(own_run(next), dump_at(call, stage))
}

/// How a dump goes on after a run of adb. The file is removed, unless it is to be kept, as soon as
/// it was read; what comes of removing it does not matter.
pub open spec fn dump_next(adb: Seq<char>, call: DumpView, run: Option<OutputView>) -> ProgressView<
    DumpView,
    UiDumpView,
> {
    match call.stage {
        DumpStageView::Dumping(inner) => match adb_next(adb, inner, run) {
            ProgressView::Run(request, inner) => ProgressView::Run(
                request,
                dump_at(call, DumpStageView::Dumping(inner)),
            ),
            ProgressView::Fail(error) => ProgressView::Fail(error),
            ProgressView::Done(output) => if succeeded(output) {
                let next = adb_command(Some(call.device), read_args(call.remote), call.recovers);
                dump_runs(call, next, DumpStageView::Reading(next))
            } else {
                ProgressView::Fail("uiautomator dump failed: "@ + failure_text(output))
            },
        },
        DumpStageView::Reading(inner) => match adb_next(adb, inner, run) {
            ProgressView::Run(request, inner) => ProgressView::Run(
                request,
                dump_at(call, DumpStageView::Reading(inner)),
            ),
            ProgressView::Fail(error) => ProgressView::Fail(error),
            ProgressView::Done(read) => if call.keep_remote {
                dump_read(read)
            } else {
                let next = adb_command(Some(call.device), remove_args(call.remote), call.recovers);
                dump_runs(call, next, DumpStageView::Removing(next, read))
            },
        },
        DumpStageView::Removing(inner, read) => match adb_next(adb, inner, run) {
            ProgressView::Run(request, inner) => ProgressView::Run(
                request,
                dump_at(call, DumpStageView::Removing(inner, read)),
            ),
            ProgressView::Fail(_) => dump_read(read),
            ProgressView::Done(_) => dump_read(read),
        },
    }
}

/// Begins a dump of the user interface of a device.
pub fn dump_ui(
    device: &str,
    compressed: bool,
    remote: &str,
    keep_remote: bool,
    recovers: bool,
) -> (begun: (AdbRequest, DumpCall))
    ensures
        begun.1@ == dump_begin(device@, compressed, remote@, keep_remote, recovers),
        begun.0@ == own_run(
            adb_command(Some(device@), dump_args(compressed, remote@), recovers),
        ),
{
    let mut args = strings(&["shell", "uiautomator", "dump"]);
    if compressed {
        add_text(&mut args, "--compressed".to_string());
    }
    add_text(&mut args, remote.to_string());
    assert(texts(args@) =~= dump_args(compressed, remote@));
    let (request, call) = AdbCall::begin(Some(device.to_string()), args, recovers);
    (
        request,
        DumpCall {
            device: device.to_string(),
            remote: remote.to_string(),
            keep_remote,
            recovers,
            stage: DumpStage::Dumping(call),
        },
    )
}

/// Takes over the file that was read.
fn take_dump(read: AdbOutput) -> (next: Progress<DumpCall, UiDump>)
    ensures
        dump_progress(next) == dump_read(read@),
{
    if !read.success() {
        return Progress::Fail(cat2("failed to read UI dump: ", failure_string(&read).as_str()));
    }
    match parse_ui_nodes(read.stdout.as_str()) {
        Ok(nodes) => Progress::Done(UiDump { xml: read.stdout, nodes }),
        Err(error) => Progress::Fail(error),
    }
}

impl DumpCall {
    /// Goes on with a dump after a run of adb.
    pub fn resume(self, adb: &str, run: Option<AdbOutput>) -> (next: Progress<DumpCall, UiDump>)
        ensures
            dump_progress(next) == dump_next(adb@, self@, run_view(run)),
    {
        let device = self.device;
        let remote = self.remote;
        let keep_remote: bool = self.keep_remote;
        let recovers: bool = self.recovers;
        match self.stage {
            DumpStage::Dumping(inner) => match inner.resume(adb, run) {
                Progress::Run(request, inner) => Progress::Run(
                    request,
                    DumpCall {
                        device,
                        remote,
                        keep_remote,
                        recovers,
                        stage: DumpStage::Dumping(inner),
                    },
                ),
                Progress::Fail(error) => Progress::Fail(error),
                Progress::Done(output) => {
                    if !output.success() {
                        return Progress::Fail(
                            cat2("uiautomator dump failed: ", failure_string(&output).as_str()),
                        );
                    }
                    let args = strings(&["exec-out", "cat", remote.as_str()]);
                    assert(texts(args@) =~= read_args(remote@));
                    let (request, inner) = AdbCall::begin(Some(device.clone()), args, recovers);
                    Progress::Run(
                        request,
                        DumpCall {
                            device,
                            remote,
                            keep_remote,
                            recovers,
                            stage: DumpStage::Reading(inner),
                        },
                    )
                },
            },
            DumpStage::Reading(inner) => match inner.resume(adb, run) {
                Progress::Run(request, inner) => Progress::Run(
                    request,
                    DumpCall {
                        device,
                        remote,
                        keep_remote,
                        recovers,
                        stage: DumpStage::Reading(inner),
                    },
                ),
                Progress::Fail(error) => Progress::Fail(error),
                Progress::Done(read) => {
                    if keep_remote {
                        return take_dump(read);
                    }
                    let args = strings(&["shell", "rm", "-f", remote.as_str()]);
                    assert(texts(args@) =~= remove_args(remote@));
                    let (request, inner) = AdbCall::begin(Some(device.clone()), args, recovers);
                    Progress::Run(
                        request,
                        DumpCall {
                            device,
                            remote,
                            keep_remote,
                            recovers,
                            stage: DumpStage::Removing(inner, read),
                        },
                    )
                },
            },
            DumpStage::Removing(inner, read) => match inner.resume(adb, run) {
                Progress::Run(request, inner) => Progress::Run(
                    request,
                    DumpCall {
                        device,
                        remote,
                        keep_remote,
                        recovers,
                        stage: DumpStage::Removing(inner, read),
                    },
                ),
                Progress::Fail(_) => take_dump(read),
                Progress::Done(_) => take_dump(read),
            },
        }
    }
}

/// What a dump tells is what was read of the file: its text, and the nodes of the user interface in
/// the XML document that it is.
pub proof fn law_dump_tells_what_was_read(
    adb: Seq<char>,
    call: DumpView,
    read: OutputView,
    document: Seq<XmlView>,
)
    requires
        call.stage matches DumpStageView::Reading(inner) && !(inner.stage is Recovering),
        call.keep_remote,
        read.exit_code == Some(0i32),
        xml_document(read.stdout) == Some(document),
    ensures
        ({
            let end = dump_next(adb, call, Some(read));
            &&& end is Done
            &&& end->Done_0.xml == read.stdout
            &&& end->Done_0.nodes == ui_nodes(document, document.len() as int)
        }),
{
}

/// Removing the file changes nothing: a dump whose file is to be removed ends as one whose file is
/// kept, whatever comes of removing it.
pub proof fn law_removing_the_file_changes_nothing(
    adb: Seq<char>,
    call: DumpView,
    read: OutputView,
    removed: Option<OutputView>,
)
    requires
        call.stage matches DumpStageView::Reading(inner) && !(inner.stage is Recovering)
            && !inner.recovers,
        !call.keep_remote,
        !call.recovers,
    ensures
        ({
            let removal = dump_next(adb, call, Some(read));
            let kept = dump_next(adb, DumpView { keep_remote: true, ..call }, Some(read));
            &&& removal is Run
            &&& dump_next(adb, removal->Run_1, removed) == kept
        }),
{
}

/// A dump that adb failed at is a failure, and so is a file that could not be read, or that is no
/// well-formed XML.
pub proof fn law_failed_dumps_are_failures(adb: Seq<char>, call: DumpView, output: OutputView)
    requires
        output.exit_code != Some(0i32),
        ({
            ||| call.stage matches DumpStageView::Dumping(inner) && inner.stage is Retry
            ||| call.stage matches DumpStageView::Reading(inner) && inner.stage is Retry
                && call.keep_remote
        }),
    ensures
        dump_next(adb, call, Some(output)) is Fail,
{
}

/// A dump that failed says at what, and what adb said: its errors, without the white space around
/// them, or its output where it wrote none.
pub proof fn law_failed_dumps_say_what_adb_said(adb: Seq<char>, call: DumpView, output: OutputView)
    requires
        output.exit_code != Some(0i32),
        ({
            ||| call.stage matches DumpStageView::Dumping(inner) && inner.stage is Retry
            ||| call.stage matches DumpStageView::Reading(inner) && inner.stage is Retry
                && call.keep_remote
        }),
    ensures
        ({
            let error = dump_next(adb, call, Some(output))->Fail_0;
            let at = if call.stage is Dumping {
                "uiautomator dump failed: "@
            } else {
                "failed to read UI dump: "@
            };
            &&& trimmed(output.stderr).len() > 0 ==> error == at + trimmed(output.stderr)
            &&& trimmed(output.stderr).len() == 0 ==> error == at + trimmed(output.stdout)
        }),
{
}

/// What was read and is no XML document is a failure.
pub proof fn law_dumps_are_xml(adb: Seq<char>, call: DumpView, read: OutputView)
    requires
        call.stage matches DumpStageView::Reading(inner) && !(inner.stage is Recovering),
        call.keep_remote,
        read.exit_code == Some(0i32),
        xml_document(read.stdout) is None,
    ensures
        dump_next(adb, call, Some(read)) == ProgressView::<DumpView, UiDumpView>::Fail(
            "failed to parse uiautomator XML"@,
        ),
{
}

} // verus!
