//! Taking a screenshot.

use vstd::prelude::*;

use crate::adb::list_args;
use crate::adb::over_tcp;
use crate::adb::plain_run;
use crate::adb::recover_adb_server;
use crate::adb::recovery;
use crate::adb::recovery_next;
use crate::adb::run_view;
use crate::adb::start_error;
use crate::adb::start_failure;
use crate::adb::Progress;
use crate::adb::ProgressView;
use crate::adb::RETRY_WAIT_MS;
use crate::adb::RecoverCall;
use crate::adb::RecoverView;
use crate::adb::RequestView;
use crate::commands::ShotOptions;
use crate::imaging::default_screenshot_path;
use crate::imaging::encode_preview;
use crate::imaging::encoded;
use crate::imaging::format_chosen;
use crate::imaging::image_content;
use crate::imaging::jpeg_file;
use crate::imaging::png_file;
use crate::imaging::resolve_screenshot_format;
use crate::imaging::rgb_content;
use crate::imaging::screenshot_name;
use crate::imaging::Preview;
use crate::response::is_recoverable_adb_error;
use crate::response::recoverable;
use crate::response::AdbOutput;
use crate::response::OutputView;
use crate::response::ScreenshotFormat;
use crate::response::ScreenshotResult;
use crate::response::ShotView;
use crate::steps::stray;
use crate::steps::stray_event;
use crate::steps::Action;
use crate::steps::ActionView;
use crate::steps::Capture;
use crate::steps::Event;
use crate::steps::Step;
use crate::steps::StepView;
use crate::text::as_text;
use crate::text::cat2;
use crate::text::opt_string;
use crate::text::strings;
use crate::text::texts;
use crate::text::trim;
use crate::text::trimmed;

verus! {

/// Whether a screenshot goes to a path, in a format: the path is the one that is asked for, else a
/// name after the time, with the extension of the format.
pub open spec fn shot_chosen(
    path: Option<Seq<char>>,
    requested: Option<ScreenshotFormat>,
    options: ShotOptions,
) -> bool {
    &&& format_chosen(path, requested, options.format)
    &&& match path {
        Some(path) => options.path@ == path,
        None => exists|now: u64| options.path@ == #[trigger] screenshot_name(now, options.format),
    }
}

/// Chooses the path and the format of a screenshot.
pub fn choose_shot(
    path: Option<String>,
    requested: Option<ScreenshotFormat>,
    max_width: u32,
    max_height: u32,
    quality: u8,
    full: bool,
) -> (options: ShotOptions)
    ensures
        shot_chosen(opt_string(path), requested, options),
        options.max_width == max_width,
        options.max_height == max_height,
        options.quality == quality,
        options.full == full,
{
    let format = resolve_screenshot_format(as_text(&path), requested);
    let path = match path {
        Some(path) => path,
        None => default_screenshot_path(format),
    };
    ShotOptions { path, format, max_width, max_height, quality, full }
}

/// The sizes of a preview: those of the screenshot and those at which it is written.
#[derive(Clone, Copy, Debug)]
pub struct ShotSizes {
    pub original_width: u32,
    pub original_height: u32,
    pub output_width: u32,
    pub output_height: u32,
}

/// How far a screenshot is: what the action is for that is under way.
#[derive(Debug)]
pub enum ShotStage {
    MakingDir,
    /// The screen is captured for the first time.
    Capturing,
    /// The server is recovered before the screen is captured again.
    Recovering(RecoverCall),
    /// The screen is captured for the second time.
    Recapturing,
    Decoding,
    Creating(Preview),
    Writing(ShotSizes),
    Measuring(ShotSizes),
}

/// What a `ShotStage` holds.
#[verifier::ext_equal]
pub enum ShotStageView {
    MakingDir,
    Capturing,
    Recovering(RecoverView),
    Recapturing,
    Decoding,
    Creating(Preview),
    Writing(ShotSizes),
    Measuring(ShotSizes),
}

impl View for ShotStage {
    type V = ShotStageView;

    open spec fn view(&self) -> ShotStageView {
        match self {
            ShotStage::MakingDir => ShotStageView::MakingDir,
            ShotStage::Capturing => ShotStageView::Capturing,
            ShotStage::Recovering(call) => ShotStageView::Recovering(call@),
            ShotStage::Recapturing => ShotStageView::Recapturing,
            ShotStage::Decoding => ShotStageView::Decoding,
            ShotStage::Creating(preview) => ShotStageView::Creating(*preview),
            ShotStage::Writing(sizes) => ShotStageView::Writing(*sizes),
            ShotStage::Measuring(sizes) => ShotStageView::Measuring(*sizes),
        }
    }
}

/// A screenshot under way.
#[derive(Debug)]
pub struct ShotCall {
    pub device: String,
    /// Whether a failure may be recovered from.
    pub recovers: bool,
    pub options: ShotOptions,
    pub stage: ShotStage,
}

/// What a `ShotCall` holds.
#[verifier::ext_equal]
pub struct ShotCallView {
    pub device: Seq<char>,
    pub recovers: bool,
    pub options: ShotOptions,
    pub stage: ShotStageView,
}

impl View for ShotCall {
    type V = ShotCallView;

    open spec fn view(&self) -> ShotCallView {
        ShotCallView {
            device: self.device@,
            recovers: self.recovers,
            options: self.options,
            stage: self.stage@,
        }
    }
}

/// What the step of a screenshot holds.
pub open spec fn shot_step(step: Step<ShotCall, ScreenshotResult>) -> StepView<
    ShotCallView,
    ShotView,
> {
    match step {
        Step::Do(action, call) => StepView::Do(action@, call@),
        Step::Done(result) => StepView::Done(result@),
        Step::Fail(error) => StepView::Fail(error@),
    }
}

/// The sizes of a preview.
pub open spec fn sizes_of(preview: Preview) -> ShotSizes {
    ShotSizes {
        original_width: preview.original_width,
        original_height: preview.original_height,
        output_width: preview.output_width,
        output_height: preview.output_height,
    }
}

/// The arguments of adb that take a screenshot.
pub open spec fn capture_args(device: Seq<char>) -> Seq<Seq<char>> {
    seq!["-s"@, device, "exec-out"@, "screencap"@, "-p"@]
}

/// A screenshot at another stage.
pub open spec fn shot_at(call: ShotCallView, stage: ShotStageView) -> ShotCallView {
    ShotCallView { stage, ..call }
}

/// The error of a file that could not be created.
pub open spec fn create_error(options: ShotOptions) -> Seq<char> {
    match options.format {
        ScreenshotFormat::Jpeg => "failed to create "@ + options.path@,
        ScreenshotFormat::Png => "failed to write PNG "@ + options.path@,
    }
}

/// The error of an image that could not be encoded to its file.
pub open spec fn encode_error(options: ShotOptions) -> Seq<char> {
    match options.format {
        ScreenshotFormat::Jpeg => "failed to encode JPEG "@ + options.path@,
        ScreenshotFormat::Png => "failed to write PNG "@ + options.path@,
    }
}

/// What a screenshot came to whose file has that length.
pub open spec fn shot_result(options: ShotOptions, sizes: ShotSizes, file_bytes: u64) -> ShotView {
    ShotView {
        path: options.path@,
        format: options.format,
        original_width: sizes.original_width,
        original_height: sizes.original_height,
        output_width: sizes.output_width,
        output_height: sizes.output_height,
        file_bytes,
    }
}

/// Whether a capture failed for a missing or offline device.
pub open spec fn lost_device(capture: Capture) -> bool {
    !capture.success && recoverable(
        OutputView { exit_code: None, stdout: Seq::empty(), stderr: capture.stderr@ },
    )
}

/// How a screenshot goes on with a capture: it is decoded, or failed.
pub open spec fn shot_captured(call: ShotCallView, capture: Capture) -> StepView<
    ShotCallView,
    ShotView,
> {
    if capture.success {
        StepView::Do(
            ActionView::Decode {
                file: capture.stdout@,
                max_width: call.options.max_width,
                max_height: call.options.max_height,
                full: call.options.full,
            },
            shot_at(call, ShotStageView::Decoding),
        )
    } else {
        StepView::Fail("screenshot failed: "@ + trimmed(capture.stderr@))
    }
}

/// How a screenshot goes on after an action: the directory is made, the screen captured, decoded
/// and fitted, the file created and written, and its length told. A first capture that failed for
/// a missing or offline device is followed by a recovery and a second capture, the last, where
/// that is allowed.
pub open spec fn shot_next(adb: Seq<char>, call: ShotCallView, event: Event) -> StepView<
    ShotCallView,
    ShotView,
> {
    match (call.stage, event) {
        (ShotStageView::MakingDir, Event::Dir(failed)) => match failed {
            Some(directory) => StepView::Fail("failed to create "@ + directory@),
            None => StepView::Do(
                ActionView::Capture(capture_args(call.device)),
                shot_at(call, ShotStageView::Capturing),
            ),
        },
        (ShotStageView::Capturing, Event::Captured(run)) => match run {
            None => StepView::Fail(start_error(adb)),
            Some(capture) => if call.recovers && lost_device(capture) {
                StepView::Do(
                    ActionView::Adb(plain_run(list_args())),
                    shot_at(
                        call,
                        ShotStageView::Recovering(
                            recovery(Some(call.device), true, RETRY_WAIT_MS),
                        ),
                    ),
                )
            } else {
                shot_captured(call, capture)
            },
        },
        (ShotStageView::Recovering(inner), Event::Ran(run)) => match recovery_next(
            adb,
            inner,
            run_view(run),
        ) {
            ProgressView::Run(request, inner) => StepView::Do(
                ActionView::Adb(request),
                shot_at(call, ShotStageView::Recovering(inner)),
            ),
            ProgressView::Done(_) => StepView::Do(
                ActionView::Capture(capture_args(call.device)),
                shot_at(call, ShotStageView::Recapturing),
            ),
            ProgressView::Fail(error) => StepView::Fail(error),
        },
        (ShotStageView::Recapturing, Event::Captured(run)) => match run {
            None => StepView::Fail(start_error(adb)),
            Some(capture) => shot_captured(call, capture),
        },
        (ShotStageView::Decoding, Event::Previewed(made)) => match made {
            None => StepView::Fail("failed to decode adb screenshot PNG"@),
            Some(preview) => StepView::Do(
                ActionView::CreateFile(call.options.path@),
                shot_at(call, ShotStageView::Creating(preview)),
            ),
        },
        (ShotStageView::Creating(preview), Event::Stored(created)) => if !created {
            StepView::Fail(create_error(call.options))
        } else {
            match encoded(
                image_content(preview.image),
                call.options.format,
                call.options.quality,
            ) {
                Some(file) => StepView::Do(
                    ActionView::WriteFile(call.options.path@, file),
                    shot_at(call, ShotStageView::Writing(sizes_of(preview))),
                ),
                None => StepView::Fail(encode_error(call.options)),
            }
        },
        (ShotStageView::Writing(sizes), Event::Stored(written)) => if !written {
            StepView::Fail(encode_error(call.options))
        } else {
            StepView::Do(
                ActionView::Measure(call.options.path@),
                shot_at(call, ShotStageView::Measuring(sizes)),
            )
        },
        (ShotStageView::Measuring(sizes), Event::Measured(length)) => match length {
            Some(file_bytes) => StepView::Done(shot_result(call.options, sizes, file_bytes)),
            None => StepView::Fail("failed to stat "@ + call.options.path@),
        },
        _ => StepView::Fail(stray_event()),
    }
}

/// A screenshot as it begins.
pub open spec fn shot_begin(
    device: Seq<char>,
    recovers: bool,
    options: ShotOptions,
) -> ShotCallView {
    ShotCallView { device, recovers, options, stage: ShotStageView::MakingDir }
}

/// Begins a screenshot of a device.
pub fn screenshot(device: String, recovers: bool, options: ShotOptions) -> (begun: (
    Action,
    ShotCall,
))
    ensures
        begun.0@ == ActionView::MakeDir(options.path@),
        begun.1@ == shot_begin(device@, recovers, options),
{
    let path = options.path.clone();
    (Action::MakeDir(path), ShotCall { device, recovers, options, stage: ShotStage::MakingDir })
}

/// The action that captures the screen.
fn capture_action(device: &str) -> (action: Action)
    ensures
        action@ == ActionView::Capture(capture_args(device@)),
{
    let args = strings(&["-s", device, "exec-out", "screencap", "-p"]);
    assert(texts(args@) =~= capture_args(device@));
    Action::Capture(args)
}

/// Takes over a capture.
fn take_capture(device: String, recovers: bool, options: ShotOptions, capture: Capture) -> (next:
    Step<ShotCall, ScreenshotResult>)
    ensures
        shot_step(next) == shot_captured(shot_begin(device@, recovers, options), capture),
{
    if !capture.success {
        return Step::Fail(
            cat2("screenshot failed: ", trim(capture.stderr.as_str()).as_str()),
        );
    }
    let action = Action::Decode {
        file: capture.stdout,
        max_width: options.max_width,
        max_height: options.max_height,
        full: options.full,
    };
    Step::Do(action, ShotCall { device, recovers, options, stage: ShotStage::Decoding })
}

/// Decides `lost_device`.
fn misses_its_device(capture: &Capture) -> (yes: bool)
    ensures
        yes == lost_device(*capture),
{
    if capture.success {
        return false;
    }
    let said = AdbOutput {
        exit_code: None,
        stdout: String::new(),
        stderr: capture.stderr.clone(),
    };
    assert(said@.stdout =~= Seq::empty());
    is_recoverable_adb_error(&said)
}

impl ShotCall {
    /// Goes on with a screenshot after an action.
    pub fn resume(self, adb: &str, event: Event) -> (next: Step<ShotCall, ScreenshotResult>)
        ensures
            shot_step(next) == shot_next(adb@, self@, event),
    {
        let device = self.device;
        let recovers: bool = self.recovers;
        let options = self.options;
        match (self.stage, event) {
            (ShotStage::MakingDir, Event::Dir(failed)) => match failed {
                Some(directory) => Step::Fail(cat2("failed to create ", directory.as_str())),
                None => {
                    let action = capture_action(device.as_str());
                    Step::Do(
                        action,
                        ShotCall { device, recovers, options, stage: ShotStage::Capturing },
                    )
                },
            },
            (ShotStage::Capturing, Event::Captured(run)) => match run {
                None => Step::Fail(start_failure(adb)),
                Some(capture) => {
                    if recovers && misses_its_device(&capture) {
                        let (request, inner) = recover_adb_server(
                            Some(device.clone()),
                            true,
                            RETRY_WAIT_MS,
                        );
                        return Step::Do(
                            Action::Adb(request),
                            ShotCall {
                                device,
                                recovers,
                                options,
                                stage: ShotStage::Recovering(inner),
                            },
                        );
                    }
                    take_capture(device, recovers, options, capture)
                },
            },
            (ShotStage::Recovering(inner), Event::Ran(run)) => match inner.resume(adb, run) {
                Progress::Run(request, inner) => Step::Do(
                    Action::Adb(request),
                    ShotCall { device, recovers, options, stage: ShotStage::Recovering(inner) },
                ),
                Progress::Done(_) => {
                    let action = capture_action(device.as_str());
                    Step::Do(
                        action,
                        ShotCall { device, recovers, options, stage: ShotStage::Recapturing },
                    )
                },
                Progress::Fail(error) => Step::Fail(error),
            },
            (ShotStage::Recapturing, Event::Captured(run)) => match run {
                None => Step::Fail(start_failure(adb)),
                Some(capture) => take_capture(device, recovers, options, capture),
            },
            (ShotStage::Decoding, Event::Previewed(made)) => match made {
                None => Step::Fail("failed to decode adb screenshot PNG".to_string()),
                Some(preview) => {
                    let path = options.path.clone();
                    Step::Do(
                        Action::CreateFile(path),
                        ShotCall { device, recovers, options, stage: ShotStage::Creating(preview) },
                    )
                },
            },
            (ShotStage::Creating(preview), Event::Stored(created)) => {
                if !created {
                    let head: &str = match options.format {
                        ScreenshotFormat::Jpeg => "failed to create ",
                        ScreenshotFormat::Png => "failed to write PNG ",
                    };
                    return Step::Fail(cat2(head, options.path.as_str()));
                }
                let sizes = ShotSizes {
                    original_width: preview.original_width,
                    original_height: preview.original_height,
                    output_width: preview.output_width,
                    output_height: preview.output_height,
                };
                match encode_preview(&preview, options.format, options.quality) {
                    Some(file) => {
                        let path = options.path.clone();
                        Step::Do(
                            Action::WriteFile(path, file),
                            ShotCall { device, recovers, options, stage: ShotStage::Writing(sizes) },
                        )
                    },
                    None => Step::Fail(encode_failure(&options)),
                }
            },
            (ShotStage::Writing(sizes), Event::Stored(written)) => {
                if !written {
                    return Step::Fail(encode_failure(&options));
                }
                let path = options.path.clone();
                Step::Do(
                    Action::Measure(path),
                    ShotCall { device, recovers, options, stage: ShotStage::Measuring(sizes) },
                )
            },
            (ShotStage::Measuring(sizes), Event::Measured(length)) => match length {
                Some(file_bytes) => Step::Done(
                    ScreenshotResult {
                        path: options.path,
                        format: options.format,
                        original_width: sizes.original_width,
                        original_height: sizes.original_height,
                        output_width: sizes.output_width,
                        output_height: sizes.output_height,
                        file_bytes,
                    },
                ),
                None => Step::Fail(cat2("failed to stat ", options.path.as_str())),
            },
            _ => Step::Fail(stray()),
        }
    }
}

/// Says that an image could not be encoded to its file.
fn encode_failure(options: &ShotOptions) -> (error: String)
    ensures
        error@ == encode_error(*options),
{
    let head: &str = match options.format {
        ScreenshotFormat::Jpeg => "failed to encode JPEG ",
        ScreenshotFormat::Png => "failed to write PNG ",
    };
    cat2(head, options.path.as_str())
}

/// A screen is captured again only where that is allowed and the first capture failed for a missing
/// or offline device, and then once: a second failure is the end.
pub proof fn law_one_more_capture_where_it_may_help(
    adb: Seq<char>,
    call: ShotCallView,
    run: Option<Capture>,
)
    ensures
        call.stage is Capturing ==> (shot_next(adb, call, Event::Captured(run)) matches StepView::Do(
            action,
            _,
        ) ==> action is Decode || (action is Adb && call.recovers && run is Some && lost_device(
            run->0,
        ))),
        call.stage is Recapturing ==> (shot_next(adb, call, Event::Captured(run)) matches StepView::Do(
            action,
            _,
        ) ==> action is Decode),
{
}

/// Where it is allowed, a screenshot whose first capture failed for a missing or offline device
/// has the server restarted, the device connected to again where it is reached over TCP, and the
/// screen captured once more; what that gives is decoded.
pub proof fn law_lost_screenshot_is_taken_again(
    adb: Seq<char>,
    call: ShotCallView,
    lost: Capture,
    listed: AdbOutput,
    killed: AdbOutput,
    started: AdbOutput,
    connected: AdbOutput,
    relisted: AdbOutput,
    again: Capture,
)
    requires
        call.stage is Capturing,
        call.recovers,
        lost_device(lost),
        again.success,
    ensures
        ({
            let list = shot_next(adb, call, Event::Captured(Some(lost)));
            let kill = shot_next(adb, list->Do_1, Event::Ran(Some(listed)));
            let start = shot_next(adb, kill->Do_1, Event::Ran(Some(killed)));
            let third = shot_next(adb, start->Do_1, Event::Ran(Some(started)));
            let relist = if over_tcp(call.device) {
                shot_next(adb, third->Do_1, Event::Ran(Some(connected)))
            } else {
                third
            };
            let recapture = shot_next(adb, relist->Do_1, Event::Ran(Some(relisted)));
            let decode = shot_next(adb, recapture->Do_1, Event::Captured(Some(again)));
            &&& list is Do && list->Do_0 == ActionView::Adb(plain_run(list_args()))
            &&& kill is Do && kill->Do_0 == ActionView::Adb(plain_run(seq!["kill-server"@]))
            &&& start is Do && start->Do_0 is Adb && start->Do_0->Adb_0.args
                == seq!["start-server"@] && start->Do_0->Adb_0.delay_ms == RETRY_WAIT_MS
            &&& over_tcp(call.device) ==> third is Do && third->Do_0 == ActionView::Adb(
                plain_run(seq!["connect"@, call.device]),
            )
            &&& relist is Do && relist->Do_0 == ActionView::Adb(plain_run(list_args()))
            &&& recapture is Do && recapture->Do_0 == ActionView::Capture(
                capture_args(call.device),
            )
            &&& decode is Do && decode->Do_0 is Decode && decode->Do_0->file == again.stdout@
        }),
{
}

/// A screenshot is captured from its device and decoded at the size that was asked for: the
/// directory of its path is made first.
pub proof fn law_screenshots_are_taken_as_asked(
    adb: Seq<char>,
    device: Seq<char>,
    recovers: bool,
    options: ShotOptions,
    capture: Capture,
)
    requires
        capture.success,
    ensures
        ({
            let begun = shot_begin(device, recovers, options);
            let captures = shot_next(adb, begun, Event::Dir(None));
            let decodes = shot_next(adb, captures->Do_1, Event::Captured(Some(capture)));
            &&& captures is Do && captures->Do_0 == ActionView::Capture(
                seq!["-s"@, device, "exec-out"@, "screencap"@, "-p"@],
            )
            &&& decodes is Do && decodes->Do_0 is Decode
            &&& decodes->Do_0->file == capture.stdout@
            &&& decodes->Do_0->max_width == options.max_width
            &&& decodes->Do_0->max_height == options.max_height
            &&& decodes->Do_0->full == options.full
        }),
{
    assert(capture_args(device) =~= seq!["-s"@, device, "exec-out"@, "screencap"@, "-p"@]);
}

/// What a screenshot has written is the encoding of its preview in the format of its options, PNG
/// where that is PNG, and JPEG at the quality that was asked for where it is JPEG. It is written to
/// the path of the options, and the answer reports that path, that format, the sizes of the
/// preview and the length of the file.
pub proof fn law_screenshots_are_written_as_reported(
    adb: Seq<char>,
    call: ShotCallView,
    preview: Preview,
    length: u64,
)
    requires
        call.stage is Decoding,
    ensures
        ({
            let path = call.options.path@;
            let content = image_content(preview.image);
            let creates = shot_next(adb, call, Event::Previewed(Some(preview)));
            let writes = shot_next(adb, creates->Do_1, Event::Stored(true));
            let measures = shot_next(adb, writes->Do_1, Event::Stored(true));
            let end = shot_next(adb, measures->Do_1, Event::Measured(Some(length)));
            let file = match call.options.format {
                ScreenshotFormat::Png => png_file(content),
                ScreenshotFormat::Jpeg => jpeg_file(rgb_content(content), call.options.quality),
            };
            &&& creates is Do && creates->Do_0 == ActionView::CreateFile(path)
            &&& file is None ==> writes is Fail
            &&& file is Some ==> {
                &&& writes is Do && writes->Do_0 == ActionView::WriteFile(path, file->0)
                &&& measures is Do && measures->Do_0 == ActionView::Measure(path)
                &&& end is Done
                &&& end->Done_0.path == path
                &&& end->Done_0.format == call.options.format
                &&& end->Done_0.original_width == preview.original_width
                &&& end->Done_0.original_height == preview.original_height
                &&& end->Done_0.output_width == preview.output_width
                &&& end->Done_0.output_height == preview.output_height
                &&& end->Done_0.file_bytes == length
            }
        }),
{
}

/// A first capture that failed with a complaint of a missing or offline device is followed by a
/// forced recovery of its device, where that is allowed; and no other capture is. The complaint is
/// what adb wrote among its errors, as for every other command.
pub proof fn law_lost_captures_are_recovered(adb: Seq<char>, call: ShotCallView, capture: Capture)
    requires
        call.stage is Capturing,
    ensures
        ({
            let next = shot_next(adb, call, Event::Captured(Some(capture)));
            let complains = recoverable(
                OutputView { exit_code: None, stdout: ""@, stderr: capture.stderr@ },
            );
            let mends = call.recovers && !capture.success && complains;
            &&& mends ==> next is Do && next->Do_0 == ActionView::Adb(
                RequestView { delay_ms: 0, device: None, args: seq!["devices"@, "-l"@] },
            )
            &&& mends ==> next->Do_1 == (ShotCallView {
                stage: ShotStageView::Recovering(recovery(Some(call.device), true, 700)),
                ..call
            })
            &&& !mends && !capture.success ==> next is Fail
            &&& capture.success ==> next is Do && next->Do_0 is Decode
        }),
{
    reveal_strlit("");
    assert(""@ =~= Seq::<char>::empty());
}

/// A screenshot that could not be taken fails with the reason: adb could not be started or failed
/// with its errors, the directory or the file could not be made, or what was captured or written
/// could not be read.
pub proof fn law_failed_screenshots_say_why(
    adb: Seq<char>,
    call: ShotCallView,
    capture: Capture,
    directory: String,
)
    ensures
        call.stage is MakingDir ==> shot_next(adb, call, Event::Dir(Some(directory)))
            == StepView::<ShotCallView, ShotView>::Fail("failed to create "@ + directory@),
        call.stage is Capturing || call.stage is Recapturing ==> shot_next(
            adb,
            call,
            Event::Captured(None),
        ) == StepView::<ShotCallView, ShotView>::Fail("failed to execute `"@ + adb + "`"@),
        call.stage is Recapturing && !capture.success ==> shot_next(
            adb,
            call,
            Event::Captured(Some(capture)),
        ) == StepView::<ShotCallView, ShotView>::Fail(
            "screenshot failed: "@ + trimmed(capture.stderr@),
        ),
        call.stage is Decoding ==> shot_next(adb, call, Event::Previewed(None)) == StepView::<
            ShotCallView,
            ShotView,
        >::Fail("failed to decode adb screenshot PNG"@),
        call.stage is Creating ==> shot_next(adb, call, Event::Stored(false)) == StepView::<
            ShotCallView,
            ShotView,
        >::Fail(
            (if call.options.format is Jpeg {
                "failed to create "@
            } else {
                "failed to write PNG "@
            }) + call.options.path@,
        ),
        call.stage is Writing ==> shot_next(adb, call, Event::Stored(false)) == StepView::<
            ShotCallView,
            ShotView,
        >::Fail(
            (if call.options.format is Jpeg {
                "failed to encode JPEG "@
            } else {
                "failed to write PNG "@
            }) + call.options.path@,
        ),
        call.stage is Measuring ==> shot_next(adb, call, Event::Measured(None)) == StepView::<
            ShotCallView,
            ShotView,
        >::Fail("failed to stat "@ + call.options.path@),
{
}

} // verus!
