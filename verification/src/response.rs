//! What a command answers, and what of it is written where.

use vstd::prelude::*;

use crate::devices::device_views;
use crate::devices::DeviceInfo;
use crate::devices::DeviceView;
use crate::session::SessionMap;
use crate::session::SessionState;
use crate::session::SessionView;
use crate::text::cat2;
use crate::text::cat3;
use crate::text::contains_in_order;
use crate::text::contains_text;
use crate::text::found_in;
use crate::text::holds;
use crate::text::holds_in_order;
use crate::text::law_search_finds_every_occurrence;
use crate::text::lines;
use crate::text::lower;
use crate::text::opt_string;
use crate::text::split_lines;
use crate::text::texts;
use crate::text::to_lower;
use crate::text::trim;
use crate::text::trimmed;
use crate::ui::ui_views;
use crate::ui::UiNode;
use crate::ui::UiView;

verus! {

/// What a run of adb gave: its exit code, none where a signal ended it, and what it wrote.
#[derive(Debug)]
pub struct AdbOutput {
    pub exit_code: Option<i32>,
    pub stdout: String,
    pub stderr: String,
}

/// What an `AdbOutput` holds.
#[verifier::ext_equal]
pub struct OutputView {
    pub exit_code: Option<i32>,
    pub stdout: Seq<char>,
    pub stderr: Seq<char>,
}

impl View for AdbOutput {
    type V = OutputView;

    open spec fn view(&self) -> OutputView {
        OutputView { exit_code: self.exit_code, stdout: self.stdout@, stderr: self.stderr@ }
    }
}

/// Whether a run of adb succeeded.
pub open spec fn succeeded(output: OutputView) -> bool {
    output.exit_code == Some(0i32)
}

impl AdbOutput {
    /// Whether the run succeeded.
    pub fn success(&self) -> (yes: bool)
        ensures
            yes == succeeded(self@),
    {
        match self.exit_code {
            Some(code) => code == 0,
            None => false,
        }
    }
}

/// What a run of adb wrote, in lower case: the output, a line feed, and the errors.
pub open spec fn complaint(output: OutputView) -> Seq<char> {
    lower(output.stdout + "\n"@ + output.stderr)
}

/// Whether a run of adb complains of a device that is not authorized.
pub open spec fn complains_unauthorized(output: OutputView) -> bool {
    holds(complaint(output), "unauthorized"@)
}

/// Whether a line says, as adb does, that a device is not found: the device may be named between
/// quotes.
pub open spec fn tells_of_missing_device(line: Seq<char>) -> bool {
    holds(line, "device not found"@) || holds_in_order(line, "device '"@, "' not found"@)
}

/// Whether a text has a line that says that a device is not found.
pub open spec fn misses_device(said: Seq<char>) -> bool {
    exists|i: int| 0 <= i < lines(said).len() && tells_of_missing_device(#[trigger] lines(said)[i])
}

/// Decides `misses_device`.
fn says_device_missing(said: &str) -> (yes: bool)
    ensures
        yes == misses_device(said@),
{
    let all = split_lines(said);
    let mut i: usize = 0;
    while i < all.len()
        invariant
            texts(all@) == lines(said@),
            i <= all.len(),
            forall|j: int| 0 <= j < i ==> !tells_of_missing_device(#[trigger] lines(said@)[j]),
        decreases all.len() - i,
    {
        assert(lines(said@)[i as int] == all@[i as int]@);
        let line = all[i].as_str();
        if contains_text(line, "device not found") || contains_in_order(
            line,
            "device '",
            "' not found",
        ) {
            return true;
        }
        i += 1;
    }
    assert(texts(all@).len() == all@.len());
    false
}

/// Whether a run of adb complains of what a restart of its server may mend: a device that is
/// missing or offline, and not one that is not authorized.
pub open spec fn recoverable(output: OutputView) -> bool {
    let said = complaint(output);
    &&& !complains_unauthorized(output)
    &&& {
        ||| holds(said, "offline"@)
        ||| misses_device(said)
        ||| holds(said, "no devices/emulators found"@)
        ||| holds(said, "device disconnected"@)
        ||| holds(said, "failed to get feature set"@)
    }
}

/// Decides `recoverable`.
pub fn is_recoverable_adb_error(output: &AdbOutput) -> (yes: bool)
    ensures
        yes == recoverable(output@),
{
    let all = cat3(output.stdout.as_str(), "\n", output.stderr.as_str());
    let said = to_lower(all.as_str());
    if contains_text(said.as_str(), "unauthorized") {
        return false;
    }
    contains_text(said.as_str(), "offline") || says_device_missing(said.as_str())
        || contains_text(said.as_str(), "no devices/emulators found") || contains_text(
        said.as_str(),
        "device disconnected",
    ) || contains_text(said.as_str(), "failed to get feature set")
}

/// What a recovery found and did.
#[derive(Debug)]
pub struct RecoverReport {
    pub expected_device: Option<String>,
    pub restarted_server: bool,
    pub reconnected_tcp: bool,
    pub before: Vec<DeviceInfo>,
    pub after: Vec<DeviceInfo>,
}

/// What a `RecoverReport` holds.
#[verifier::ext_equal]
pub struct ReportView {
    pub expected_device: Option<Seq<char>>,
    pub restarted_server: bool,
    pub reconnected_tcp: bool,
    pub before: Seq<DeviceView>,
    pub after: Seq<DeviceView>,
}

impl View for RecoverReport {
    type V = ReportView;

    open spec fn view(&self) -> ReportView {
        ReportView {
            expected_device: opt_string(self.expected_device),
            restarted_server: self.restarted_server,
            reconnected_tcp: self.reconnected_tcp,
            before: device_views(self.before@),
            after: device_views(self.after@),
        }
    }
}

/// The formats in which a screenshot is written.
#[derive(Clone, Copy, Debug, PartialEq, Eq, Structural)]
pub enum ScreenshotFormat {
    Jpeg,
    Png,
}

/// What a screenshot came to. The scale of a side is the original side over the output side.
#[derive(Debug)]
pub struct ScreenshotResult {
    pub path: String,
    pub format: ScreenshotFormat,
    pub original_width: u32,
    pub original_height: u32,
    pub output_width: u32,
    pub output_height: u32,
    pub file_bytes: u64,
}

/// What a `ScreenshotResult` holds.
pub struct ShotView {
    pub path: Seq<char>,
    pub format: ScreenshotFormat,
    pub original_width: u32,
    pub original_height: u32,
    pub output_width: u32,
    pub output_height: u32,
    pub file_bytes: u64,
}

impl View for ScreenshotResult {
    type V = ShotView;

    open spec fn view(&self) -> ShotView {
        ShotView {
            path: self.path@,
            format: self.format,
            original_width: self.original_width,
            original_height: self.original_height,
            output_width: self.output_width,
            output_height: self.output_height,
            file_bytes: self.file_bytes,
        }
    }
}

/// One value in the data of an answer.
#[derive(Debug)]
pub enum Datum {
    Flag(bool),
    Int(i32),
    Millis(Option<u32>),
    Count(usize),
    Text(String),
    Maybe(Option<String>),
    Texts(Vec<String>),
    Devices(Vec<DeviceInfo>),
    Nodes(Vec<UiNode>),
    Session(Option<SessionState>),
    Sessions(SessionMap),
    Report(RecoverReport),
    Shot(ScreenshotResult),
    /// How a point of a preview maps to a point of the device.
    Mapping(String, String),
}

/// What a `Datum` holds.
#[verifier::ext_equal]
pub enum DatumView {
    Flag(bool),
    Int(int),
    Millis(Option<u32>),
    Count(nat),
    Text(Seq<char>),
    Maybe(Option<Seq<char>>),
    Texts(Seq<Seq<char>>),
    Devices(Seq<DeviceView>),
    Nodes(Seq<UiView>),
    Session(Option<SessionView>),
    Sessions(Map<Seq<char>, SessionView>),
    Report(ReportView),
    Shot(ShotView),
    Mapping(Seq<char>, Seq<char>),
}

impl View for Datum {
    type V = DatumView;

    open spec fn view(&self) -> DatumView {
        match self {
            Datum::Flag(b) => DatumView::Flag(*b),
            Datum::Int(n) => DatumView::Int(*n as int),
            Datum::Millis(n) => DatumView::Millis(*n),
            Datum::Count(n) => DatumView::Count(*n as nat),
            Datum::Text(s) => DatumView::Text(s@),
            Datum::Maybe(o) => DatumView::Maybe(opt_string(*o)),
            Datum::Texts(list) => DatumView::Texts(texts(list@)),
            Datum::Devices(list) => DatumView::Devices(device_views(list@)),
            Datum::Nodes(list) => DatumView::Nodes(ui_views(list@)),
            Datum::Session(o) => DatumView::Session(
                match *o {
                    Some(session) => Some(session@),
                    None => None,
                },
            ),
            Datum::Sessions(map) => DatumView::Sessions(map@),
            Datum::Report(report) => DatumView::Report(report@),
            Datum::Shot(shot) => DatumView::Shot(shot@),
            Datum::Mapping(x, y) => DatumView::Mapping(x@, y@),
        }
    }
}

/// One field in the data of an answer.
#[derive(Debug)]
pub struct Field {
    pub key: &'static str,
    pub value: Datum,
}

/// The data of an answer: keys and values.
pub open spec fn field_views(list: Seq<Field>) -> Seq<(Seq<char>, DatumView)> {
    list.map_values(|f: Field| (f.key@, f.value@))
}

/// What a command answers.
#[derive(Debug)]
pub struct Response {
    pub ok: bool,
    pub action: String,
    pub device: Option<String>,
    pub exit_code: Option<i32>,
    pub stdout: String,
    pub stderr: String,
    pub data: Vec<Field>,
    pub error: Option<String>,
}

/// What a `Response` holds.
#[verifier::ext_equal]
pub struct ResponseView {
    pub ok: bool,
    pub action: Seq<char>,
    pub device: Option<Seq<char>>,
    pub exit_code: Option<i32>,
    pub stdout: Seq<char>,
    pub stderr: Seq<char>,
    pub data: Seq<(Seq<char>, DatumView)>,
    pub error: Option<Seq<char>>,
}

impl View for Response {
    type V = ResponseView;

    open spec fn view(&self) -> ResponseView {
        ResponseView {
            ok: self.ok,
            action: self.action@,
            device: opt_string(self.device),
            exit_code: self.exit_code,
            stdout: self.stdout@,
            stderr: self.stderr@,
            data: field_views(self.data@),
            error: opt_string(self.error),
        }
    }
}

/// What is said of a failure: the errors that were written, or `otherwise` where there are none.
pub open spec fn errors_or(stderr: Seq<char>, otherwise: Seq<char>) -> Seq<char> {
    if trimmed(stderr).len() == 0 {
        otherwise
    } else {
        trimmed(stderr)
    }
}

/// Picks what is said of a failure.
pub fn errors_or_text(stderr: &str, otherwise: &str) -> (said: String)
    ensures
        said@ == errors_or(stderr@, otherwise@),
{
    let said = trim(stderr);
    if said.as_str().is_empty() {
        otherwise.to_string()
    } else {
        said
    }
}

/// The error of a run of adb, none where it succeeded.
pub open spec fn output_error(output: OutputView) -> Option<Seq<char>> {
    if succeeded(output) {
        None
    } else if complains_unauthorized(output) {
        Some(
            "device is unauthorized; unlock the phone and accept the USB debugging RSA authorization prompt"@,
        )
    } else {
        Some(errors_or(output.stderr, "adb command failed"@))
    }
}

/// The answer that a run of adb gives.
pub open spec fn answer_from(
    action: Seq<char>,
    device: Option<Seq<char>>,
    output: OutputView,
    data: Seq<(Seq<char>, DatumView)>,
) -> ResponseView {
    ResponseView {
        ok: succeeded(output),
        action,
        device,
        exit_code: output.exit_code,
        stdout: output.stdout,
        stderr: output.stderr,
        data,
        error: output_error(output),
    }
}

/// Makes the answer out of a run of adb.
pub fn response_from_output(
    action: &str,
    device: Option<String>,
    output: AdbOutput,
    data: Vec<Field>,
) -> (response: Response)
    ensures
        response@ == answer_from(action@, opt_string(device), output@, field_views(data@)),
{
    let ok: bool = output.success();
    let error: Option<String> = if ok {
        None
    } else {
        let all = cat3(output.stdout.as_str(), "\n", output.stderr.as_str());
        if contains_text(to_lower(all.as_str()).as_str(), "unauthorized") {
            Some(
                "device is unauthorized; unlock the phone and accept the USB debugging RSA authorization prompt".to_string(),
            )
        } else {
            Some(errors_or_text(output.stderr.as_str(), "adb command failed"))
        }
    };
    Response {
        ok,
        action: action.to_string(),
        device,
        exit_code: output.exit_code,
        stdout: output.stdout,
        stderr: output.stderr,
        data,
        error,
    }
}

/// An answer without a run of adb behind it: all is well.
pub open spec fn good_answer(
    action: Seq<char>,
    device: Option<Seq<char>>,
    stdout: Seq<char>,
    data: Seq<(Seq<char>, DatumView)>,
) -> ResponseView {
    ResponseView {
        ok: true,
        action,
        device,
        exit_code: Some(0i32),
        stdout,
        stderr: Seq::empty(),
        data,
        error: None,
    }
}

/// Makes an answer without a run of adb behind it: all is well.
pub fn good_response(
    action: &str,
    device: Option<String>,
    stdout: String,
    data: Vec<Field>,
) -> (response: Response)
    ensures
        response@ == good_answer(action@, opt_string(device), stdout@, field_views(data@)),
{
    Response {
        ok: true,
        action: action.to_string(),
        device,
        exit_code: Some(0),
        stdout,
        stderr: String::new(),
        data,
        error: None,
    }
}

/// The answer to a command that could not be carried out.
pub open spec fn error_answer(device: Option<Seq<char>>, error: Seq<char>) -> ResponseView {
    ResponseView {
        ok: false,
        action: "error"@,
        device,
        exit_code: None,
        stdout: Seq::empty(),
        stderr: Seq::empty(),
        data: Seq::empty(),
        error: Some(error),
    }
}

/// Makes the answer to a command that could not be carried out.
pub fn error_response(device: Option<String>, error: String) -> (response: Response)
    ensures
        response@ == error_answer(opt_string(device), error@),
{
    let response = Response {
        ok: false,
        action: "error".to_string(),
        device,
        exit_code: None,
        stdout: String::new(),
        stderr: String::new(),
        data: Vec::new(),
        error: Some(error),
    };
    assert(field_views(response.data@) =~= Seq::empty());
    response
}

/// The formats in which an answer is written.
#[derive(Clone, Copy, Debug, PartialEq, Eq, Structural)]
pub enum OutputFormat {
    Text,
    Json,
}

/// What goes to the standard output.
#[derive(Debug)]
pub enum Written {
    Nothing,
    /// This text.
    Text(String),
    /// The data of the answer as indented JSON, and a line feed.
    PrettyData,
    /// The whole answer as indented JSON, and a line feed.
    PrettyResponse,
}

/// What is written for an answer.
#[derive(Debug)]
pub struct Emission {
    pub stdout: Written,
    pub stderr: String,
    /// The exit code of the process.
    pub exit_code: i32,
}

/// What goes to the standard error for an answer in text: nothing where all is well, else the
/// error on a line and what adb wrote.
pub open spec fn text_errors(response: ResponseView) -> Seq<char> {
    if response.ok {
        Seq::empty()
    } else {
        match response.error {
            Some(error) => error + "\n"@ + response.stderr,
            None => response.stderr,
        }
    }
}

/// Decides what is written for an answer. In text a good answer shows its output or, where it has
/// none, its data.
pub fn emit(format: OutputFormat, response: &Response) -> (emission: Emission)
    ensures
        emission.exit_code == if response.ok {
            0i32
        } else {
            1i32
        },
        format == OutputFormat::Json ==> emission.stdout is PrettyResponse && emission.stderr@
            == Seq::<char>::empty(),
        format == OutputFormat::Text ==> {
            &&& emission.stderr@ == text_errors(response@)
            &&& !response.ok ==> emission.stdout is Nothing
            &&& response.ok && response.stdout@.len() > 0 ==> (emission.stdout matches Written::Text(
                text,
            ) && text@ == response.stdout@)
            &&& response.ok && response.stdout@.len() == 0 && response.data@.len() > 0
                ==> emission.stdout is PrettyData
            &&& response.ok && response.stdout@.len() == 0 && response.data@.len() == 0
                ==> emission.stdout is Nothing
        },
{
    let exit_code: i32 = if response.ok {
        0
    } else {
        1
    };
    if matches!(format, OutputFormat::Json) {
        return Emission { stdout: Written::PrettyResponse, stderr: String::new(), exit_code };
    }
    if response.ok {
        let stdout = if !response.stdout.as_str().is_empty() {
            Written::Text(response.stdout.clone())
        } else if response.data.len() > 0 {
            Written::PrettyData
        } else {
            Written::Nothing
        };
        Emission { stdout, stderr: String::new(), exit_code }
    } else {
        let stderr = match &response.error {
            Some(error) => {
                let mut said = cat2(error.as_str(), "\n");
                said.append(response.stderr.as_str());
                said
            },
            None => response.stderr.clone(),
        };
        Emission { stdout: Written::Nothing, stderr, exit_code }
    }
}

/// A run of adb whose errors hold one of the complaints of a missing or offline device, whatever
/// stands around it and whatever the case of its letters, is one that a restart may mend, unless it
/// complains of a device that is not authorized.
pub proof fn law_lost_devices_are_recoverable(
    output: OutputView,
    ahead: Seq<char>,
    said: Seq<char>,
    behind: Seq<char>,
)
    requires
        output.stderr == ahead + said + behind || output.stdout == ahead + said + behind,
        ({
            ||| lower(said) == "offline"@
            ||| lower(said) == "no devices/emulators found"@
            ||| lower(said) == "device disconnected"@
            ||| lower(said) == "failed to get feature set"@
        }),
        !found_in(output.stdout + "\n"@ + output.stderr, "unauthorized"@),
    ensures
        recoverable(output),
{
    let all = output.stdout + "\n"@ + output.stderr;
    let none = Seq::<char>::empty();
    reveal_strlit("unauthorized");
    assert(lower("unauthorized"@) =~= "unauthorized"@);
    law_search_finds_every_occurrence(all, "unauthorized"@, none, none);
    if output.stderr == ahead + said + behind {
        let before = output.stdout + "\n"@ + ahead;
        assert(all =~= before + said + behind);
        law_search_finds_every_occurrence(all, said, before, behind);
    } else {
        let after = behind + "\n"@ + output.stderr;
        assert(all =~= ahead + said + after);
        law_search_finds_every_occurrence(all, said, ahead, after);
    }
}

/// A complaint of a device that is not authorized, anywhere in what adb wrote and whatever the case
/// of its letters, is not one that a restart may mend; and a run that failed with it is answered
/// with what the user is to do.
pub proof fn law_unauthorized_runs_are_not_recoverable(
    output: OutputView,
    action: Seq<char>,
    device: Option<Seq<char>>,
    data: Seq<(Seq<char>, DatumView)>,
)
    requires
        found_in(output.stdout, "unauthorized"@) || found_in(output.stderr, "unauthorized"@),
    ensures
        !recoverable(output),
        output.exit_code != Some(0i32) ==> answer_from(action, device, output, data).error == Some(
            "device is unauthorized; unlock the phone and accept the USB debugging RSA authorization prompt"@,
        ),
{
    let q = "unauthorized"@;
    let n = q.len() as int;
    let all = output.stdout + "\n"@ + output.stderr;
    let none = Seq::<char>::empty();
    reveal_strlit("unauthorized");
    assert(lower(q) =~= q);
    law_search_finds_every_occurrence(all, q, none, none);
    if found_in(output.stdout, q) {
        let i = choose|i: int|
            0 <= i && i + n <= output.stdout.len() && lower(
                #[trigger] output.stdout.subrange(i, i + n),
            ) == lower(q);
        assert(all.subrange(i, i + n) =~= output.stdout.subrange(i, i + n));
    } else {
        let i = choose|i: int|
            0 <= i && i + n <= output.stderr.len() && lower(
                #[trigger] output.stderr.subrange(i, i + n),
            ) == lower(q);
        let at = output.stdout.len() + "\n"@.len() + i;
        assert(all.subrange(at, at + n) =~= output.stderr.subrange(i, i + n));
    }
}

/// The answer to a run of adb is good just where the run succeeded. It hands on the exit code and
/// what was written; where it is not good it has an error: what adb wrote to its errors, without
/// the white space around it, unless that is nothing or a complaint of authorization.
pub proof fn law_answers_hand_on_what_adb_said(
    action: Seq<char>,
    device: Option<Seq<char>>,
    output: OutputView,
    data: Seq<(Seq<char>, DatumView)>,
)
    ensures
        ({
            let answer = answer_from(action, device, output, data);
            let denied = found_in(output.stdout + "\n"@ + output.stderr, "unauthorized"@);
            &&& answer.ok <==> output.exit_code == Some(0i32)
            &&& answer.ok <==> answer.error is None
            &&& answer.action == action && answer.device == device && answer.data == data
            &&& answer.exit_code == output.exit_code
            &&& answer.stdout == output.stdout && answer.stderr == output.stderr
            &&& !answer.ok && !denied && trimmed(output.stderr).len() > 0 ==> answer.error == Some(
                trimmed(output.stderr),
            )
            &&& !answer.ok && !denied && trimmed(output.stderr).len() == 0 ==> answer.error == Some(
                "adb command failed"@,
            )
            &&& !answer.ok && denied ==> answer.error == Some(
                "device is unauthorized; unlock the phone and accept the USB debugging RSA authorization prompt"@,
            )
        }),
{
    let all = output.stdout + "\n"@ + output.stderr;
    let none = Seq::<char>::empty();
    reveal_strlit("unauthorized");
    assert(lower("unauthorized"@) =~= "unauthorized"@);
    law_search_finds_every_occurrence(all, "unauthorized"@, none, none);
}

/// A run of adb is one that a restart may mend just where it complains of a device that is offline,
/// disconnected or unknown to adb, or missing, and not of one that is not authorized: nothing else
/// that it says makes it so.
pub proof fn law_only_lost_devices_are_recoverable(output: OutputView)
    ensures
        ({
            let all = output.stdout + "\n"@ + output.stderr;
            recoverable(output) <==> {
                &&& !found_in(all, "unauthorized"@)
                &&& {
                    ||| found_in(all, "offline"@)
                    ||| found_in(all, "no devices/emulators found"@)
                    ||| found_in(all, "device disconnected"@)
                    ||| found_in(all, "failed to get feature set"@)
                    ||| exists|i: int|
                        0 <= i < lines(lower(all)).len() && (holds(
                            #[trigger] lines(lower(all))[i],
                            "device not found"@,
                        ) || holds_in_order(lines(lower(all))[i], "device '"@, "' not found"@))
                }
            }
        }),
{
    let all = output.stdout + "\n"@ + output.stderr;
    let none = Seq::<char>::empty();
    reveal_strlit("unauthorized");
    reveal_strlit("offline");
    reveal_strlit("no devices/emulators found");
    reveal_strlit("device disconnected");
    reveal_strlit("failed to get feature set");
    assert(lower("unauthorized"@) =~= "unauthorized"@);
    assert(lower("offline"@) =~= "offline"@);
    assert(lower("no devices/emulators found"@) =~= "no devices/emulators found"@);
    assert(lower("device disconnected"@) =~= "device disconnected"@);
    assert(lower("failed to get feature set"@) =~= "failed to get feature set"@);
    law_search_finds_every_occurrence(all, "unauthorized"@, none, none);
    law_search_finds_every_occurrence(all, "offline"@, none, none);
    law_search_finds_every_occurrence(all, "no devices/emulators found"@, none, none);
    law_search_finds_every_occurrence(all, "device disconnected"@, none, none);
    law_search_finds_every_occurrence(all, "failed to get feature set"@, none, none);
    let said = lines(lower(all));
    if misses_device(lower(all)) {
        let i = choose|i: int| 0 <= i < said.len() && tells_of_missing_device(#[trigger] said[i]);
        assert(holds(said[i], "device not found"@) || holds_in_order(
            said[i],
            "device '"@,
            "' not found"@,
        ));
    }
    if exists|i: int|
        0 <= i < said.len() && (holds(#[trigger] said[i], "device not found"@) || holds_in_order(
            said[i],
            "device '"@,
            "' not found"@,
        )) {
        let i = choose|i: int|
            0 <= i < said.len() && (holds(#[trigger] said[i], "device not found"@)
                || holds_in_order(said[i], "device '"@, "' not found"@));
        assert(tells_of_missing_device(said[i]));
    }
}

/// A good answer writes nothing among the errors; a failure writes its error on a line, and then
/// what adb wrote there.
pub proof fn law_failures_are_written_among_the_errors(response: ResponseView)
    ensures
        response.ok ==> text_errors(response).len() == 0,
        !response.ok && response.error is Some ==> text_errors(response) == response.error->0
            + "\n"@ + response.stderr,
        !response.ok && response.error is None ==> text_errors(response) == response.stderr,
{
}

/// An answer without a run of adb behind it is good and writes no errors; one to a command that
/// could not be carried out is a failure with its reason, and nothing else.
pub proof fn law_answers_without_a_run(
    action: Seq<char>,
    device: Option<Seq<char>>,
    stdout: Seq<char>,
    data: Seq<(Seq<char>, DatumView)>,
    error: Seq<char>,
)
    ensures
        ({
            let good = good_answer(action, device, stdout, data);
            &&& good.ok && good.exit_code == Some(0i32) && good.error is None
            &&& good.action == action && good.device == device
            &&& good.stdout == stdout && good.stderr.len() == 0 && good.data == data
        }),
        ({
            let failed = error_answer(device, error);
            &&& !failed.ok && failed.exit_code is None && failed.error == Some(error)
            &&& failed.action == "error"@ && failed.device == device
            &&& failed.stdout.len() == 0 && failed.stderr.len() == 0 && failed.data.len() == 0
        }),
{
}

} // verus!
