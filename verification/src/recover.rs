//! The answer to a recovery of the adb server.

use vstd::prelude::*;

use crate::adb::recovery;
use crate::adb::recovery_next;
use crate::commands::maybe_field;
use crate::devices::authorization_advice;
use crate::devices::authorization_hint;
use crate::devices::device_table;
use crate::devices::format_devices;
use crate::devices::healthy;
use crate::devices::is_device_healthy;
use crate::devices::lemma_advice;
use crate::devices::listed_devices;
use crate::devices::meant;
use crate::devices::ready;
use crate::devices::unauthorized;
use crate::response::field_views;
use crate::response::Datum;
use crate::response::DatumView;
use crate::response::Field;
use crate::response::OutputView;
use crate::response::RecoverReport;
use crate::response::ReportView;
use crate::response::Response;
use crate::response::ResponseView;
use crate::text::as_text;
use crate::text::copy_optional;

verus! {

/// What the user is told of a device that is not authorized: as it was found in the end, else as
/// it was found first.
pub open spec fn report_advice(report: ReportView) -> Option<Seq<char>> {
    match authorization_advice(report.expected_device, report.after) {
        Some(advice) => Some(advice),
        None => authorization_advice(report.expected_device, report.before),
    }
}

/// Whether a recovery left the device that is meant ready for use.
pub open spec fn recovered(report: ReportView) -> bool {
    report_advice(report) is None && healthy(report.expected_device, report.after)
}

/// The answer to a recovery.
pub open spec fn recover_answer(report: ReportView) -> ResponseView {
    ResponseView {
        ok: recovered(report),
        action: "recover"@,
        device: report.expected_device,
        exit_code: Some(
            if recovered(report) {
                0i32
            } else {
                1i32
            },
        ),
        stdout: device_table(report.after),
        stderr: Seq::empty(),
        data: seq![
            ("recover"@, DatumView::Report(report)),
            ("authorization_hint"@, DatumView::Maybe(report_advice(report))),
        ],
        error: if recovered(report) {
            None
        } else {
            match report_advice(report) {
                Some(advice) => Some(advice),
                None => Some(
                    "selected device is still missing or offline after adb server restart"@,
                ),
            }
        },
    }
}

/// Makes the answer to a recovery.
pub fn handle_recover(report: RecoverReport) -> (response: Response)
    ensures
        response@ == recover_answer(report@),
{
    let ghost answer = recover_answer(report@);
    let expected = copy_optional(&report.expected_device);
    let hint = match authorization_hint(as_text(&expected), report.after.as_slice()) {
        Some(advice) => Some(advice),
        None => authorization_hint(as_text(&expected), report.before.as_slice()),
    };
    let ok: bool = hint.is_none() && is_device_healthy(
        as_text(&expected),
        report.after.as_slice(),
    );
    let stdout = format_devices(report.after.as_slice());
    let error: Option<String> = if ok {
        None
    } else {
        match &hint {
            Some(advice) => Some(advice.clone()),
            None => Some(
                "selected device is still missing or offline after adb server restart".to_string(),
            ),
        }
    };
    let mut data: Vec<Field> = Vec::new();
    data.push(Field { key: "recover", value: Datum::Report(report) });
    data.push(maybe_field("authorization_hint", &hint));
    assert(field_views(data@) =~= answer.data);
    Response {
        ok,
        action: "recover".to_string(),
        device: expected,
        exit_code: Some(
            if ok {
                0
            } else {
                1
            },
        ),
        stdout,
        stderr: String::new(),
        data,
        error,
    }
}

/// A device that waits for authorization is left to the user: unless it is forced, a recovery does
/// not restart the server for it, and its answer is a failure that tells the user what to do.
pub proof fn law_unauthorized_is_left_to_the_user(
    adb: Seq<char>,
    expected: Option<Seq<char>>,
    wait_ms: u64,
    listed: OutputView,
    advice: Seq<char>,
)
    requires
        authorization_advice(expected, listed_devices(listed.stdout)) == Some(advice),
    ensures
        ({
            let end = recovery_next(adb, recovery(expected, false, wait_ms), Some(listed));
            &&& end is Done
            &&& !end->Done_0.restarted_server
            &&& !recover_answer(end->Done_0).ok
            &&& recover_answer(end->Done_0).error == Some(advice)
        }),
{
}

/// A recovery is answered as good just where the device that is meant is ready in the end, and
/// none that is meant waited for authorization.
pub proof fn law_recovered_means_ready(report: ReportView)
    ensures
        recover_answer(report).ok <==> {
            &&& exists|i: int|
                0 <= i < report.after.len() && #[trigger] meant(
                    report.expected_device,
                    report.after[i],
                ) && ready(report.after[i])
            &&& forall|i: int|
                0 <= i < report.after.len() && #[trigger] meant(
                    report.expected_device,
                    report.after[i],
                ) ==> !unauthorized(report.after[i])
            &&& forall|i: int|
                0 <= i < report.before.len() && #[trigger] meant(
                    report.expected_device,
                    report.before[i],
                ) ==> !unauthorized(report.before[i])
        },
{
    lemma_advice(report.expected_device, report.after, 0);
    lemma_advice(report.expected_device, report.before, 0);
}

/// The answer to a recovery lists the devices as they are in the end, is for the device that is
/// meant, and tells the report and what the user is to do; it fails with that, else because the
/// device is still missing or offline.
pub proof fn law_recovery_is_told(report: ReportView)
    ensures
        ({
            let answer = recover_answer(report);
            let last = authorization_advice(report.expected_device, report.after);
            let first = authorization_advice(report.expected_device, report.before);
            &&& answer.action == "recover"@
            &&& answer.device == report.expected_device
            &&& answer.stdout == device_table(report.after)
            &&& answer.data.contains(("recover"@, DatumView::Report(report)))
            &&& answer.ok <==> answer.exit_code == Some(0i32)
            &&& !answer.ok <==> answer.exit_code == Some(1i32)
            &&& last is Some ==> answer.error == last && answer.data.contains(
                ("authorization_hint"@, DatumView::Maybe(last)),
            )
            &&& last is None && first is Some ==> answer.error == first && answer.data.contains(
                ("authorization_hint"@, DatumView::Maybe(first)),
            )
            &&& last is None && first is None ==> answer.data.contains(
                ("authorization_hint"@, DatumView::Maybe(None)),
            )
            &&& last is None && first is None && !answer.ok ==> answer.error == Some(
                "selected device is still missing or offline after adb server restart"@,
            )
        }),
{
    let data = recover_answer(report).data;
    assert(data.contains(data[0]));
    assert(data.contains(data[1]));
}

} // verus!
