//! The devices that adb lists: reading the list, judging it and printing it.

use vstd::prelude::*;

use crate::text::begins;
use crate::text::cat3;
use crate::text::cat4;
use crate::text::is_word;
use crate::text::join;
use crate::text::joined;
use crate::text::lemma_lines_grow;
use crate::text::lemma_word_is_one_word;
use crate::text::lemma_words_are_words;
use crate::text::lemma_words_of_joined;
use crate::text::lemma_words_part;
use crate::text::lines;
use crate::text::opt_string;
use crate::text::opt_text;
use crate::text::same_text;
use crate::text::split_lines;
use crate::text::split_words;
use crate::text::starts_with;
use crate::text::texts;
use crate::text::words;

verus! {

/// One device of the list that `adb devices -l` prints.
#[derive(Clone, Debug)]
pub struct DeviceInfo {
    pub serial: String,
    pub state: String,
    pub details: Vec<String>,
}

/// What a `DeviceInfo` holds.
#[verifier::ext_equal]
pub struct DeviceView {
    pub serial: Seq<char>,
    pub state: Seq<char>,
    pub details: Seq<Seq<char>>,
}

impl View for DeviceInfo {
    type V = DeviceView;

    open spec fn view(&self) -> DeviceView {
        DeviceView {
            serial: self.serial@,
            state: self.state@,
            details: texts(self.details@),
        }
    }
}

/// What the devices of a list hold.
pub open spec fn device_views(list: Seq<DeviceInfo>) -> Seq<DeviceView> {
    list.map_values(|d: DeviceInfo| d@)
}

/// The device on a line: its serial, its state and what else the line says of it. A line of
/// fewer than two words has no device.
pub open spec fn device_on(line: Seq<char>) -> Option<DeviceView> {
    let w = words(line);
    if w.len() >= 2 {
        Some(DeviceView { serial: w[0], state: w[1], details: w.skip(2) })
    } else {
        None
    }
}

/// The devices on lines, in order.
pub open spec fn devices_on(list: Seq<Seq<char>>) -> Seq<DeviceView>
    decreases list.len(),
{
    if list.len() == 0 {
        Seq::empty()
    } else {
        match device_on(list.last()) {
            Some(device) => devices_on(list.drop_last()).push(device),
            None => devices_on(list.drop_last()),
        }
    }
}

/// Whether a line heads the list of devices.
pub open spec fn is_header(line: Seq<char>) -> bool {
    begins(line, "List of devices attached"@)
}

/// The position of the first header from `i` on, or the number of lines.
pub open spec fn header_from(list: Seq<Seq<char>>, i: int) -> int
    decreases list.len() - i,
{
    if 0 <= i < list.len() && !is_header(list[i]) {
        header_from(list, i + 1)
    } else {
        i
    }
}

/// The devices that the output of `adb devices` lists: those on the lines below the first header.
pub open spec fn listed_devices(output: Seq<char>) -> Seq<DeviceView> {
    let all = lines(output);
    let header = header_from(all, 0);
    if header < all.len() {
        devices_on(all.skip(header + 1))
    } else {
        Seq::empty()
    }
}

/// Reads the device on a line.
fn parse_device(line: &str) -> (device: Option<DeviceInfo>)
    ensures
        device matches Some(d) ==> device_on(line@) == Some(d@),
        device is None ==> device_on(line@) is None,
{
    let mut parts = split_words(line);
    if parts.len() < 2 {
        return None;
    }
    let ghost all = texts(parts@);
    let details = parts.split_off(2);
    let state = parts[1].clone();
    let serial = parts[0].clone();
    assert(serial@ == all[0]);
    assert(state@ == all[1]);
    assert(texts(details@) =~= all.skip(2));
    Some(DeviceInfo { serial, state, details })
}

/// Reads the list of devices out of the output of `adb devices -l`.
pub fn parse_devices(stdout: &str) -> (devices: Vec<DeviceInfo>)
    ensures
        device_views(devices@) == listed_devices(stdout@),
{
    let all = split_lines(stdout);
    let mut at: usize = 0;
    while at < all.len() && !starts_with(all[at].as_str(), "List of devices attached")
        invariant
            texts(all@) == lines(stdout@),
            at <= all.len(),
            header_from(lines(stdout@), 0) == header_from(lines(stdout@), at as int),
        decreases all.len() - at,
    {
        assert(texts(all@)[at as int] == all@[at as int]@);
        at += 1;
    }
    let mut devices: Vec<DeviceInfo> = Vec::new();
    if at == all.len() {
        assert(texts(all@).len() == all@.len());
        assert(device_views(devices@) =~= Seq::empty());
        return devices;
    }
    assert(texts(all@)[at as int] == all@[at as int]@);
    let ghost below = lines(stdout@).skip(at + 1);
    let mut i: usize = at + 1;
    assert(below.take(0) =~= Seq::empty());
    assert(device_views(devices@) =~= Seq::empty());
    while i < all.len()
        invariant
            texts(all@) == lines(stdout@),
            at < all.len(),
            at + 1 <= i <= all.len(),
            below == lines(stdout@).skip(at + 1),
            device_views(devices@) == devices_on(below.take(i - at - 1)),
        decreases all.len() - i,
    {
        let ghost upto = below.take(i - at);
        assert(upto.drop_last() =~= below.take(i - at - 1));
        assert(upto.last() == all@[i as int]@);
        let ghost before = device_views(devices@);
        if let Some(device) = parse_device(all[i].as_str()) {
            devices.push(device);
            assert(device_views(devices@) =~= before.push(device@));
        }
        i += 1;
    }
    assert(below.take(all@.len() - at - 1) =~= below);
    devices
}

/// Whether a device is ready for use.
pub open spec fn ready(device: DeviceView) -> bool {
    device.state == "device"@
}

/// Whether a device is the one that is meant; any device is, where none is named.
pub open spec fn meant(expected: Option<Seq<char>>, device: DeviceView) -> bool {
    match expected {
        Some(serial) => device.serial == serial,
        None => true,
    }
}

/// Whether a device that is meant is ready for use.
pub open spec fn healthy(expected: Option<Seq<char>>, devices: Seq<DeviceView>) -> bool {
    exists|i: int|
        0 <= i < devices.len() && meant(expected, #[trigger] devices[i]) && ready(devices[i])
}

/// Whether the expected device, or any device where none is expected, is ready for use.
pub fn is_device_healthy(expected_device: Option<&str>, devices: &[DeviceInfo]) -> (yes: bool)
    ensures
        yes == healthy(opt_text(expected_device), device_views(devices@)),
{
    let ghost expected = opt_text(expected_device);
    let ghost views = device_views(devices@);
    let mut i: usize = 0;
    while i < devices.len()
        invariant
            expected == opt_text(expected_device),
            views == device_views(devices@),
            i <= devices.len(),
            forall|j: int| 0 <= j < i ==> !(meant(expected, #[trigger] views[j]) && ready(views[j])),
        decreases devices.len() - i,
    {
        assert(views[i as int] == devices@[i as int]@);
        let named: bool = match expected_device {
            Some(serial) => same_text(devices[i].serial.as_str(), serial),
            None => true,
        };
        if named && same_text(devices[i].state.as_str(), "device") {
            return true;
        }
        i += 1;
    }
    false
}

/// Whether a device waits for the debugging authorization.
pub open spec fn unauthorized(device: DeviceView) -> bool {
    device.state == "unauthorized"@
}

/// The first device from `i` on that is meant and unauthorized, or the number of devices.
pub open spec fn unauthorized_from(
    expected: Option<Seq<char>>,
    devices: Seq<DeviceView>,
    i: int,
) -> int
    decreases devices.len() - i,
{
    if 0 <= i < devices.len() && !(unauthorized(devices[i]) && meant(expected, devices[i])) {
        unauthorized_from(expected, devices, i + 1)
    } else {
        i
    }
}

/// What the user is told to do about an unauthorized device.
pub open spec fn authorization_message(serial: Seq<char>) -> Seq<char> {
    "device `"@ + serial
        + "` is unauthorized; unlock the phone and accept the USB debugging RSA authorization prompt, then run `adb-agent recover` again"@
}

/// The advice on the first device that is meant and unauthorized, where there is one.
pub open spec fn authorization_advice(
    expected: Option<Seq<char>>,
    devices: Seq<DeviceView>,
) -> Option<Seq<char>> {
    let at = unauthorized_from(expected, devices, 0);
    if at < devices.len() {
        Some(authorization_message(devices[at].serial))
    } else {
        None
    }
}

/// Advice on the expected device, or on any device where none is expected, if it is unauthorized.
pub fn authorization_hint(expected_device: Option<&str>, devices: &[DeviceInfo]) -> (hint: Option<
    String,
>)
    ensures
        opt_string(hint) == authorization_advice(
            opt_text(expected_device),
            device_views(devices@),
        ),
{
    let ghost expected = opt_text(expected_device);
    let ghost views = device_views(devices@);
    let mut i: usize = 0;
    while i < devices.len()
        invariant
            expected == opt_text(expected_device),
            views == device_views(devices@),
            i <= devices.len(),
            unauthorized_from(expected, views, 0) == unauthorized_from(expected, views, i as int),
        decreases devices.len() - i,
    {
        assert(views[i as int] == devices@[i as int]@);
        let named: bool = match expected_device {
            Some(serial) => same_text(devices[i].serial.as_str(), serial),
            None => true,
        };
        if named && same_text(devices[i].state.as_str(), "unauthorized") {
            return Some(
                cat3(
                    "device `",
                    devices[i].serial.as_str(),
                    "` is unauthorized; unlock the phone and accept the USB debugging RSA authorization prompt, then run `adb-agent recover` again",
                ),
            );
        }
        i += 1;
    }
    None
}

/// The line on which a device is printed.
pub open spec fn device_line(device: DeviceView) -> Seq<char> {
    if device.details.len() == 0 {
        device.serial + "\t"@ + device.state + "\n"@
    } else {
        device.serial + "\t"@ + device.state + "\t"@ + joined(device.details, " "@) + "\n"@
    }
}

/// The lines on which devices are printed, one after the other.
pub open spec fn device_lines(devices: Seq<DeviceView>) -> Seq<char>
    decreases devices.len(),
{
    if devices.len() == 0 {
        Seq::empty()
    } else {
        device_lines(devices.drop_last()) + device_line(devices.last())
    }
}

/// A list of devices as it is printed.
pub open spec fn device_table(devices: Seq<DeviceView>) -> Seq<char> {
    if devices.len() == 0 {
        "no devices\n"@
    } else {
        device_lines(devices)
    }
}

/// Prints a list of devices.
pub fn format_devices(devices: &[DeviceInfo]) -> (out: String)
    ensures
        out@ == device_table(device_views(devices@)),
{
    if devices.len() == 0 {
        return "no devices\n".to_string();
    }
    let ghost views = device_views(devices@);
    let mut out = String::new();
    let mut i: usize = 0;
    assert(views.take(0) =~= Seq::empty());
    while i < devices.len()
        invariant
            views == device_views(devices@),
            i <= devices.len(),
            out@ == device_lines(views.take(i as int)),
        decreases devices.len() - i,
    {
        assert(views.take(i + 1).drop_last() =~= views.take(i as int));
        assert(views.take(i + 1).last() == devices@[i as int]@);
        let device = &devices[i];
        assert(device@.details.len() == device.details@.len());
        let line = if device.details.len() == 0 {
            cat4(device.serial.as_str(), "\t", device.state.as_str(), "\n")
        } else {
            let mut line = cat4(device.serial.as_str(), "\t", device.state.as_str(), "\t");
            line.append(join(&device.details, " ").as_str());
            line.append("\n");
            line
        };
        out.append(line.as_str());
        i += 1;
    }
    assert(views.take(devices@.len() as int) =~= views);
    out
}

/// Every listed device has a serial and a state; these, and the details, are words.
pub proof fn law_listed_devices_are_words(output: Seq<char>, i: int)
    requires
        0 <= i < listed_devices(output).len(),
    ensures
        in_words(listed_devices(output)[i]),
{
    let all = lines(output);
    lemma_devices_are_words(all.skip(header_from(all, 0) + 1), i);
}

proof fn lemma_devices_are_words(list: Seq<Seq<char>>, i: int)
    requires
        0 <= i < devices_on(list).len(),
    ensures
        in_words(devices_on(list)[i]),
    decreases list.len(),
{
    let rest = devices_on(list.drop_last());
    if i < rest.len() {
        lemma_devices_are_words(list.drop_last(), i);
        assert(devices_on(list)[i] == rest[i]);
    } else {
        let w = words(list.last());
        lemma_words_are_words(list.last(), 0);
        assert(is_word(w[0]));
        assert(is_word(w[1]));
        assert forall|k: int| 0 <= k < w.skip(2).len() implies is_word(#[trigger] w.skip(2)[k]) by {
            assert(is_word(w[k + 2]));
        }
    }
}

/// There is advice just where a device that is meant is unauthorized.
pub proof fn lemma_advice(expected: Option<Seq<char>>, devices: Seq<DeviceView>, from: int)
    requires
        0 <= from <= devices.len(),
    ensures
        from <= unauthorized_from(expected, devices, from) <= devices.len(),
        unauthorized_from(expected, devices, from) < devices.len() <==> exists|i: int|
            from <= i < devices.len() && unauthorized(devices[i]) && #[trigger] meant(
                expected,
                devices[i],
            ),
    decreases devices.len() - from,
{
    if from < devices.len() {
        if unauthorized(devices[from]) && meant(expected, devices[from]) {
        } else {
            lemma_advice(expected, devices, from + 1);
        }
    }
}

/// Whether the serial, the state and the details of a device are words.
pub open spec fn in_words(device: DeviceView) -> bool {
    &&& is_word(device.serial)
    &&& is_word(device.state)
    &&& forall|k: int| 0 <= k < device.details.len() ==> is_word(#[trigger] device.details[k])
}

/// What a device is printed as, before the line feed.
spec fn device_text(device: DeviceView) -> Seq<char> {
    if device.details.len() == 0 {
        device.serial + "\t"@ + device.state
    } else {
        device.serial + "\t"@ + device.state + "\t"@ + joined(device.details, " "@)
    }
}

proof fn lemma_device_text(device: DeviceView)
    requires
        in_words(device),
    ensures
        device_on(device_text(device)) == Some(device),
        device_line(device) == device_text(device) + seq!['\n'],
        forall|k: int| 0 <= k < device_text(device).len() ==> #[trigger] device_text(device)[k] != '\n',
        device_text(device).len() > 0 && device_text(device).last() != '\r',
{
    reveal_strlit("\t");
    reveal_strlit("\n");
    assert("\t"@ =~= seq!['\t']);
    assert("\n"@ =~= seq!['\n']);
    let text = device_text(device);
    let pair = device.serial + seq!['\t'] + device.state;
    lemma_word_is_one_word(device.serial);
    lemma_word_is_one_word(device.state);
    lemma_words_part(device.serial, '\t', device.state);
    lemma_words_of_joined(device.details);
    let details = joined(device.details, " "@);
    if device.details.len() > 0 {
        lemma_words_part(pair, '\t', details);
        assert(text.last() == details.last());
    } else {
        assert(text.last() == device.state.last());
    }
    assert(words(text) =~= seq![device.serial, device.state] + device.details);
    assert(words(text).skip(2) =~= device.details);
    assert(device_line(device) =~= text + seq!['\n']);
    assert forall|k: int| 0 <= k < text.len() implies #[trigger] text[k] != '\n' by {
        let first = device.serial.len();
        let second = first + 1 + device.state.len();
        if k < first {
            assert(text[k] == device.serial[k]);
        } else if first < k < second {
            assert(text[k] == device.state[k - first - 1]);
        } else if k > second {
            assert(text[k] == details[k - second - 1]);
        }
    }
}

/// What heads the list of devices, with its line feed.
pub open spec fn list_header() -> Seq<char> {
    "List of devices attached\n"@
}

proof fn lemma_printed_lines(devices: Seq<DeviceView>)
    requires
        forall|i: int| 0 <= i < devices.len() ==> in_words(#[trigger] devices[i]),
    ensures
        ({
            let all = list_header() + device_lines(devices);
            &&& all.last() == '\n'
            &&& lines(all).len() == devices.len() + 1
            &&& is_header(lines(all)[0])
            &&& devices_on(lines(all).skip(1)) == devices
        }),
    decreases devices.len(),
{
    let all = list_header() + device_lines(devices);
    if devices.len() == 0 {
        reveal_strlit("List of devices attached\n");
        reveal_strlit("List of devices attached");
        let header = "List of devices attached"@;
        assert(all =~= Seq::<char>::empty() + header + seq!['\n']);
        lemma_lines_grow(Seq::empty(), header, 0);
        assert(lines(all) =~= seq![header]);
        assert(header.subrange(0, header.len() as int) =~= header);
        assert(devices_on(lines(all).skip(1)) =~= devices);
    } else {
        let front = devices.drop_last();
        let device = devices.last();
        let before = list_header() + device_lines(front);
        assert forall|i: int| 0 <= i < front.len() implies in_words(#[trigger] front[i]) by {
            assert(in_words(devices[i]));
        }
        lemma_printed_lines(front);
        assert(in_words(devices[devices.len() - 1]));
        lemma_device_text(device);
        let text = device_text(device);
        assert(all =~= before + text + seq!['\n']);
        lemma_lines_grow(before, text, 0);
        let below = lines(all).skip(1);
        assert(below.drop_last() =~= lines(before).skip(1));
        assert(below.last() == text);
        assert(devices_on(below) =~= devices);
    }
}

/// A list of devices that is printed below a header is read back as it was, where serials, states
/// and details are words, as those of a listed device are.
pub proof fn law_printed_devices_are_read_back(devices: Seq<DeviceView>)
    requires
        0 < devices.len(),
        forall|i: int| 0 <= i < devices.len() ==> in_words(#[trigger] devices[i]),
    ensures
        listed_devices(list_header() + device_table(devices)) == devices,
{
    lemma_printed_lines(devices);
    let all = lines(list_header() + device_lines(devices));
    assert(header_from(all, 0) == 0);
}

/// A device is ready just where adb lists it in the state `device`: the one that is meant, or any
/// where none is.
pub proof fn law_ready_devices_are_in_state_device(
    expected: Option<Seq<char>>,
    devices: Seq<DeviceView>,
)
    ensures
        healthy(expected, devices) <==> exists|i: int|
            0 <= i < devices.len() && (#[trigger] devices[i]).state == "device"@ && (
            expected is None || expected == Some(devices[i].serial)),
{
    if healthy(expected, devices) {
        let i = choose|i: int|
            0 <= i < devices.len() && #[trigger] meant(expected, devices[i]) && ready(devices[i]);
        assert(devices[i].state == "device"@);
    }
    if exists|i: int|
        0 <= i < devices.len() && (#[trigger] devices[i]).state == "device"@ && (expected is None
            || expected == Some(devices[i].serial)) {
        let i = choose|i: int|
            0 <= i < devices.len() && (#[trigger] devices[i]).state == "device"@ && (
            expected is None || expected == Some(devices[i].serial));
        assert(meant(expected, devices[i]) && ready(devices[i]));
    }
}

/// There is advice just where a device that is meant, or any where none is, is listed in the state
/// `unauthorized`; it names the first such device.
pub proof fn law_advice_is_for_unauthorized_devices(
    expected: Option<Seq<char>>,
    devices: Seq<DeviceView>,
    i: int,
)
    requires
        0 <= i < devices.len(),
        devices[i].state == "unauthorized"@,
        expected is None || expected == Some(devices[i].serial),
        forall|j: int|
            0 <= j < i ==> (#[trigger] devices[j]).state != "unauthorized"@ || (expected is Some
                && expected != Some(devices[j].serial)),
    ensures
        authorization_advice(expected, devices) == Some(
            "device `"@ + devices[i].serial
                + "` is unauthorized; unlock the phone and accept the USB debugging RSA authorization prompt, then run `adb-agent recover` again"@,
        ),
{
    lemma_first_unauthorized(expected, devices, i, 0);
}

proof fn lemma_first_unauthorized(
    expected: Option<Seq<char>>,
    devices: Seq<DeviceView>,
    i: int,
    from: int,
)
    requires
        0 <= from <= i < devices.len(),
        unauthorized(devices[i]) && meant(expected, devices[i]),
        forall|j: int|
            0 <= j < i ==> !(unauthorized(#[trigger] devices[j]) && meant(expected, devices[j])),
    ensures
        unauthorized_from(expected, devices, from) == i,
    decreases i - from,
{
    if from < i {
        lemma_first_unauthorized(expected, devices, i, from + 1);
    }
}

proof fn lemma_devices_on_lines(list: Seq<Seq<char>>, k: int)
    requires
        0 <= k < list.len(),
        words(list[k]).len() >= 2,
    ensures
        devices_on(list).contains(
            DeviceView {
                serial: words(list[k])[0],
                state: words(list[k])[1],
                details: words(list[k]).skip(2),
            },
        ),
    decreases list.len(),
{
    let device = DeviceView {
        serial: words(list[k])[0],
        state: words(list[k])[1],
        details: words(list[k]).skip(2),
    };
    let front = list.drop_last();
    if k < front.len() {
        lemma_devices_on_lines(front, k);
        let i = choose|i: int| 0 <= i < devices_on(front).len() && devices_on(front)[i] == device;
        assert(devices_on(list)[i] == device);
    } else {
        assert(devices_on(list).last() == device);
    }
}

proof fn lemma_lines_of_devices(list: Seq<Seq<char>>, i: int)
    requires
        0 <= i < devices_on(list).len(),
    ensures
        devices_on(list).len() <= list.len(),
        exists|k: int| 0 <= k < list.len() && tells(#[trigger] list[k], devices_on(list)[i]),
    decreases list.len(),
{
    let front = list.drop_last();
    if devices_on(front).len() > 0 {
        lemma_lines_of_devices(front, 0);
    }
    if i < devices_on(front).len() {
        lemma_lines_of_devices(front, i);
        let k = choose|k: int| 0 <= k < front.len() && tells(#[trigger] front[k], devices_on(front)[i]);
        assert(tells(list[k], devices_on(list)[i]));
    } else {
        let w = words(list.last());
        assert(w =~= seq![w[0], w[1]] + w.skip(2));
        assert(tells(list[list.len() - 1], devices_on(list)[i]));
    }
}

/// Whether the words of a line are the serial, the state and the details of a device.
pub open spec fn tells(line: Seq<char>, device: DeviceView) -> bool {
    words(line) == seq![device.serial, device.state] + device.details
}

/// The devices that adb lists are those that the lines below the first header tell, each by its
/// words; what stands above the header is no device. Without a header there is none.
pub proof fn law_devices_are_below_the_header(output: Seq<char>, header: int, k: int)
    requires
        0 <= header < lines(output).len(),
        "List of devices attached"@.is_prefix_of(lines(output)[header]),
        forall|j: int|
            0 <= j < header ==> !"List of devices attached"@.is_prefix_of(
                #[trigger] lines(output)[j],
            ),
    ensures
        header < k < lines(output).len() && words(lines(output)[k]).len() >= 2
            ==> listed_devices(output).contains(
            DeviceView {
                serial: words(lines(output)[k])[0],
                state: words(lines(output)[k])[1],
                details: words(lines(output)[k]).skip(2),
            },
        ),
        0 <= k < listed_devices(output).len() ==> exists|l: int|
            header < l < lines(output).len() && tells(
                #[trigger] lines(output)[l],
                listed_devices(output)[k],
            ),
{
    let all = lines(output);
    let title = "List of devices attached"@;
    assert forall|j: int| 0 <= j < all.len() implies (is_header(#[trigger] all[j])
        <==> title.is_prefix_of(all[j])) by {
        if title.is_prefix_of(all[j]) {
            assert(all[j].subrange(0, title.len() as int) =~= title);
        }
        if is_header(all[j]) {
            assert(title =~= all[j].subrange(0, title.len() as int));
        }
    }
    lemma_header_is_first(all, header, 0);
    let below = all.skip(header + 1);
    if header < k < all.len() && words(all[k]).len() >= 2 {
        assert(below[k - header - 1] == all[k]);
        lemma_devices_on_lines(below, k - header - 1);
    }
    if 0 <= k < listed_devices(output).len() {
        lemma_lines_of_devices(below, k);
        let b = choose|b: int| 0 <= b < below.len() && tells(#[trigger] below[b], devices_on(below)[k]);
        assert(tells(all[b + header + 1], listed_devices(output)[k]));
    }
}

proof fn lemma_header_is_first(list: Seq<Seq<char>>, header: int, i: int)
    requires
        0 <= i <= header < list.len(),
        is_header(list[header]),
        forall|j: int| 0 <= j < header ==> !is_header(#[trigger] list[j]),
    ensures
        header_from(list, i) == header,
    decreases header - i,
{
    if i < header {
        lemma_header_is_first(list, header, i + 1);
    }
}

proof fn lemma_no_header(list: Seq<Seq<char>>, i: int)
    requires
        0 <= i <= list.len(),
        forall|j: int| 0 <= j < list.len() ==> !is_header(#[trigger] list[j]),
    ensures
        header_from(list, i) == list.len(),
    decreases list.len() - i,
{
    if i < list.len() {
        lemma_no_header(list, i + 1);
    }
}

/// Where no line is a header, as in what adb says before its server runs, no device is listed; and
/// where no device is, the table says so.
pub proof fn law_no_header_no_devices(output: Seq<char>)
    requires
        forall|j: int|
            0 <= j < lines(output).len() ==> !"List of devices attached"@.is_prefix_of(
                #[trigger] lines(output)[j],
            ),
    ensures
        listed_devices(output).len() == 0,
        device_table(listed_devices(output)) == "no devices\n"@,
{
    let all = lines(output);
    let title = "List of devices attached"@;
    assert forall|j: int| 0 <= j < all.len() implies !is_header(#[trigger] all[j]) by {
        if is_header(all[j]) {
            assert(title =~= all[j].subrange(0, title.len() as int));
            assert(title.is_prefix_of(all[j]));
        }
    }
    lemma_no_header(all, 0);
}

} // verus!
