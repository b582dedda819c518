//! The commands of the tool, and what adb is asked for each.

use vstd::prelude::*;

use crate::adb::list_args;
use crate::devices::listed_devices;
use crate::devices::parse_devices;
use crate::response::field_views;
use crate::response::AdbOutput;
use crate::response::Datum;
use crate::response::DatumView;
use crate::response::Field;
use crate::response::OutputView;
use crate::response::ScreenshotFormat;
use crate::text::add_text;
use crate::text::add_texts;
use crate::text::as_text;
use crate::text::cat3;
use crate::text::contains_text;
use crate::text::copy_optional;
use crate::text::decimal;
use crate::text::decimal_text;
use crate::text::escape_spaces;
use crate::text::holds;
use crate::text::law_decimal_is_read_back;
use crate::text::law_escaped_text_has_no_space;
use crate::text::lemma_holds_character;
use crate::text::lines;
use crate::text::number_value;
use crate::text::occurs_at;
use crate::text::opt_string;
use crate::text::opt_text;
use crate::text::signed_decimal;
use crate::text::signed_decimal_text;
use crate::text::spaces_escaped;
use crate::text::split_lines;
use crate::text::strings;
use crate::text::texts;

verus! {

/// What a search on the device looks for.
#[derive(Clone, Copy, Debug, PartialEq, Eq, Structural)]
pub enum FindKind {
    Any,
    File,
    Dir,
}

/// A command that is one run of adb without a device.
#[derive(Debug)]
pub enum PlainCommand {
    Devices,
    Disconnect { target: Option<String> },
    StartServer,
    KillServer,
}

/// A command that is one run of adb on a device.
#[allow(inconsistent_fields)]
#[derive(Debug)]
pub enum DeviceCommand {
    Ls { path: String },
    Find { pattern: String, root: String, kind: FindKind },
    Pull { remote: String, local: Option<String> },
    Push { local: String, remote: String },
    Tap { x: i32, y: i32 },
    Swipe { x1: i32, y1: i32, x2: i32, y2: i32, duration_ms: Option<u32> },
    Keyevent { key: String },
    Text { text: String },
    Shell { command: Vec<String> },
    Install { apk: String, replace: bool, downgrade: bool },
    Uninstall { package: String, keep_data: bool },
    Logcat { dump: bool, clear: bool, args: Vec<String> },
}

/// A command on an app.
#[derive(Debug)]
pub enum AppCommand {
    Start { package: String, activity: Option<String>, wait: bool },
    Stop { package: String },
    Restart { package: String, activity: Option<String>, wait: bool },
}

/// A command on the user interface.
#[allow(inconsistent_fields)]
#[derive(Debug)]
pub enum UiCommand {
    Dump {
        compressed: bool,
        remote: String,
        local: Option<String>,
        keep_remote: bool,
        max_nodes: usize,
    },
    Tree { compressed: bool, max_nodes: usize },
    Find { query: String, compressed: bool, max_results: usize },
}

/// A command on the sessions.
#[allow(inconsistent_fields)]
#[derive(Debug)]
pub enum SessionCommand {
    Use { device: String, name: String, no_select: bool },
    Select { name: String },
    List,
    Show { name: Option<String> },
    Remove { name: String },
    Clear,
    Path,
}

/// What a screenshot is asked for. The path has been chosen already.
#[derive(Debug)]
pub struct ShotOptions {
    pub path: String,
    pub format: ScreenshotFormat,
    pub max_width: u32,
    pub max_height: u32,
    pub quality: u8,
    pub full: bool,
}

/// The commands of the tool.
#[allow(inconsistent_fields)]
#[derive(Debug)]
pub enum Commands {
    Plain { command: PlainCommand },
    Connect { target: String, select: bool },
    Recover { force: bool, wait_ms: u64 },
    Session { command: SessionCommand },
    Device { command: DeviceCommand },
    Screenshot { options: ShotOptions },
    App { command: AppCommand },
    Ui { command: UiCommand },
    Raw { no_device: bool, args: Vec<String> },
}

/// The arguments of adb for a command without a device.
pub open spec fn plain_args(command: PlainCommand) -> Seq<Seq<char>> {
    match command {
        PlainCommand::Devices => list_args(),
        PlainCommand::Disconnect { target } => match target {
            Some(target) => seq!["disconnect"@, target@],
            None => seq!["disconnect"@],
        },
        PlainCommand::StartServer => seq!["start-server"@],
        PlainCommand::KillServer => seq!["kill-server"@],
    }
}

/// The name of a command without a device in its answer.
pub open spec fn plain_action(command: PlainCommand) -> Seq<char> {
    match command {
        PlainCommand::Devices => "devices"@,
        PlainCommand::Disconnect { target } => "disconnect"@,
        PlainCommand::StartServer => "start-server"@,
        PlainCommand::KillServer => "kill-server"@,
    }
}

/// The data in the answer to a command without a device.
pub open spec fn plain_data(command: PlainCommand, output: OutputView) -> Seq<
    (Seq<char>, DatumView),
> {
    match command {
        PlainCommand::Devices => seq![
            ("devices"@, DatumView::Devices(listed_devices(output.stdout))),
        ],
        _ => Seq::empty(),
    }
}

impl PlainCommand {
    /// The arguments of adb for the command.
    pub fn args(&self) -> (args: Vec<String>)
        ensures
            texts(args@) == plain_args(*self),
    {
        let args = match self {
            PlainCommand::Devices => strings(&["devices", "-l"]),
            PlainCommand::Disconnect { target } => match target {
                Some(target) => strings(&["disconnect", target.as_str()]),
                None => strings(&["disconnect"]),
            },
            PlainCommand::StartServer => strings(&["start-server"]),
            PlainCommand::KillServer => strings(&["kill-server"]),
        };
        assert(texts(args@) =~= plain_args(*self));
        args
    }

    /// The name of the command in its answer.
    pub fn action(&self) -> (action: &'static str)
        ensures
            action@ == plain_action(*self),
    {
        match self {
            PlainCommand::Devices => "devices",
            PlainCommand::Disconnect { .. } => "disconnect",
            PlainCommand::StartServer => "start-server",
            PlainCommand::KillServer => "kill-server",
        }
    }

    /// The data in the answer to the command.
    pub fn data(&self, output: &AdbOutput) -> (data: Vec<Field>)
        ensures
            field_views(data@) == plain_data(*self, output@),
    {
        let mut data: Vec<Field> = Vec::new();
        if let PlainCommand::Devices = self {
            data.push(
                Field {
                    key: "devices",
                    value: Datum::Devices(parse_devices(output.stdout.as_str())),
                },
            );
        }
        assert(field_views(data@) =~= plain_data(*self, output@));
        data
    }
}

/// The arguments of adb for a command on a device.
pub open spec fn device_args(command: DeviceCommand) -> Seq<Seq<char>> {
    match command {
        DeviceCommand::Ls { path } => seq!["shell"@, "ls"@, "-la"@, path@],
        DeviceCommand::Find { pattern, root, kind } => {
            let search = seq!["shell"@, "find"@, root@, "-iname"@, pattern@];
            match kind {
                FindKind::Any => search,
                FindKind::File => search + seq!["-type"@, "f"@],
                FindKind::Dir => search + seq!["-type"@, "d"@],
            }
        },
        DeviceCommand::Pull { remote, local } => match local {
            Some(local) => seq!["pull"@, remote@, local@],
            None => seq!["pull"@, remote@],
        },
        DeviceCommand::Push { local, remote } => seq!["push"@, local@, remote@],
        DeviceCommand::Tap { x, y } => seq![
            "shell"@,
            "input"@,
            "tap"@,
            signed_decimal(x as int),
            signed_decimal(y as int),
        ],
        DeviceCommand::Swipe { x1, y1, x2, y2, duration_ms } => {
            let swipe = seq![
                "shell"@,
                "input"@,
                "swipe"@,
                signed_decimal(x1 as int),
                signed_decimal(y1 as int),
                signed_decimal(x2 as int),
                signed_decimal(y2 as int),
            ];
            match duration_ms {
                Some(ms) => swipe.push(decimal(ms as nat)),
                None => swipe,
            }
        },
        DeviceCommand::Keyevent { key } => seq!["shell"@, "input"@, "keyevent"@, key@],
        DeviceCommand::Text { text } => seq!["shell"@, "input"@, "text"@, spaces_escaped(text@)],
        DeviceCommand::Shell { command } => seq!["shell"@] + texts(command@),
        DeviceCommand::Install { apk, replace, downgrade } => {
            let first = if replace {
                seq!["install"@, "-r"@]
            } else {
                seq!["install"@]
            };
            let second = if downgrade {
                first.push("-d"@)
            } else {
                first
            };
            second.push(apk@)
        },
        DeviceCommand::Uninstall { package, keep_data } => if keep_data {
            seq!["uninstall"@, "-k"@, package@]
        } else {
            seq!["uninstall"@, package@]
        },
        DeviceCommand::Logcat { dump, clear, args } => {
            let first = if dump {
                seq!["logcat"@, "-d"@]
            } else {
                seq!["logcat"@]
            };
            let second = if clear {
                first.push("-c"@)
            } else {
                first
            };
            second + texts(args@)
        },
    }
}

/// The name of a command on a device in its answer.
pub open spec fn device_action(command: DeviceCommand) -> Seq<char> {
    match command {
        DeviceCommand::Ls { .. } => "ls"@,
        DeviceCommand::Find { .. } => "find"@,
        DeviceCommand::Pull { .. } => "pull"@,
        DeviceCommand::Push { .. } => "push"@,
        DeviceCommand::Tap { .. } => "tap"@,
        DeviceCommand::Swipe { .. } => "swipe"@,
        DeviceCommand::Keyevent { .. } => "keyevent"@,
        DeviceCommand::Text { .. } => "text"@,
        DeviceCommand::Shell { .. } => "shell"@,
        DeviceCommand::Install { .. } => "install"@,
        DeviceCommand::Uninstall { .. } => "uninstall"@,
        DeviceCommand::Logcat { .. } => "logcat"@,
    }
}

/// The texts of a list that are not empty, in order.
pub open spec fn non_empty(list: Seq<Seq<char>>) -> Seq<Seq<char>>
    decreases list.len(),
{
    if list.len() == 0 {
        Seq::empty()
    } else if list.last().len() > 0 {
        non_empty(list.drop_last()).push(list.last())
    } else {
        non_empty(list.drop_last())
    }
}

/// The lines of a text that are not empty.
fn non_empty_lines(text: &str) -> (out: Vec<String>)
    ensures
        texts(out@) == non_empty(lines(text@)),
{
    let all = split_lines(text);
    let mut out: Vec<String> = Vec::new();
    let mut i: usize = 0;
    assert(texts(all@).take(0) =~= Seq::empty());
    assert(texts(out@) =~= Seq::empty());
    while i < all.len()
        invariant
            texts(all@) == lines(text@),
            i <= all.len(),
            texts(out@) == non_empty(texts(all@).take(i as int)),
        decreases all.len() - i,
    {
        let ghost upto = texts(all@).take(i + 1);
        assert(upto.drop_last() =~= texts(all@).take(i as int));
        assert(upto.last() == all@[i as int]@);
        let ghost before = texts(out@);
        if !all[i].as_str().is_empty() {
            out.push(all[i].clone());
            assert(texts(out@) =~= before.push(all@[i as int]@));
        }
        i += 1;
    }
    assert(texts(all@).take(all@.len() as int) =~= texts(all@));
    out
}

/// The data in the answer to a command on a device.
pub open spec fn device_data(command: DeviceCommand, output: OutputView) -> Seq<
    (Seq<char>, DatumView),
> {
    match command {
        DeviceCommand::Ls { path } => seq![("path"@, DatumView::Text(path@))],
        DeviceCommand::Find { pattern, root, kind } => seq![
            ("root"@, DatumView::Text(root@)),
            ("pattern"@, DatumView::Text(pattern@)),
            ("matches"@, DatumView::Texts(non_empty(lines(output.stdout)))),
        ],
        DeviceCommand::Pull { remote, local } => seq![
            ("remote"@, DatumView::Text(remote@)),
            ("local"@, DatumView::Maybe(opt_string(local))),
        ],
        DeviceCommand::Push { local, remote } => seq![
            ("local"@, DatumView::Text(local@)),
            ("remote"@, DatumView::Text(remote@)),
        ],
        DeviceCommand::Tap { x, y } => seq![
            ("x"@, DatumView::Int(x as int)),
            ("y"@, DatumView::Int(y as int)),
        ],
        DeviceCommand::Swipe { x1, y1, x2, y2, duration_ms } => seq![
            ("x1"@, DatumView::Int(x1 as int)),
            ("y1"@, DatumView::Int(y1 as int)),
            ("x2"@, DatumView::Int(x2 as int)),
            ("y2"@, DatumView::Int(y2 as int)),
            ("duration_ms"@, DatumView::Millis(duration_ms)),
        ],
        DeviceCommand::Keyevent { key } => seq![("key"@, DatumView::Text(key@))],
        DeviceCommand::Text { text } => seq![("text"@, DatumView::Text(text@))],
        DeviceCommand::Shell { command } => Seq::empty(),
        DeviceCommand::Install { apk, replace, downgrade } => seq![
            ("apk"@, DatumView::Text(apk@)),
            ("replace"@, DatumView::Flag(replace)),
            ("downgrade"@, DatumView::Flag(downgrade)),
        ],
        DeviceCommand::Uninstall { package, keep_data } => seq![
            ("package"@, DatumView::Text(package@)),
            ("keep_data"@, DatumView::Flag(keep_data)),
        ],
        DeviceCommand::Logcat { dump, clear, args } => seq![
            ("dump"@, DatumView::Flag(dump)),
            ("clear"@, DatumView::Flag(clear)),
        ],
    }
}

/// A field with a text.
pub fn text_field(key: &'static str, value: &String) -> (field: Field)
    ensures
        field.key@ == key@,
        field.value@ == DatumView::Text(value@),
{
    Field { key, value: Datum::Text(value.clone()) }
}

/// A field with a truth value.
pub fn flag_field(key: &'static str, value: bool) -> (field: Field)
    ensures
        field.key@ == key@,
        field.value@ == DatumView::Flag(value),
{
    Field { key, value: Datum::Flag(value) }
}

/// A field with a number.
pub fn int_field(key: &'static str, value: i32) -> (field: Field)
    ensures
        field.key@ == key@,
        field.value@ == DatumView::Int(value as int),
{
    Field { key, value: Datum::Int(value) }
}

/// A field with a text that may be missing.
pub fn maybe_field(key: &'static str, value: &Option<String>) -> (field: Field)
    ensures
        field.key@ == key@,
        field.value@ == DatumView::Maybe(opt_string(*value)),
{
    Field { key, value: Datum::Maybe(copy_optional(value)) }
}

/// A field with a count.
pub fn count_field(key: &'static str, value: usize) -> (field: Field)
    ensures
        field.key@ == key@,
        field.value@ == DatumView::Count(value as nat),
{
    Field { key, value: Datum::Count(value) }
}

impl DeviceCommand {
    /// The arguments of adb for the command.
    pub fn args(&self) -> (args: Vec<String>)
        ensures
            texts(args@) == device_args(*self),
    {
        let mut args: Vec<String> = Vec::new();
        match self {
            DeviceCommand::Ls { path } => {
                args = strings(&["shell", "ls", "-la", path.as_str()]);
            },
            DeviceCommand::Find { pattern, root, kind } => {
                args = strings(&["shell", "find", root.as_str(), "-iname", pattern.as_str()]);
                match kind {
                    FindKind::Any => {},
                    FindKind::File => {
                        add_text(&mut args, "-type".to_string());
                        add_text(&mut args, "f".to_string());
                    },
                    FindKind::Dir => {
                        add_text(&mut args, "-type".to_string());
                        add_text(&mut args, "d".to_string());
                    },
                }
            },
            DeviceCommand::Pull { remote, local } => {
                args = strings(&["pull", remote.as_str()]);
                if let Some(local) = local {
                    add_text(&mut args, local.clone());
                }
            },
            DeviceCommand::Push { local, remote } => {
                args = strings(&["push", local.as_str(), remote.as_str()]);
            },
            DeviceCommand::Tap { x, y } => {
                args = strings(&["shell", "input", "tap"]);
                add_text(&mut args, signed_decimal_text(*x));
                add_text(&mut args, signed_decimal_text(*y));
            },
            DeviceCommand::Swipe { x1, y1, x2, y2, duration_ms } => {
                args = strings(&["shell", "input", "swipe"]);
                add_text(&mut args, signed_decimal_text(*x1));
                add_text(&mut args, signed_decimal_text(*y1));
                add_text(&mut args, signed_decimal_text(*x2));
                add_text(&mut args, signed_decimal_text(*y2));
                if let Some(ms) = duration_ms {
                    add_text(&mut args, decimal_text(*ms as u64));
                }
            },
            DeviceCommand::Keyevent { key } => {
                args = strings(&["shell", "input", "keyevent", key.as_str()]);
            },
            DeviceCommand::Text { text } => {
                let escaped = escape_spaces(text.as_str());
                args = strings(&["shell", "input", "text", escaped.as_str()]);
            },
            DeviceCommand::Shell { command } => {
                args = strings(&["shell"]);
                add_texts(&mut args, command);
            },
            DeviceCommand::Install { apk, replace, downgrade } => {
                args = strings(&["install"]);
                if *replace {
                    add_text(&mut args, "-r".to_string());
                }
                if *downgrade {
                    add_text(&mut args, "-d".to_string());
                }
                add_text(&mut args, apk.clone());
            },
            DeviceCommand::Uninstall { package, keep_data } => {
                args = strings(&["uninstall"]);
                if *keep_data {
                    add_text(&mut args, "-k".to_string());
                }
                add_text(&mut args, package.clone());
            },
            DeviceCommand::Logcat { dump, clear, args: more } => {
                args = strings(&["logcat"]);
                if *dump {
                    add_text(&mut args, "-d".to_string());
                }
                if *clear {
                    add_text(&mut args, "-c".to_string());
                }
                add_texts(&mut args, more);
            },
        }
        assert(texts(args@) =~= device_args(*self));
        args
    }

    /// The name of the command in its answer.
    pub fn action(&self) -> (action: &'static str)
        ensures
            action@ == device_action(*self),
    {
        match self {
            DeviceCommand::Ls { .. } => "ls",
            DeviceCommand::Find { .. } => "find",
            DeviceCommand::Pull { .. } => "pull",
            DeviceCommand::Push { .. } => "push",
            DeviceCommand::Tap { .. } => "tap",
            DeviceCommand::Swipe { .. } => "swipe",
            DeviceCommand::Keyevent { .. } => "keyevent",
            DeviceCommand::Text { .. } => "text",
            DeviceCommand::Shell { .. } => "shell",
            DeviceCommand::Install { .. } => "install",
            DeviceCommand::Uninstall { .. } => "uninstall",
            DeviceCommand::Logcat { .. } => "logcat",
        }
    }

    /// The data in the answer to the command.
    pub fn data(&self, output: &AdbOutput) -> (data: Vec<Field>)
        ensures
            field_views(data@) == device_data(*self, output@),
    {
        let mut data: Vec<Field> = Vec::new();
        match self {
            DeviceCommand::Ls { path } => {
                data.push(text_field("path", path));
            },
            DeviceCommand::Find { pattern, root, .. } => {
                data.push(text_field("root", root));
                data.push(text_field("pattern", pattern));
                data.push(
                    Field {
                        key: "matches",
                        value: Datum::Texts(non_empty_lines(output.stdout.as_str())),
                    },
                );
            },
            DeviceCommand::Pull { remote, local } => {
                data.push(text_field("remote", remote));
                data.push(maybe_field("local", local));
            },
            DeviceCommand::Push { local, remote } => {
                data.push(text_field("local", local));
                data.push(text_field("remote", remote));
            },
            DeviceCommand::Tap { x, y } => {
                data.push(int_field("x", *x));
                data.push(int_field("y", *y));
            },
            DeviceCommand::Swipe { x1, y1, x2, y2, duration_ms } => {
                data.push(int_field("x1", *x1));
                data.push(int_field("y1", *y1));
                data.push(int_field("x2", *x2));
                data.push(int_field("y2", *y2));
                data.push(Field { key: "duration_ms", value: Datum::Millis(*duration_ms) });
            },
            DeviceCommand::Keyevent { key } => {
                data.push(text_field("key", key));
            },
            DeviceCommand::Text { text } => {
                data.push(text_field("text", text));
            },
            DeviceCommand::Shell { .. } => {},
            DeviceCommand::Install { apk, replace, downgrade } => {
                data.push(text_field("apk", apk));
                data.push(flag_field("replace", *replace));
                data.push(flag_field("downgrade", *downgrade));
            },
            DeviceCommand::Uninstall { package, keep_data } => {
                data.push(text_field("package", package));
                data.push(flag_field("keep_data", *keep_data));
            },
            DeviceCommand::Logcat { dump, clear, .. } => {
                data.push(flag_field("dump", *dump));
                data.push(flag_field("clear", *clear));
            },
        }
        assert(field_views(data@) =~= device_data(*self, output@));
        data
    }
}

/// The component that an activity of a package stands for: the activity itself where it names
/// its package, else the package, a slash and the activity.
pub open spec fn component_of(package: Seq<char>, activity: Seq<char>) -> Seq<char> {
    if holds(activity, "/"@) {
        activity
    } else {
        package + "/"@ + activity
    }
}

/// Puts the package before an activity that does not name it.
pub fn normalize_activity_component(package: &str, activity: &str) -> (component: String)
    ensures
        component@ == component_of(package@, activity@),
{
    if contains_text(activity, "/") {
        activity.to_string()
    } else {
        cat3(package, "/", activity)
    }
}

/// The arguments of adb that start an app: its activity, if one is named, else its launcher.
pub open spec fn app_start_args(
    package: Seq<char>,
    activity: Option<Seq<char>>,
    wait: bool,
) -> Seq<Seq<char>> {
    match activity {
        Some(activity) => {
            let component = component_of(package, activity);
            if wait {
                seq!["shell"@, "am"@, "start"@, "-W"@, "-n"@, component]
            } else {
                seq!["shell"@, "am"@, "start"@, "-n"@, component]
            }
        },
        None => seq![
            "shell"@,
            "monkey"@,
            "-p"@,
            package,
            "-c"@,
            "android.intent.category.LAUNCHER"@,
            "1"@,
        ],
    }
}

/// How an app is started.
pub open spec fn app_start_mode(activity: Option<Seq<char>>) -> Seq<char> {
    if activity is Some {
        "activity"@
    } else {
        "launcher"@
    }
}

/// The component that is started, if an activity is named.
pub open spec fn app_start_component(package: Seq<char>, activity: Option<Seq<char>>) -> Option<
    Seq<char>,
> {
    match activity {
        Some(activity) => Some(component_of(package, activity)),
        None => None,
    }
}

/// The arguments of adb that start an app, how they do so, and the component they name.
pub fn build_app_start_args(package: &str, activity: Option<&str>, wait: bool) -> (start: (
    Vec<String>,
    &'static str,
    Option<String>,
))
    ensures
        texts(start.0@) == app_start_args(package@, opt_text(activity), wait),
        start.1@ == app_start_mode(opt_text(activity)),
        opt_string(start.2) == app_start_component(package@, opt_text(activity)),
{
    if let Some(activity) = activity {
        let component = normalize_activity_component(package, activity);
        let mut args = strings(&["shell", "am", "start"]);
        if wait {
            add_text(&mut args, "-W".to_string());
        }
        add_text(&mut args, "-n".to_string());
        add_text(&mut args, component.clone());
        assert(texts(args@) =~= app_start_args(package@, Some(activity@), wait));
        (args, "activity", Some(component))
    } else {
        let args = strings(
            &["shell", "monkey", "-p", package, "-c", "android.intent.category.LAUNCHER", "1"],
        );
        assert(texts(args@) =~= app_start_args(package@, None, wait));
        (args, "launcher", None)
    }
}

/// The data in the answer to a start of an app.
pub open spec fn app_start_data(
    package: Seq<char>,
    activity: Option<Seq<char>>,
    wait: bool,
) -> Seq<(Seq<char>, DatumView)> {
    seq![
        ("package"@, DatumView::Text(package)),
        ("activity"@, DatumView::Maybe(activity)),
        ("component"@, DatumView::Maybe(app_start_component(package, activity))),
        ("mode"@, DatumView::Text(app_start_mode(activity))),
        ("wait"@, DatumView::Flag(wait)),
    ]
}

/// Makes the data in the answer to a start of an app.
pub fn start_data(package: &String, activity: &Option<String>, wait: bool) -> (data: Vec<Field>)
    ensures
        field_views(data@) == app_start_data(package@, opt_string(*activity), wait),
{
    let (_, mode, component) = build_app_start_args(package.as_str(), as_text(activity), wait);
    let mut data: Vec<Field> = Vec::new();
    data.push(text_field("package", package));
    data.push(maybe_field("activity", activity));
    data.push(maybe_field("component", &component));
    data.push(Field { key: "mode", value: Datum::Text(mode.to_string()) });
    data.push(flag_field("wait", wait));
    assert(field_views(data@) =~= app_start_data(package@, opt_string(*activity), wait));
    data
}

/// The arguments of adb that stop an app.
pub open spec fn app_stop_args(package: Seq<char>) -> Seq<Seq<char>> {
    seq!["shell"@, "am"@, "force-stop"@, package]
}

/// Makes the arguments of adb that stop an app.
pub fn stop_args(package: &String) -> (args: Vec<String>)
    ensures
        texts(args@) == app_stop_args(package@),
{
    let args = strings(&["shell", "am", "force-stop", package.as_str()]);
    assert(texts(args@) =~= app_stop_args(package@));
    args
}

/// A component names its package: there is a slash in it.
pub proof fn law_component_has_a_slash(package: Seq<char>, activity: Seq<char>)
    ensures
        holds(component_of(package, activity), "/"@),
        holds(activity, "/"@) ==> component_of(package, activity) == activity,
{
    if !holds(activity, "/"@) {
        let component = component_of(package, activity);
        let at = package.len() as int;
        assert(component.subrange(at, at + "/"@.len()) =~= "/"@);
        assert(occurs_at(component, "/"@, at));
    }
}

/// Listing shows all of the path in full, on the device.
pub proof fn law_listing_names_its_path(path: String)
    ensures
        device_args(DeviceCommand::Ls { path }) == seq!["shell"@, "ls"@, "-la"@, path@],
{
    assert(device_args(DeviceCommand::Ls { path }) =~= seq!["shell"@, "ls"@, "-la"@, path@]);
}

/// A search goes from its root, by name and whatever the case, and only where a kind is asked for
/// is it held to that kind: `f` for files, `d` for directories.
pub proof fn law_search_is_held_to_its_kind(pattern: String, root: String, kind: FindKind)
    ensures
        ({
            let args = device_args(DeviceCommand::Find { pattern, root, kind });
            &&& args.len() >= 5
            &&& args[0] == "shell"@ && args[1] == "find"@
            &&& args[2] == root@
            &&& args[3] == "-iname"@ && args[4] == pattern@
            &&& kind == FindKind::Any <==> args.len() == 5
            &&& kind != FindKind::Any ==> args.len() == 7 && args[5] == "-type"@
            &&& kind == FindKind::File ==> args[6] == "f"@
            &&& kind == FindKind::Dir ==> args[6] == "d"@
        }),
{
}

/// What a search tells are just the lines of the output that are not empty, in their order and as
/// often as they stand there.
pub proof fn law_search_tells_every_match(
    list: Seq<Seq<char>>,
    more: Seq<Seq<char>>,
    line: Seq<char>,
)
    ensures
        non_empty(list + more) == non_empty(list) + non_empty(more),
        line.len() > 0 ==> non_empty(seq![line]) == seq![line],
        line.len() == 0 ==> non_empty(seq![line]) == Seq::<Seq<char>>::empty(),
    decreases more.len(),
{
    reveal_with_fuel(non_empty, 2);
    assert(seq![line].drop_last() =~= Seq::<Seq<char>>::empty());
    assert(line.len() > 0 ==> non_empty(seq![line]) =~= seq![line]);
    if more.len() == 0 {
        assert(list + more =~= list);
        assert(non_empty(list + more) =~= non_empty(list) + non_empty(more));
    } else {
        law_search_tells_every_match(list, more.drop_last(), line);
        assert((list + more).drop_last() =~= list + more.drop_last());
        assert((list + more).last() == more.last());
        assert(non_empty(list + more) =~= non_empty(list) + non_empty(more));
    }
}

/// A file goes from where it is to where it is wanted: the source stands before the target, and a
/// pull without a target names none.
pub proof fn law_files_go_from_source_to_target(remote: String, local: String)
    ensures
        device_args(DeviceCommand::Pull { remote, local: Some(local) }) == seq![
            "pull"@,
            remote@,
            local@,
        ],
        device_args(DeviceCommand::Pull { remote, local: None }) == seq!["pull"@, remote@],
        device_args(DeviceCommand::Push { local, remote }) == seq!["push"@, local@, remote@],
{
    assert(device_args(DeviceCommand::Pull { remote, local: Some(local) }) =~= seq![
        "pull"@,
        remote@,
        local@,
    ]);
    assert(device_args(DeviceCommand::Pull { remote, local: None }) =~= seq!["pull"@, remote@]);
    assert(device_args(DeviceCommand::Push { local, remote }) =~= seq!["push"@, local@, remote@]);
}

/// A tap is asked for at the point that it names: read as numbers, the last two arguments are its
/// coordinates, across and then down.
pub proof fn law_taps_go_where_they_are_asked_for(x: i32, y: i32)
    ensures
        ({
            let args = device_args(DeviceCommand::Tap { x, y });
            &&& args.len() == 5
            &&& args.take(3) == seq!["shell"@, "input"@, "tap"@]
            &&& number_value(args[3]) == x
            &&& number_value(args[4]) == y
        }),
{
    law_decimal_is_read_back(0, x as int);
    law_decimal_is_read_back(0, y as int);
    assert(device_args(DeviceCommand::Tap { x, y }).take(3) =~= seq![
        "shell"@,
        "input"@,
        "tap"@,
    ]);
}

/// A swipe goes from its first point to its second; a duration follows just where one is asked for.
pub proof fn law_swipes_go_from_point_to_point(
    x1: i32,
    y1: i32,
    x2: i32,
    y2: i32,
    duration_ms: Option<u32>,
)
    ensures
        ({
            let args = device_args(DeviceCommand::Swipe { x1, y1, x2, y2, duration_ms });
            &&& args.len() >= 7
            &&& args.take(3) == seq!["shell"@, "input"@, "swipe"@]
            &&& number_value(args[3]) == x1 && number_value(args[4]) == y1
            &&& number_value(args[5]) == x2 && number_value(args[6]) == y2
            &&& duration_ms is None ==> args.len() == 7
            &&& duration_ms matches Some(ms) ==> args.len() == 8 && number_value(args[7]) == ms
        }),
{
    law_decimal_is_read_back(0, x1 as int);
    law_decimal_is_read_back(0, y1 as int);
    law_decimal_is_read_back(0, x2 as int);
    law_decimal_is_read_back(0, y2 as int);
    if let Some(ms) = duration_ms {
        law_decimal_is_read_back(ms as nat, 0);
    }
    assert(device_args(DeviceCommand::Swipe { x1, y1, x2, y2, duration_ms }).take(3) =~= seq![
        "shell"@,
        "input"@,
        "swipe"@,
    ]);
}

/// A key is sent as it is named, and a text with its spaces escaped.
pub proof fn law_input_is_sent_as_given(key: String, text: String)
    ensures
        device_args(DeviceCommand::Keyevent { key }) == seq![
            "shell"@,
            "input"@,
            "keyevent"@,
            key@,
        ],
        device_args(DeviceCommand::Text { text }).take(3) == seq!["shell"@, "input"@, "text"@],
        device_args(DeviceCommand::Text { text }).len() == 4,
        !device_args(DeviceCommand::Text { text })[3].contains(' '),
        !text@.contains(' ') ==> device_args(DeviceCommand::Text { text })[3] == text@,
        device_args(DeviceCommand::Text { text })[3] == spaces_escaped(text@),
{
    law_escaped_text_has_no_space(text@);
    assert(device_args(DeviceCommand::Text { text }).take(3) =~= seq![
        "shell"@,
        "input"@,
        "text"@,
    ]);
    assert(device_args(DeviceCommand::Keyevent { key }) =~= seq![
        "shell"@,
        "input"@,
        "keyevent"@,
        key@,
    ]);
}

/// A shell command goes to the device word for word.
pub proof fn law_shell_commands_go_unchanged(command: Vec<String>)
    ensures
        ({
            let args = device_args(DeviceCommand::Shell { command });
            &&& args.len() == 1 + command@.len()
            &&& args[0] == "shell"@
            &&& forall|i: int| 0 <= i < command@.len() ==> #[trigger] args[i + 1] == command@[i]@
        }),
{
    let args = device_args(DeviceCommand::Shell { command });
    assert forall|i: int| 0 <= i < command@.len() implies #[trigger] args[i + 1]
        == command@[i]@ by {
        assert(args[i + 1] == texts(command@)[i]);
    }
}

/// The options of an installation go each by its own flag: between the command and the file, `-r`
/// stands just where replacing is asked for, and `-d` just where a downgrade is allowed.
pub proof fn law_install_options_go_by_their_flags(apk: String, replace: bool, downgrade: bool)
    ensures
        ({
            let args = device_args(DeviceCommand::Install { apk, replace, downgrade });
            let options = args.subrange(1, args.len() - 1);
            &&& args.len() >= 2
            &&& args[0] == "install"@
            &&& args.last() == apk@
            &&& options.contains("-r"@) <==> replace
            &&& options.contains("-d"@) <==> downgrade
            &&& forall|i: int|
                0 <= i < options.len() ==> #[trigger] options[i] == "-r"@ || options[i] == "-d"@
            &&& options.no_duplicates()
        }),
{
    reveal_strlit("-r");
    reveal_strlit("-d");
    assert("-r"@[1] != "-d"@[1]);
    let args = device_args(DeviceCommand::Install { apk, replace, downgrade });
    let options = args.subrange(1, args.len() - 1);
    if replace {
        assert(options[0] == "-r"@);
        if downgrade {
            assert(options[1] == "-d"@);
        }
    } else if downgrade {
        assert(options[0] == "-d"@);
    }
}

/// Data is kept on removal just where that is asked for.
pub proof fn law_uninstall_keeps_data_on_demand(package: String, keep_data: bool)
    ensures
        ({
            let args = device_args(DeviceCommand::Uninstall { package, keep_data });
            let options = args.subrange(1, args.len() - 1);
            &&& args.len() >= 2
            &&& args[0] == "uninstall"@
            &&& args.last() == package@
            &&& options == if keep_data {
                seq!["-k"@]
            } else {
                Seq::<Seq<char>>::empty()
            }
        }),
{
    let args = device_args(DeviceCommand::Uninstall { package, keep_data });
    assert(args.subrange(1, args.len() - 1) =~= if keep_data {
        seq!["-k"@]
    } else {
        Seq::<Seq<char>>::empty()
    });
}

/// The options of the log go each by its own flag: between the command and the user's own
/// arguments, `-d` stands just where a dump is asked for, and `-c` just where clearing is.
pub proof fn law_log_options_go_by_their_flags(dump: bool, clear: bool, args: Vec<String>)
    ensures
        ({
            let all = device_args(DeviceCommand::Logcat { dump, clear, args });
            let end = all.len() - args@.len();
            let options = all.subrange(1, end);
            &&& end >= 1
            &&& all[0] == "logcat"@
            &&& forall|i: int| 0 <= i < args@.len() ==> #[trigger] all[end + i] == args@[i]@
            &&& options.contains("-d"@) <==> dump
            &&& options.contains("-c"@) <==> clear
            &&& forall|i: int|
                0 <= i < options.len() ==> #[trigger] options[i] == "-d"@ || options[i] == "-c"@
            &&& options.no_duplicates()
        }),
{
    reveal_strlit("-d");
    reveal_strlit("-c");
    assert("-d"@[1] != "-c"@[1]);
    let all = device_args(DeviceCommand::Logcat { dump, clear, args });
    assert(texts(args@).len() == args@.len());
    let end = all.len() - args@.len();
    let options = all.subrange(1, end);
    if dump {
        assert(options[0] == "-d"@);
        if clear {
            assert(options[1] == "-c"@);
        }
    } else if clear {
        assert(options[0] == "-c"@);
    }
    assert forall|i: int| 0 <= i < args@.len() implies #[trigger] all[end + i] == args@[i]@ by {
        assert(all[end + i] == texts(args@)[i]);
    }
}

/// The answer to a command on a device tells what was asked for, each thing under its own key, and
/// a search what it found.
pub proof fn law_answers_tell_what_was_asked_for(command: DeviceCommand, output: OutputView)
    ensures
        ({
            let data = device_data(command, output);
            match command {
                DeviceCommand::Ls { path } => data.contains(("path"@, DatumView::Text(path@))),
                DeviceCommand::Find { pattern, root, .. } => {
                    &&& data.contains(("pattern"@, DatumView::Text(pattern@)))
                    &&& data.contains(("root"@, DatumView::Text(root@)))
                    &&& data.contains(
                        ("matches"@, DatumView::Texts(non_empty(lines(output.stdout)))),
                    )
                },
                DeviceCommand::Pull { remote, local } => {
                    &&& data.contains(("remote"@, DatumView::Text(remote@)))
                    &&& data.contains(("local"@, DatumView::Maybe(opt_string(local))))
                },
                DeviceCommand::Push { local, remote } => {
                    &&& data.contains(("remote"@, DatumView::Text(remote@)))
                    &&& data.contains(("local"@, DatumView::Text(local@)))
                },
                DeviceCommand::Tap { x, y } => {
                    &&& data.contains(("x"@, DatumView::Int(x as int)))
                    &&& data.contains(("y"@, DatumView::Int(y as int)))
                },
                DeviceCommand::Swipe { x1, y1, x2, y2, duration_ms } => {
                    &&& data.contains(("x1"@, DatumView::Int(x1 as int)))
                    &&& data.contains(("y1"@, DatumView::Int(y1 as int)))
                    &&& data.contains(("x2"@, DatumView::Int(x2 as int)))
                    &&& data.contains(("y2"@, DatumView::Int(y2 as int)))
                    &&& data.contains(("duration_ms"@, DatumView::Millis(duration_ms)))
                },
                DeviceCommand::Keyevent { key } => data.contains(("key"@, DatumView::Text(key@))),
                DeviceCommand::Text { text } => data.contains(("text"@, DatumView::Text(text@))),
                DeviceCommand::Shell { .. } => data.len() == 0,
                DeviceCommand::Install { apk, replace, downgrade } => {
                    &&& data.contains(("apk"@, DatumView::Text(apk@)))
                    &&& data.contains(("replace"@, DatumView::Flag(replace)))
                    &&& data.contains(("downgrade"@, DatumView::Flag(downgrade)))
                },
                DeviceCommand::Uninstall { package, keep_data } => {
                    &&& data.contains(("package"@, DatumView::Text(package@)))
                    &&& data.contains(("keep_data"@, DatumView::Flag(keep_data)))
                },
                DeviceCommand::Logcat { dump, clear, .. } => {
                    &&& data.contains(("dump"@, DatumView::Flag(dump)))
                    &&& data.contains(("clear"@, DatumView::Flag(clear)))
                },
            }
        }),
{
    let data = device_data(command, output);
    assert(data.len() > 0 ==> data.contains(data[0]));
    assert(data.len() > 1 ==> data.contains(data[1]));
    assert(data.len() > 2 ==> data.contains(data[2]));
    assert(data.len() > 3 ==> data.contains(data[3]));
    assert(data.len() > 4 ==> data.contains(data[4]));
}

/// The answer to a start of an app tells what was asked for and what was started: the component is
/// that of the activity, and the mode says whether there was one.
pub proof fn law_app_answers_tell_what_was_asked_for(
    package: Seq<char>,
    activity: Option<Seq<char>>,
    wait: bool,
)
    ensures
        ({
            let data = app_start_data(package, activity, wait);
            &&& data.contains(("package"@, DatumView::Text(package)))
            &&& data.contains(("activity"@, DatumView::Maybe(activity)))
            &&& data.contains(("wait"@, DatumView::Flag(wait)))
            &&& data.contains(
                (
                    "mode"@,
                    DatumView::Text(
                        if activity is None {
                            "launcher"@
                        } else {
                            "activity"@
                        },
                    ),
                ),
            )
            &&& activity is None ==> data.contains(("component"@, DatumView::Maybe(None)))
            &&& activity matches Some(name) ==> data.contains(
                ("component"@, DatumView::Maybe(Some(app_start_args(package, activity, wait).last()))),
            )
        }),
{
    let data = app_start_data(package, activity, wait);
    assert(data.contains(data[0]));
    assert(data.contains(data[1]));
    assert(data.contains(data[2]));
    assert(data.contains(data[3]));
    assert(data.contains(data[4]));
}

/// An app is started by the activity that is named, else by its launcher; `-W` stands before the
/// component just where waiting is asked for, and no activity is waited for that is not named.
pub proof fn law_apps_start_by_activity_or_launcher(
    package: Seq<char>,
    activity: Option<Seq<char>>,
    wait: bool,
)
    ensures
        ({
            let args = app_start_args(package, activity, wait);
            match activity {
                Some(name) => {
                    &&& args.len() == if wait {
                        6int
                    } else {
                        5int
                    }
                    &&& args.take(3) == seq!["shell"@, "am"@, "start"@]
                    &&& wait ==> args[3] == "-W"@
                    &&& args[args.len() - 2] == "-n"@
                    &&& name.contains('/') ==> args.last() == name
                    &&& !name.contains('/') ==> args.last() == package + seq!['/'] + name
                },
                None => {
                    &&& args.take(4) == seq!["shell"@, "monkey"@, "-p"@, package]
                    &&& args.skip(4) == seq!["-c"@, "android.intent.category.LAUNCHER"@, "1"@]
                },
            }
        }),
        app_stop_args(package) == seq!["shell"@, "am"@, "force-stop"@, package],
{
    let args = app_start_args(package, activity, wait);
    reveal_strlit("/");
    assert("/"@ =~= seq!['/']);
    if let Some(name) = activity {
        lemma_holds_character(name, '/');
        assert(args.take(3) =~= seq!["shell"@, "am"@, "start"@]);
    } else {
        assert(args.take(4) =~= seq!["shell"@, "monkey"@, "-p"@, package]);
        assert(args.skip(4) =~= seq!["-c"@, "android.intent.category.LAUNCHER"@, "1"@]);
    }
    assert(app_stop_args(package) =~= seq!["shell"@, "am"@, "force-stop"@, package]);
}

/// A command on a device goes under the word that it is for adb, its shell or its input in the
/// answer: the word stands in the arguments where commands of its sort have it.
pub proof fn law_actions_are_named_after_the_command(command: DeviceCommand)
    ensures
        ({
            let at: int = match command {
                DeviceCommand::Ls { .. } | DeviceCommand::Find { .. } => 1,
                DeviceCommand::Tap { .. } | DeviceCommand::Swipe { .. } => 2,
                DeviceCommand::Keyevent { .. } | DeviceCommand::Text { .. } => 2,
                _ => 0,
            };
            &&& at < device_args(command).len()
            &&& device_action(command) == device_args(command)[at]
        }),
{
}

} // verus!
