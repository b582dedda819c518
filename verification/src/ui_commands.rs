//! The commands on the user interface: dump, tree and find.

use vstd::prelude::*;

use crate::adb::adb_command;
use crate::adb::own_run;
use crate::adb::run_view;
use crate::adb::AdbRequest;
use crate::adb::Progress;
use crate::adb::ProgressView;
use crate::adb::RequestView;
use crate::commands::count_field;
use crate::commands::flag_field;
use crate::commands::maybe_field;
use crate::commands::text_field;
use crate::commands::UiCommand;
use crate::dump::dump_args;
use crate::dump::dump_begin;
use crate::dump::dump_next;
use crate::dump::dump_ui;
use crate::dump::DumpCall;
use crate::dump::DumpView;
use crate::dump::UiDump;
use crate::dump::UiDumpView;
use crate::response::field_views;
use crate::response::good_answer;
use crate::response::good_response;
use crate::response::AdbOutput;
use crate::response::Datum;
use crate::response::DatumView;
use crate::response::Field;
use crate::response::Response;
use crate::response::ResponseView;
use crate::steps::stray;
use crate::steps::stray_event;
use crate::steps::Action;
use crate::steps::ActionView;
use crate::steps::Event;
use crate::steps::Step;
use crate::steps::StepView;
use crate::text::cat2;
use crate::text::cat3;
use crate::text::decimal;
use crate::text::decimal_text;
use crate::text::opt_string;
use crate::ui::find_ui_nodes;
use crate::ui::first_answers;
use crate::ui::format_ui_nodes;
use crate::ui::least;
use crate::ui::limit_ui_nodes;
use crate::ui::ui_table;
use crate::ui::ui_views;
use crate::ui::UiNode;
use crate::ui::UiView;

verus! {

/// The file on the device to which the user interface is dumped where none is asked for.
pub open spec fn usual_remote() -> Seq<char> {
    "/sdcard/window_dump.xml"@
}

/// How far a command on the user interface is.
#[derive(Debug)]
pub enum UiStage {
    Dumping(DumpCall),
    /// The directory for the local file is made.
    MakingDir(UiDump),
    /// The local file is written.
    Saving(UiDump),
}

/// What a `UiStage` holds.
#[verifier::ext_equal]
pub enum UiStageView {
    Dumping(DumpView),
    MakingDir(UiDumpView),
    Saving(UiDumpView),
}

impl View for UiStage {
    type V = UiStageView;

    open spec fn view(&self) -> UiStageView {
        match self {
            UiStage::Dumping(call) => UiStageView::Dumping(call@),
            UiStage::MakingDir(dump) => UiStageView::MakingDir(dump@),
            UiStage::Saving(dump) => UiStageView::Saving(dump@),
        }
    }
}

/// A command on the user interface under way.
#[derive(Debug)]
pub struct UiCall {
    pub device: String,
    pub command: UiCommand,
    pub stage: UiStage,
}

/// What a `UiCall` holds.
#[verifier::ext_equal]
pub struct UiCallView {
    pub device: Seq<char>,
    pub command: UiCommand,
    pub stage: UiStageView,
}

impl View for UiCall {
    type V = UiCallView;

    open spec fn view(&self) -> UiCallView {
        UiCallView { device: self.device@, command: self.command, stage: self.stage@ }
    }
}

/// What the step of a command on the user interface holds.
pub open spec fn ui_step(step: Step<UiCall, Response>) -> StepView<UiCallView, ResponseView> {
    match step {
        Step::Do(action, call) => StepView::Do(action@, call@),
        Step::Done(response) => StepView::Done(response@),
        Step::Fail(error) => StepView::Fail(error@),
    }
}

/// Whether the hierarchy is asked for in its compressed form.
pub open spec fn wants_compressed(command: UiCommand) -> bool {
    match command {
        UiCommand::Dump { compressed, .. } => compressed,
        UiCommand::Tree { compressed, .. } => compressed,
        UiCommand::Find { compressed, .. } => compressed,
    }
}

/// The file on the device to which the user interface is dumped.
pub open spec fn remote_of(command: UiCommand) -> Seq<char> {
    match command {
        UiCommand::Dump { remote, .. } => remote@,
        _ => usual_remote(),
    }
}

/// Whether the file on the device is kept.
pub open spec fn keeps_remote(command: UiCommand) -> bool {
    match command {
        UiCommand::Dump { keep_remote, .. } => keep_remote,
        _ => false,
    }
}

/// The local file in which the hierarchy is to be saved, if there is one.
pub open spec fn local_of(command: UiCommand) -> Option<Seq<char>> {
    match command {
        UiCommand::Dump { local, .. } => opt_string(local),
        _ => None,
    }
}

/// The first nodes of a list; all of them where `max` is zero.
pub open spec fn limited(nodes: Seq<UiView>, max: nat) -> Seq<UiView> {
    if max == 0 {
        nodes
    } else {
        nodes.take(least(max, nodes.len()) as int)
    }
}

/// The answer to a command on the user interface, given the dump.
pub open spec fn ui_answer(device: Seq<char>, command: UiCommand, dump: UiDumpView) -> ResponseView {
    match command {
        UiCommand::Dump { compressed, remote, local, keep_remote, max_nodes } => {
            let nodes = limited(dump.nodes, max_nodes as nat);
            good_answer(
                "ui.dump"@,
                Some(device),
                "dumped "@ + decimal(dump.nodes.len()) + " ui nodes\n"@,
                seq![
                    ("compressed"@, DatumView::Flag(compressed)),
                    ("remote"@, DatumView::Text(remote@)),
                    ("local"@, DatumView::Maybe(opt_string(local))),
                    ("node_count"@, DatumView::Count(dump.nodes.len())),
                    ("returned_node_count"@, DatumView::Count(nodes.len())),
                    ("nodes"@, DatumView::Nodes(nodes)),
                    ("xml"@, DatumView::Text(dump.xml)),
                ],
            )
        },
        UiCommand::Tree { compressed, max_nodes } => {
            let nodes = limited(dump.nodes, max_nodes as nat);
            good_answer(
                "ui.tree"@,
                Some(device),
                ui_table(nodes),
                seq![
                    ("compressed"@, DatumView::Flag(compressed)),
                    ("node_count"@, DatumView::Count(dump.nodes.len())),
                    ("returned_node_count"@, DatumView::Count(nodes.len())),
                    ("nodes"@, DatumView::Nodes(nodes)),
                ],
            )
        },
        UiCommand::Find { query, compressed, max_results } => {
            let found = first_answers(dump.nodes, query@, max_results as nat);
            good_answer(
                "ui.find"@,
                Some(device),
                ui_table(found),
                seq![
                    ("compressed"@, DatumView::Flag(compressed)),
                    ("query"@, DatumView::Text(query@)),
                    ("node_count"@, DatumView::Count(dump.nodes.len())),
                    ("returned_node_count"@, DatumView::Count(found.len())),
                    ("nodes"@, DatumView::Nodes(found)),
                ],
            )
        },
    }
}

/// A command on the user interface at another stage.
pub open spec fn ui_at(call: UiCallView, stage: UiStageView) -> UiCallView {
    UiCallView { stage, ..call }
}

/// How a command on the user interface goes on after an action: the hierarchy is dumped and, where
/// a local file is named, saved there.
pub open spec fn ui_next(adb: Seq<char>, call: UiCallView, event: Event) -> StepView<
    UiCallView,
    ResponseView,
> {
    match (call.stage, event) {
        (UiStageView::Dumping(inner), Event::Ran(run)) => match dump_next(
            adb,
            inner,
            run_view(run),
        ) {
            ProgressView::Run(request, inner) => StepView::Do(
                ActionView::Adb(request),
                ui_at(call, UiStageView::Dumping(inner)),
            ),
            ProgressView::Fail(error) => StepView::Fail(error),
            ProgressView::Done(dump) => match local_of(call.command) {
                Some(local) => StepView::Do(
                    ActionView::MakeDir(local),
                    ui_at(call, UiStageView::MakingDir(dump)),
                ),
                None => StepView::Done(ui_answer(call.device, call.command, dump)),
            },
        },
        (UiStageView::MakingDir(dump), Event::Dir(failed)) => match failed {
            Some(directory) => StepView::Fail("failed to create "@ + directory@),
            None => StepView::Do(
                ActionView::WriteText(
                    match local_of(call.command) {
                        Some(local) => local,
                        None => Seq::empty(),
                    },
                    dump.xml,
                ),
                ui_at(call, UiStageView::Saving(dump)),
            ),
        },
        (UiStageView::Saving(dump), Event::Stored(written)) => if written {
            StepView::Done(ui_answer(call.device, call.command, dump))
        } else {
            StepView::Fail(
                "failed to write "@ + match local_of(call.command) {
                    Some(local) => local,
                    None => Seq::empty(),
                },
            )
        },
        _ => StepView::Fail(stray_event()),
    }
}

/// A command on the user interface as it begins.
pub open spec fn ui_begin(device: Seq<char>, recovers: bool, command: UiCommand) -> UiCallView {
    UiCallView {
        device,
        command,
        stage: UiStageView::Dumping(
            dump_begin(
                device,
                wants_compressed(command),
                remote_of(command),
                keeps_remote(command),
                recovers,
            ),
        ),
    }
}

/// The run of adb with which a command on the user interface begins.
pub open spec fn ui_first_run(device: Seq<char>, recovers: bool, command: UiCommand) -> RequestView {
    own_run(
        adb_command(
            Some(device),
            dump_args(wants_compressed(command), remote_of(command)),
            recovers,
        ),
    )
}

/// Begins a command on the user interface.
pub fn handle_ui(device: String, recovers: bool, command: UiCommand) -> (begun: (AdbRequest, UiCall))
    ensures
        begun.0@ == ui_first_run(device@, recovers, command),
        begun.1@ == ui_begin(device@, recovers, command),
{
    let (request, call) = match &command {
        UiCommand::Dump { compressed, remote, keep_remote, .. } => dump_ui(
            device.as_str(),
            *compressed,
            remote.as_str(),
            *keep_remote,
            recovers,
        ),
        UiCommand::Tree { compressed, .. } => dump_ui(
            device.as_str(),
            *compressed,
            "/sdcard/window_dump.xml",
            false,
            recovers,
        ),
        UiCommand::Find { compressed, .. } => dump_ui(
            device.as_str(),
            *compressed,
            "/sdcard/window_dump.xml",
            false,
            recovers,
        ),
    };
    (request, UiCall { device, command, stage: UiStage::Dumping(call) })
}

/// A field with nodes of the user interface.
fn nodes_field(key: &'static str, nodes: Vec<UiNode>) -> (field: Field)
    ensures
        field.key@ == key@,
        field.value@ == DatumView::Nodes(ui_views(nodes@)),
{
    Field { key, value: Datum::Nodes(nodes) }
}

/// Makes the answer to a command on the user interface.
fn ui_response(device: String, command: UiCommand, dump: UiDump) -> (response: Response)
    ensures
        response@ == ui_answer(device@, command, dump@),
{
    let ghost answer = ui_answer(device@, command, dump@);
    let count: usize = dump.nodes.len();
    assert(dump@.nodes.len() == count);
    let mut data: Vec<Field> = Vec::new();
    match command {
        UiCommand::Dump { compressed, remote, local, max_nodes, .. } => {
            let nodes = limit_ui_nodes(dump.nodes.as_slice(), max_nodes);
            assert(ui_views(nodes@).len() == nodes@.len());
            assert(ui_views(nodes@) =~= limited(dump@.nodes, max_nodes as nat));
            let stdout = cat3("dumped ", decimal_text(count as u64).as_str(), " ui nodes\n");
            data.push(flag_field("compressed", compressed));
            data.push(text_field("remote", &remote));
            data.push(maybe_field("local", &local));
            data.push(count_field("node_count", count));
            data.push(count_field("returned_node_count", nodes.len()));
            data.push(nodes_field("nodes", nodes));
            data.push(text_field("xml", &dump.xml));
            assert(field_views(data@) =~= answer.data);
            good_response("ui.dump", Some(device), stdout, data)
        },
        UiCommand::Tree { compressed, max_nodes } => {
            let nodes = limit_ui_nodes(dump.nodes.as_slice(), max_nodes);
            assert(ui_views(nodes@).len() == nodes@.len());
            assert(ui_views(nodes@) =~= limited(dump@.nodes, max_nodes as nat));
            let stdout = format_ui_nodes(nodes.as_slice());
            data.push(flag_field("compressed", compressed));
            data.push(count_field("node_count", count));
            data.push(count_field("returned_node_count", nodes.len()));
            data.push(nodes_field("nodes", nodes));
            assert(field_views(data@) =~= answer.data);
            good_response("ui.tree", Some(device), stdout, data)
        },
        UiCommand::Find { query, compressed, max_results } => {
            let found = find_ui_nodes(dump.nodes.as_slice(), query.as_str(), max_results);
            assert(ui_views(found@).len() == found@.len());
            let stdout = format_ui_nodes(found.as_slice());
            data.push(flag_field("compressed", compressed));
            data.push(text_field("query", &query));
            data.push(count_field("node_count", count));
            data.push(count_field("returned_node_count", found.len()));
            data.push(nodes_field("nodes", found));
            assert(field_views(data@) =~= answer.data);
            good_response("ui.find", Some(device), stdout, data)
        },
    }
}

/// The local file in which the hierarchy is to be saved, if there is one.
fn local_file(command: &UiCommand) -> (local: Option<String>)
    ensures
        opt_string(local) == local_of(*command),
{
    match command {
        UiCommand::Dump { local, .. } => match local {
            Some(path) => Some(path.clone()),
            None => None,
        },
        _ => None,
    }
}

impl UiCall {
    /// Goes on with a command on the user interface after an action.
    pub fn resume(self, adb: &str, event: Event) -> (next: Step<UiCall, Response>)
        ensures
            ui_step(next) == ui_next(adb@, self@, event),
    {
        let device = self.device;
        let command = self.command;
        let local = local_file(&command);
        match (self.stage, event) {
            (UiStage::Dumping(inner), Event::Ran(run)) => match inner.resume(adb, run) {
                Progress::Run(request, inner) => Step::Do(
                    Action::Adb(request),
                    UiCall { device, command, stage: UiStage::Dumping(inner) },
                ),
                Progress::Fail(error) => Step::Fail(error),
                Progress::Done(dump) => match local {
                    Some(local) => Step::Do(
                        Action::MakeDir(local),
                        UiCall { device, command, stage: UiStage::MakingDir(dump) },
                    ),
                    None => Step::Done(ui_response(device, command, dump)),
                },
            },
            (UiStage::MakingDir(dump), Event::Dir(failed)) => match failed {
                Some(directory) => Step::Fail(cat2("failed to create ", directory.as_str())),
                None => {
                    let path = match local {
                        Some(local) => local,
                        None => String::new(),
                    };
                    let xml = dump.xml.clone();
                    Step::Do(
                        Action::WriteText(path, xml),
                        UiCall { device, command, stage: UiStage::Saving(dump) },
                    )
                },
            },
            (UiStage::Saving(dump), Event::Stored(written)) => {
                if written {
                    Step::Done(ui_response(device, command, dump))
                } else {
                    let path = match local {
                        Some(local) => local,
                        None => String::new(),
                    };
                    Step::Fail(cat2("failed to write ", path.as_str()))
                }
            },
            _ => Step::Fail(stray()),
        }
    }
}

/// A command on the user interface dumps to one file on the device, reads that file, and removes it
/// unless it is to be kept: the file that is named, else the usual one. The hierarchy is asked for
/// in its compressed form just where that is wanted.
pub proof fn law_ui_uses_one_file(
    adb: Seq<char>,
    device: Seq<char>,
    recovers: bool,
    command: UiCommand,
    dumped: AdbOutput,
    read: AdbOutput,
)
    requires
        dumped.exit_code == Some(0i32),
        read.exit_code == Some(0i32),
    ensures
        ({
            let remote = match command {
                UiCommand::Dump { remote, .. } => remote@,
                _ => "/sdcard/window_dump.xml"@,
            };
            let compressed = match command {
                UiCommand::Dump { compressed, .. } => compressed,
                UiCommand::Tree { compressed, .. } => compressed,
                UiCommand::Find { compressed, .. } => compressed,
            };
            let kept = command matches UiCommand::Dump { keep_remote, .. } && keep_remote;
            let first = ui_first_run(device, recovers, command);
            let second = ui_next(
                adb,
                ui_begin(device, recovers, command),
                Event::Ran(Some(dumped)),
            );
            let third = ui_next(adb, second->Do_1, Event::Ran(Some(read)));
            &&& first.device == Some(device) && first.delay_ms == 0
            &&& first.args.take(3) == seq!["shell"@, "uiautomator"@, "dump"@]
            &&& first.args.subrange(3, first.args.len() - 1) == if compressed {
                seq!["--compressed"@]
            } else {
                Seq::<Seq<char>>::empty()
            }
            &&& first.args.last() == remote
            &&& second is Do && second->Do_0 == ActionView::Adb(
                RequestView {
                    delay_ms: 0,
                    device: Some(device),
                    args: seq!["exec-out"@, "cat"@, remote],
                },
            )
            &&& !kept ==> third is Do && third->Do_0 == ActionView::Adb(
                RequestView {
                    delay_ms: 0,
                    device: Some(device),
                    args: seq!["shell"@, "rm"@, "-f"@, remote],
                },
            )
            &&& kept ==> !(third is Do && third->Do_0 is Adb)
        }),
{
    let first = ui_first_run(device, recovers, command);
    assert(first.args.take(3) =~= seq!["shell"@, "uiautomator"@, "dump"@]);
    assert(first.args.subrange(3, first.args.len() - 1) =~= if wants_compressed(command) {
        seq!["--compressed"@]
    } else {
        Seq::<Seq<char>>::empty()
    });
}

/// A dump is saved in the local file, where one is named: its directory is made, and its text is
/// written there as it was read. Else it is answered at once. The answer does not depend on
/// whether it was saved.
pub proof fn law_dumps_are_saved_where_asked(
    adb: Seq<char>,
    call: UiCallView,
    run: Option<AdbOutput>,
    dump: UiDumpView,
)
    requires
        call.stage matches UiStageView::Dumping(inner) && dump_next(adb, inner, run_view(run))
            == ProgressView::<DumpView, UiDumpView>::Done(dump),
    ensures
        ({
            let next = ui_next(adb, call, Event::Ran(run));
            let written = ui_next(adb, next->Do_1, Event::Dir(None));
            let end = ui_next(adb, written->Do_1, Event::Stored(true));
            match call.command {
                UiCommand::Dump { local: Some(local), .. } => {
                    &&& next is Do && next->Do_0 == ActionView::MakeDir(local@)
                    &&& written is Do && written->Do_0 == ActionView::WriteText(local@, dump.xml)
                    &&& end is Done && end->Done_0 == ui_answer(call.device, call.command, dump)
                },
                _ => next is Done && next->Done_0 == ui_answer(call.device, call.command, dump),
            }
        }),
{
}

/// The answer to a command on the user interface is for the device, tells what was asked for and
/// how many nodes there are, and as many of them as were asked for from the first on: all of them
/// where a dump or a tree is asked for zero. A search tells and prints the nodes that answer.
pub proof fn law_ui_answers_tell_the_nodes(device: Seq<char>, command: UiCommand, dump: UiDumpView)
    ensures
        ({
            let answer = ui_answer(device, command, dump);
            let data = answer.data;
            let count = dump.nodes.len();
            &&& answer.ok && answer.error is None && answer.device == Some(device)
            &&& data.contains(("node_count"@, DatumView::Count(count)))
            &&& exists|shown: Seq<UiView>| #[trigger]
                data.contains(("nodes"@, DatumView::Nodes(shown))) && data.contains(
                    ("returned_node_count"@, DatumView::Count(shown.len())),
                ) && match command {
                    UiCommand::Dump { max_nodes, .. } => {
                        &&& shown == dump.nodes.take(shown.len() as int)
                        &&& shown.len() == if max_nodes == 0 || max_nodes > count {
                            count
                        } else {
                            max_nodes as nat
                        }
                    },
                    UiCommand::Tree { max_nodes, .. } => {
                        &&& shown == dump.nodes.take(shown.len() as int)
                        &&& shown.len() == if max_nodes == 0 || max_nodes > count {
                            count
                        } else {
                            max_nodes as nat
                        }
                        &&& answer.stdout == ui_table(shown)
                    },
                    UiCommand::Find { query, max_results, .. } => {
                        &&& shown == first_answers(dump.nodes, query@, max_results as nat)
                        &&& answer.stdout == ui_table(shown)
                    },
                }
            &&& match command {
                UiCommand::Dump { compressed, remote, local, .. } => {
                    &&& answer.action == "ui.dump"@
                    &&& data.contains(("compressed"@, DatumView::Flag(compressed)))
                    &&& data.contains(("remote"@, DatumView::Text(remote@)))
                    &&& data.contains(("local"@, DatumView::Maybe(opt_string(local))))
                    &&& data.contains(("xml"@, DatumView::Text(dump.xml)))
                    &&& answer.stdout == "dumped "@ + decimal(count) + " ui nodes\n"@
                },
                UiCommand::Tree { compressed, .. } => {
                    &&& answer.action == "ui.tree"@
                    &&& data.contains(("compressed"@, DatumView::Flag(compressed)))
                },
                UiCommand::Find { query, compressed, .. } => {
                    &&& answer.action == "ui.find"@
                    &&& data.contains(("compressed"@, DatumView::Flag(compressed)))
                    &&& data.contains(("query"@, DatumView::Text(query@)))
                },
            }
        }),
{
    let answer = ui_answer(device, command, dump);
    let data = answer.data;
    assert(data.contains(data[0]));
    assert(data.contains(data[1]));
    assert(data.contains(data[2]));
    assert(data.contains(data[3]));
    assert(data.len() > 4 ==> data.contains(data[4]));
    assert(data.len() > 5 ==> data.contains(data[5]));
    assert(data.len() > 6 ==> data.contains(data[6]));
    match command {
        UiCommand::Dump { max_nodes, .. } => {
            let shown = limited(dump.nodes, max_nodes as nat);
            assert(shown =~= dump.nodes.take(shown.len() as int));
            assert(data.contains(("nodes"@, DatumView::Nodes(shown))));
        },
        UiCommand::Tree { max_nodes, .. } => {
            let shown = limited(dump.nodes, max_nodes as nat);
            assert(shown =~= dump.nodes.take(shown.len() as int));
            assert(data.contains(("nodes"@, DatumView::Nodes(shown))));
        },
        UiCommand::Find { query, max_results, .. } => {
            let shown = first_answers(dump.nodes, query@, max_results as nat);
            assert(data.contains(("nodes"@, DatumView::Nodes(shown))));
        },
    }
}

/// A dump that could not be saved is a failure that names what could not be made: the directory, or
/// the file.
pub proof fn law_unsaved_dumps_are_failures(
    adb: Seq<char>,
    call: UiCallView,
    local: String,
    directory: String,
)
    requires
        call.command matches UiCommand::Dump { local: Some(named), .. } && named == local,
    ensures
        call.stage is MakingDir ==> ui_next(adb, call, Event::Dir(Some(directory))) == StepView::<
            UiCallView,
            ResponseView,
        >::Fail("failed to create "@ + directory@),
        call.stage is Saving ==> ui_next(adb, call, Event::Stored(false)) == StepView::<
            UiCallView,
            ResponseView,
        >::Fail("failed to write "@ + local@),
{
}

} // verus!
