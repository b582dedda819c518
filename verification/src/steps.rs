//! What a command asks of the outside, and what it is told.
//!
//! A command is carried out in steps. Each asks for one action, and the next goes by the event
//! that came of it.

use vstd::prelude::*;

use crate::adb::AdbRequest;
use crate::adb::RequestView;
use crate::imaging::Preview;
use crate::response::AdbOutput;
use crate::session::SessionStore;
use crate::session::StoreView;
use crate::session::WriteOutcome;
use crate::text::texts;

verus! {

/// What is asked of the outside.
#[derive(Debug)]
pub enum Action {
    /// Run adb.
    Adb(AdbRequest),
    /// Read the session file.
    ReadStore,
    /// Write the session file.
    WriteStore(SessionStore),
    /// Read the clock.
    ReadClock,
    /// Create the directory for the file of this path, unless it names none.
    MakeDir(String),
    /// Run adb with these arguments, and keep what it writes as bytes.
    Capture(Vec<String>),
    /// Decode a screenshot, and fit it into a box or leave it as it is.
    Decode { file: Vec<u8>, max_width: u32, max_height: u32, full: bool },
    /// Create an empty file.
    CreateFile(String),
    /// Write these bytes to a file.
    WriteFile(String, Vec<u8>),
    /// Write this text to a file.
    WriteText(String, String),
    /// Tell the length of a file.
    Measure(String),
}

/// What an `Action` holds.
#[verifier::ext_equal]
pub enum ActionView {
    Adb(RequestView),
    ReadStore,
    WriteStore(StoreView),
    ReadClock,
    MakeDir(Seq<char>),
    Capture(Seq<Seq<char>>),
    Decode { file: Seq<u8>, max_width: u32, max_height: u32, full: bool },
    CreateFile(Seq<char>),
    WriteFile(Seq<char>, Seq<u8>),
    WriteText(Seq<char>, Seq<char>),
    Measure(Seq<char>),
}

impl View for Action {
    type V = ActionView;

    open spec fn view(&self) -> ActionView {
        match self {
            Action::Adb(request) => ActionView::Adb(request@),
            Action::ReadStore => ActionView::ReadStore,
            Action::WriteStore(store) => ActionView::WriteStore(store@),
            Action::ReadClock => ActionView::ReadClock,
            Action::MakeDir(path) => ActionView::MakeDir(path@),
            Action::Capture(args) => ActionView::Capture(texts(args@)),
            Action::Decode { file, max_width, max_height, full } => ActionView::Decode {
                file: file@,
                max_width: *max_width,
                max_height: *max_height,
                full: *full,
            },
            Action::CreateFile(path) => ActionView::CreateFile(path@),
            Action::WriteFile(path, bytes) => ActionView::WriteFile(path@, bytes@),
            Action::WriteText(path, text) => ActionView::WriteText(path@, text@),
            Action::Measure(path) => ActionView::Measure(path@),
        }
    }
}

/// What a run of adb gave whose output is bytes.
#[derive(Debug)]
pub struct Capture {
    pub success: bool,
    pub stdout: Vec<u8>,
    pub stderr: String,
}

/// What came of an action.
#[derive(Debug)]
pub enum Event {
    /// A run of adb, none where it could not be started.
    Ran(Option<AdbOutput>),
    /// The sessions, or why they could not be read.
    Store(Result<SessionStore, String>),
    Wrote(WriteOutcome),
    /// Seconds since the Unix epoch.
    Clock(u64),
    /// The directory that could not be created, if that was so.
    Dir(Option<String>),
    /// A run of adb whose output is bytes, none where it could not be started.
    Captured(Option<Capture>),
    /// The screenshot, none where it could not be decoded.
    Previewed(Option<Preview>),
    /// Whether a file was created or written.
    Stored(bool),
    /// The length of a file, none where it could not be told.
    Measured(Option<u64>),
}

/// Where a command stands: an action is due, or it is over, well or badly.
#[derive(Debug)]
pub enum Step<C, T> {
    Do(Action, C),
    Done(T),
    Fail(String),
}

/// What a `Step` holds.
#[verifier::ext_equal]
pub enum StepView<C, T> {
    Do(ActionView, C),
    Done(T),
    Fail(Seq<char>),
}

/// The error of an event that does not answer the action that was due.
pub open spec fn stray_event() -> Seq<char> {
    "internal error: the event does not answer the action"@
}

/// Says that an event does not answer the action that was due.
pub fn stray() -> (error: String)
    ensures
        error@ == stray_event(),
{
    "internal error: the event does not answer the action".to_string()
}

} // verus!
