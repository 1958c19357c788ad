//! What an installation tells its listener and asks of its host: progress
//! events, errors, requests and the events that answer them.

use crate::detector::{AnswerView, QueryResult};
use crate::executor::{CommandSpec, CommandView, ProcessResult, ProcessView};
use crate::text::cat2;
use vstd::prelude::*;
use vstd::string::*;

verus! {

/// The state of the step that a progress event speaks of.
#[derive(Clone, Copy, PartialEq, Eq, Debug, Structural)]
pub enum ProgressStatus {
    Pending,
    Running,
    Success,
    Failed,
}

/// The name under which a status goes to the listener.
pub open spec fn status_name(status: ProgressStatus) -> Seq<char> {
    match status {
        ProgressStatus::Pending => "pending"@,
        ProgressStatus::Running => "running"@,
        ProgressStatus::Success => "success"@,
        ProgressStatus::Failed => "failed"@,
    }
}

impl ProgressStatus {
    /// The name under which the status goes to the listener.
    pub fn name(self) -> (r: String)
        ensures
            r@ == status_name(self),
    {
        match self {
            ProgressStatus::Pending => String::from_str("pending"),
            ProgressStatus::Running => String::from_str("running"),
            ProgressStatus::Success => String::from_str("success"),
            ProgressStatus::Failed => String::from_str("failed"),
        }
    }
}

/// One notification to the listener. `progress` is a percentage.
#[derive(Debug)]
pub struct InstallProgress {
    pub step: String,
    pub status: ProgressStatus,
    pub progress: u8,
    pub message: String,
    pub logs: Vec<String>,
}

/// A progress event as plain values.
pub ghost struct ProgressView {
    pub step: Seq<char>,
    pub status: ProgressStatus,
    pub progress: u8,
    pub message: Seq<char>,
    pub logs: Seq<Seq<char>>,
}

impl View for InstallProgress {
    type V = ProgressView;

    open spec fn view(&self) -> ProgressView {
        ProgressView {
            step: self.step@,
            status: self.status,
            progress: self.progress,
            message: self.message@,
            logs: self.logs.deep_view(),
        }
    }
}

impl DeepView for InstallProgress {
    type V = ProgressView;

    open spec fn deep_view(&self) -> ProgressView {
        self@
    }
}

/// The event that names `step` as both step and message.
pub open spec fn progress_event(
    step: Seq<char>,
    status: ProgressStatus,
    progress: u8,
    logs: Seq<Seq<char>>,
) -> ProgressView {
    ProgressView { step, status, progress, message: step, logs }
}

impl InstallProgress {
    /// Builds the event that names `step` as both step and message.
    pub fn new(step: &str, status: ProgressStatus, progress: u8, logs: Vec<String>) -> (r:
        InstallProgress)
        ensures
            r@ == progress_event(step@, status, progress, logs.deep_view()),
    {
        InstallProgress {
            step: String::from_str(step),
            status,
            progress,
            message: String::from_str(step),
            logs,
        }
    }
}

/// The classes of failure.
#[derive(Clone, Copy, PartialEq, Eq, Debug, Structural)]
pub enum ErrorKind {
    /// A required dependency is absent or out of date.
    MissingRequiredDependency,
    /// A command of an installation step failed.
    InstallStepFailure,
    /// No installer is known under the name given.
    UnknownDependencyName,
    /// The environment does not name the home directory.
    MissingHome,
    /// The configuration could not be read.
    ConfigParseFailure,
    /// A command that reads or writes the configuration failed.
    ConfigCommandFailure,
    /// The caller named an installation method that does not exist.
    InvalidInstallMethod,
}

/// A failure: its class and the one sentence that describes it.
#[derive(Debug)]
pub struct InstallError {
    pub kind: ErrorKind,
    pub message: String,
}

/// A failure as plain values.
pub ghost struct ErrorView {
    pub kind: ErrorKind,
    pub message: Seq<char>,
}

impl View for InstallError {
    type V = ErrorView;

    open spec fn view(&self) -> ErrorView {
        ErrorView { kind: self.kind, message: self.message@ }
    }
}

/// The failure of class `kind` whose message is `prefix` followed by `detail`.
pub open spec fn failure(kind: ErrorKind, prefix: Seq<char>, detail: Seq<char>) -> ErrorView {
    ErrorView { kind, message: prefix + detail }
}

impl InstallError {
    /// Builds the failure whose message is `prefix` followed by `detail`.
    pub fn new(kind: ErrorKind, prefix: &str, detail: &str) -> (r: InstallError)
        ensures
            r@ == failure(kind, prefix@, detail@),
    {
        InstallError { kind, message: cat2(prefix, detail) }
    }

    /// Builds the failure whose message is `message` as it stands.
    pub fn of(kind: ErrorKind, message: &str) -> (r: InstallError)
        ensures
            r@ == failure(kind, message@, Seq::empty()),
    {
        InstallError { kind, message: String::from_str(message) }
    }

    /// A copy of the failure.
    pub fn duplicate(&self) -> (r: InstallError)
        ensures
            r@ == self@,
    {
        InstallError { kind: self.kind, message: self.message.clone() }
    }

    /// The sentence that describes the failure.
    pub fn to_text(&self) -> (r: String)
        ensures
            r@ == self@.message,
    {
        self.message.clone()
    }
}

/// What the host is asked to do next.
#[derive(Debug)]
pub enum Request {
    /// Nothing has begun: answer with `Event::Start`.
    Begin,
    /// Run the queries of the host's catalog: answer with `Event::Probed`.
    Probe,
    /// Run the command: answer with `Event::Finished`.
    Run(CommandSpec),
    /// Create the directory with its parents: answer with `Event::Finished`,
    /// `Exited` with success where it now exists, `SpawnFailed` with the
    /// reason where it could not be made.
    CreateDir(String),
    /// The run is over, with this result.
    Done(Result<String, InstallError>),
}

/// A request as plain values.
pub ghost enum RequestView {
    Begin,
    Probe,
    Run(CommandView),
    CreateDir(Seq<char>),
    Done(Result<Seq<char>, ErrorView>),
}

impl RequestView {
    /// The request asks the host to change the machine.
    pub open spec fn acts(self) -> bool {
        self is Run || self is CreateDir
    }
}

/// The view of a final result.
pub open spec fn result_view(r: Result<String, InstallError>) -> Result<Seq<char>, ErrorView> {
    match r {
        Ok(text) => Ok(text@),
        Err(e) => Err(e@),
    }
}

impl View for Request {
    type V = RequestView;

    open spec fn view(&self) -> RequestView {
        match self {
            Request::Begin => RequestView::Begin,
            Request::Probe => RequestView::Probe,
            Request::Run(c) => RequestView::Run(c@),
            Request::CreateDir(p) => RequestView::CreateDir(p@),
            Request::Done(r) => RequestView::Done(result_view(*r)),
        }
    }
}

/// What the host reports back.
#[derive(Debug)]
pub enum Event {
    /// The caller wants the run to begin.
    Start,
    /// The answers to the queries of the catalog, entry by entry.
    Probed(Vec<Vec<QueryResult>>),
    /// How the command or the directory creation ended.
    Finished(ProcessResult),
}

/// An event as plain values.
pub ghost enum EventView {
    Start,
    Probed(Seq<Seq<AnswerView>>),
    Finished(ProcessView),
}

impl View for Event {
    type V = EventView;

    open spec fn view(&self) -> EventView {
        match self {
            Event::Start => EventView::Start,
            Event::Probed(outcomes) => EventView::Probed(outcomes.deep_view()),
            Event::Finished(result) => EventView::Finished(result@),
        }
    }
}

/// The progress values of `events` never fall.
pub open spec fn never_falls(events: Seq<ProgressView>) -> bool {
    forall|i: int, j: int| 0 <= i <= j < events.len() ==> events[i].progress <= events[j].progress
}

/// A failed event, where there is one, is the last event.
pub open spec fn failure_is_last(events: Seq<ProgressView>) -> bool {
    forall|i: int|
        0 <= i < events.len() && (#[trigger] events[i]).status == ProgressStatus::Failed ==> i
            == events.len() - 1
}

/// Every progress value of `events` lies between `low` and `high`.
pub open spec fn within(events: Seq<ProgressView>, low: int, high: int) -> bool {
    forall|i: int| 0 <= i < events.len() ==> low <= (#[trigger] events[i]).progress <= high
}

} // verus!
