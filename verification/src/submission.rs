//! One run of a submission, from the artifact to the stapled ticket, as a
//! state machine. The machine decides what is done next; its caller does it
//! and hands back what came of it.

use vstd::prelude::*;
use vstd::string::*;
use crate::documents::{NotarizationInfo, NotarizationInfoView, NotarizationStatus};
use crate::error::{OperationError, OperationErrorView};
use crate::input_path::{parent_of, path_parent, PathType};
use crate::notarize::{
    request_id_of, stapled_of, status_of, zipped_of, NotarizeOp, NotarizeOpView, ZipPlan,
    };
use crate::tool::{ToolCommand, ToolCommandView, ToolResult, ToolResultView};

verus! {

/// The seconds to wait before each status query.
pub const POLL_INTERVAL: u64 = 5;

pub const UNEXPECTED_EVENT: &'static str = "An event arrived that answers no pending action";

pub const REJECTED: &'static str = "Notarization failed. Service response:";

pub const REJECTED_WITHOUT_LOG: &'static str =
    "Notarization failed, and the service named no log file";

/// Where a run stands. `Success`, `Invalid`, `UploadFailed` and `InfraError`
/// end it.
#[derive(Debug)]
pub enum Phase {
    /// A bundle that has not been archived: where a run for a bundle starts.
    Unpackaged,
    /// A temporary directory for the archive has been asked for.
    Staging,
    /// The archiver is running; the archive will lie at `payload`.
    Packaging { payload: String },
    /// The payload is ready and nothing has been sent: where a run for a
    /// disk image or a package starts.
    Packaged { payload: String },
    /// The upload is running.
    Uploading,
    /// The service has the request and has given no verdict yet.
    Polling { request_id: String },
    /// The verdict is in and the service's log is being fetched. An
    /// accepted artifact is stapled whether or not the log can be had.
    FetchingLog { accepted: bool },
    /// The service accepted the artifact; the stapler is running.
    Stapling { log: Option<String> },
    /// The artifact is notarized and the ticket stapled.
    Success { log: Option<String> },
    /// The service rejected the artifact.
    Invalid(OperationError),
    /// The upload did not go through.
    UploadFailed(OperationError),
    /// Something outside the artifact's control went wrong.
    InfraError(OperationError),
}

/// `Phase` as a mathematical value: its strings are sequences of characters.
pub enum PhaseView {
    Unpackaged,
    Staging,
    Packaging { payload: Seq<char> },
    Packaged { payload: Seq<char> },
    Uploading,
    Polling { request_id: Seq<char> },
    FetchingLog { accepted: bool },
    Stapling { log: Option<Seq<char>> },
    Success { log: Option<Seq<char>> },
    Invalid(OperationErrorView),
    UploadFailed(OperationErrorView),
    InfraError(OperationErrorView),
}

impl View for Phase {
    type V = PhaseView;

    open spec fn view(&self) -> PhaseView {
        match self {
            Phase::Unpackaged => PhaseView::Unpackaged,
            Phase::Staging => PhaseView::Staging,
            Phase::Packaging { payload } => PhaseView::Packaging { payload: payload@ },
            Phase::Packaged { payload } => PhaseView::Packaged { payload: payload@ },
            Phase::Uploading => PhaseView::Uploading,
            Phase::Polling { request_id } => PhaseView::Polling { request_id: request_id@ },
            Phase::FetchingLog { accepted } => PhaseView::FetchingLog { accepted: *accepted },
            Phase::Stapling { log } => PhaseView::Stapling { log: log.deep_view() },
            Phase::Success { log } => PhaseView::Success { log: log.deep_view() },
            Phase::Invalid(error) => PhaseView::Invalid(error@),
            Phase::UploadFailed(error) => PhaseView::UploadFailed(error@),
            Phase::InfraError(error) => PhaseView::InfraError(error@),
        }
    }
}

impl PhaseView {
    /// The run has ended.
    pub open spec fn is_terminal(self) -> bool {
        self is Success || self is Invalid || self is UploadFailed || self is InfraError
    }

    /// How far along a run is: no step of a run leads back.
    pub open spec fn rank(self) -> nat {
        match self {
            PhaseView::Unpackaged => 0,
            PhaseView::Staging => 1,
            PhaseView::Packaging { .. } => 2,
            PhaseView::Packaged { .. } => 3,
            PhaseView::Uploading => 4,
            PhaseView::Polling { .. } => 5,
            PhaseView::FetchingLog { .. } => 6,
            PhaseView::Stapling { .. } => 7,
            _ => 8,
        }
    }
}

/// What came of the action that was asked for last.
#[derive(Debug)]
pub enum Event {
    /// Nothing yet: the run begins.
    Start,
    /// The temporary directory is there; `parent_is_dir` says whether the
    /// directory named with the request is one.
    TempDirCreated { path: String, parent_is_dir: bool },
    /// No temporary directory could be made.
    TempDirFailed(String),
    /// The tool that was to be invoked has been, or could not be started.
    ToolFinished(ToolResult),
    /// The text of the service's log.
    LogFetched(String),
    /// The service's log could not be fetched.
    LogFailed(String),
}

/// `Event` as a mathematical value: its strings are sequences of characters.
pub enum EventView {
    Start,
    TempDirCreated { path: Seq<char>, parent_is_dir: bool },
    TempDirFailed(Seq<char>),
    ToolFinished(ToolResultView),
    LogFetched(Seq<char>),
    LogFailed(Seq<char>),
}

impl View for Event {
    type V = EventView;

    open spec fn view(&self) -> EventView {
        match self {
            Event::Start => EventView::Start,
            Event::TempDirCreated { path, parent_is_dir } => EventView::TempDirCreated {
                path: path@,
                parent_is_dir: *parent_is_dir,
            },
            Event::TempDirFailed(reason) => EventView::TempDirFailed(reason@),
            Event::ToolFinished(result) => EventView::ToolFinished(result@),
            Event::LogFetched(text) => EventView::LogFetched(text@),
            Event::LogFailed(reason) => EventView::LogFailed(reason@),
        }
    }
}

/// What the caller is to do next.
#[derive(Debug)]
pub enum Action {
    /// Make a temporary directory that lives as long as the run, and find
    /// out whether `parent` is a directory.
    CreateTempDir { parent: Option<String> },
    /// Run the tool.
    Invoke(ToolCommand),
    /// Wait for `wait_seconds`, then run the tool.
    Poll { wait_seconds: u64, command: ToolCommand },
    /// Fetch the text at the URL.
    FetchLog { url: String },
    /// Nothing more: the run has ended, with the service's log where there
    /// is one, or with the error.
    Finish(Result<Option<String>, OperationError>),
}

/// `Action` as a mathematical value: its strings are sequences of characters.
pub enum ActionView {
    CreateTempDir { parent: Option<Seq<char>> },
    Invoke(ToolCommandView),
    Poll { wait_seconds: u64, command: ToolCommandView },
    FetchLog { url: Seq<char> },
    Finish(Result<Option<Seq<char>>, OperationErrorView>),
}

impl View for Action {
    type V = ActionView;

    open spec fn view(&self) -> ActionView {
        match self {
            Action::CreateTempDir { parent } => ActionView::CreateTempDir {
                parent: parent.deep_view(),
            },
            Action::Invoke(command) => ActionView::Invoke(command@),
            Action::Poll { wait_seconds, command } => ActionView::Poll {
                wait_seconds: *wait_seconds,
                command: command@,
            },
            Action::FetchLog { url } => ActionView::FetchLog { url: url@ },
            Action::Finish(Ok(log)) => ActionView::Finish(Ok(log.deep_view())),
            Action::Finish(Err(error)) => ActionView::Finish(Err(error@)),
        }
    }
}

/// The end of a run in an error that the artifact is not to blame for.
pub open spec fn broken(error: OperationErrorView) -> (PhaseView, ActionView) {
    (PhaseView::InfraError(error), ActionView::Finish(Err(error)))
}

/// The end of a run on an event that answers no pending action.
pub open spec fn out_of_turn() -> (PhaseView, ActionView) {
    broken(OperationErrorView::Text(UNEXPECTED_EVENT@))
}

/// The step from a ready payload to its upload.
pub open spec fn upload(op: NotarizeOpView, payload: Seq<char>) -> (PhaseView, ActionView) {
    (PhaseView::Uploading, ActionView::Invoke(op.upload_command(payload)))
}

/// The step to a status query, after the fixed wait.
pub open spec fn poll(op: NotarizeOpView, request_id: Seq<char>) -> (PhaseView, ActionView) {
    (
        PhaseView::Polling { request_id },
        ActionView::Poll { wait_seconds: POLL_INTERVAL, command: op.status_command(request_id) },
    )
}

/// The step to the stapler, which is handed the artifact's own path.
pub open spec fn staple(op: NotarizeOpView, log: Option<Seq<char>>) -> (PhaseView, ActionView) {
    (PhaseView::Stapling { log }, ActionView::Invoke(op.staple_command()))
}

/// What a status answer leads to while polling. Only `InProgress` leads to
/// another query. An accepted artifact is stapled, after its log is asked
/// for where the service names one. A rejected artifact ends the run, after
/// its log is fetched; a rejection without a log says so.
pub open spec fn on_status(
    op: NotarizeOpView,
    request_id: Seq<char>,
    answer: Result<NotarizationInfoView, OperationErrorView>,
) -> (PhaseView, ActionView) {
    match answer {
        Err(error) => broken(error),
        Ok(info) => match info.status {
            NotarizationStatus::InProgress => poll(op, request_id),
            NotarizationStatus::Success => match info.logfile_url {
                Some(url) => (
                    PhaseView::FetchingLog { accepted: true },
                    ActionView::FetchLog { url },
                ),
                None => staple(op, None),
            },
            NotarizationStatus::Invalid => match info.logfile_url {
                Some(url) => (
                    PhaseView::FetchingLog { accepted: false },
                    ActionView::FetchLog { url },
                ),
                None => {
                    let error = OperationErrorView::Text(REJECTED_WITHOUT_LOG@);
                    (PhaseView::Invalid(error), ActionView::Finish(Err(error)))
                },
            },
        },
    }
}

/// The phase that follows on an event, and the action that goes with it.
pub open spec fn transition(op: NotarizeOpView, phase: PhaseView, event: EventView) -> (
    PhaseView,
    ActionView,
) {
    match phase {
        PhaseView::Unpackaged => match event {
            EventView::Start => (
                PhaseView::Staging,
                ActionView::CreateTempDir { parent: path_parent(op.input_path) },
            ),
            _ => out_of_turn(),
        },
        PhaseView::Staging => match event {
            EventView::TempDirCreated { path, parent_is_dir } => match op.zip_plan(
                path,
                parent_is_dir,
            ) {
                Ok(plan) => (
                    PhaseView::Packaging { payload: plan.payload },
                    ActionView::Invoke(plan.command),
                ),
                Err(error) => broken(error),
            },
            EventView::TempDirFailed(reason) => broken(OperationErrorView::Text(reason)),
            _ => out_of_turn(),
        },
        PhaseView::Packaging { payload } => match event {
            EventView::ToolFinished(result) => match zipped_of(result) {
                Ok(_) => upload(op, payload),
                Err(error) => broken(error),
            },
            _ => out_of_turn(),
        },
        PhaseView::Packaged { payload } => match event {
            EventView::Start => upload(op, payload),
            _ => out_of_turn(),
        },
        PhaseView::Uploading => match event {
            EventView::ToolFinished(result) => match request_id_of(result) {
                Ok(request_id) => poll(op, request_id),
                Err(error) => (PhaseView::UploadFailed(error), ActionView::Finish(Err(error))),
            },
            _ => out_of_turn(),
        },
        PhaseView::Polling { request_id } => match event {
            EventView::ToolFinished(result) => on_status(op, request_id, status_of(result)),
            _ => out_of_turn(),
        },
        PhaseView::FetchingLog { accepted } => match event {
            EventView::LogFetched(text) => if accepted {
                staple(op, Some(text))
            } else {
                let error = OperationErrorView::Detailed(REJECTED@, text);
                (PhaseView::Invalid(error), ActionView::Finish(Err(error)))
            },
            EventView::LogFailed(reason) => if accepted {
                staple(op, None)
            } else {
                broken(OperationErrorView::Text(reason))
            },
            _ => out_of_turn(),
        },
        PhaseView::Stapling { log } => match event {
            EventView::ToolFinished(result) => match stapled_of(result) {
                Ok(_) => (PhaseView::Success { log }, ActionView::Finish(Ok(log))),
                Err(error) => broken(error),
            },
            _ => out_of_turn(),
        },
        PhaseView::Success { log } => (phase, ActionView::Finish(Ok(log))),
        PhaseView::Invalid(error) => (phase, ActionView::Finish(Err(error))),
        PhaseView::UploadFailed(error) => (phase, ActionView::Finish(Err(error))),
        PhaseView::InfraError(error) => (phase, ActionView::Finish(Err(error))),
    }
}

/// The phase that a run is in after these events, from `start` on.
pub open spec fn phase_after(op: NotarizeOpView, start: PhaseView, events: Seq<EventView>) -> PhaseView
    decreases events.len(),
{
    if events.len() == 0 {
        start
    } else {
        transition(op, phase_after(op, start, events.drop_last()), events.last()).0
    }
}

/// Where a run for an artifact of this kind starts: a bundle has to be
/// archived first, a disk image or a package is its own payload.
pub open spec fn initial_phase(op: NotarizeOpView) -> PhaseView {
    match op.path_type {
        PathType::AppBundle => PhaseView::Unpackaged,
        _ => PhaseView::Packaged { payload: op.input_path },
    }
}

/// One run of a submission.
#[derive(Debug)]
pub struct Notarization {
    pub op: NotarizeOp,
    pub phase: Phase,
}

/// `Notarization` as a mathematical value: its strings are sequences of characters.
pub struct NotarizationView {
    pub op: NotarizeOpView,
    pub phase: PhaseView,
}

impl View for Notarization {
    type V = NotarizationView;

    open spec fn view(&self) -> NotarizationView {
        NotarizationView { op: self.op@, phase: self.phase@ }
    }
}

/// Sets up the run of a submission. Nothing has been done yet: the run
/// begins with the event `Start`.
pub fn run(
    input_path: &str,
    path_type: PathType,
    bundle_id: &str,
    developer_account: &str,
    password_keychain_item: &str,
    provider: &Option<String>,
) -> (notarization: Notarization)
    ensures
        notarization@.op == (NotarizeOpView {
            input_path: input_path@,
            path_type,
            bundle_id: bundle_id@,
            developer_account: developer_account@,
            password_keychain_item: password_keychain_item@,
            provider: provider.deep_view(),
        }),
        notarization@.phase == initial_phase(notarization@.op),
{
    let op = NotarizeOp::new(
        input_path.to_owned(),
        path_type,
        bundle_id.to_owned(),
        developer_account.to_owned(),
        password_keychain_item.to_owned(),
        match provider {
            Some(provider) => Some(provider.clone()),
            None => None,
        },
    );
    let phase = match path_type {
        PathType::AppBundle => Phase::Unpackaged,
        _ => Phase::Packaged { payload: input_path.to_owned() },
    };
    Notarization { op, phase }
}

fn copy_log(log: &Option<String>) -> (copy: Option<String>)
    ensures
        copy.deep_view() == log.deep_view(),
{
    match log {
        Some(text) => Some(text.clone()),
        None => None,
    }
}

fn end_broken(error: OperationError) -> (step: (Phase, Action))
    ensures
        (step.0@, step.1@) == broken(error@),
{
    (Phase::InfraError(error.clone()), Action::Finish(Err(error)))
}

fn end_out_of_turn() -> (step: (Phase, Action))
    ensures
        (step.0@, step.1@) == out_of_turn(),
{
    end_broken(OperationError::new(UNEXPECTED_EVENT))
}

impl NotarizeOp {
    fn begin_upload(&self, payload: &str) -> (step: (Phase, Action))
        ensures
            (step.0@, step.1@) == upload(self@, payload@),
    {
        (Phase::Uploading, Action::Invoke(self.upload_command(payload)))
    }

    fn begin_poll(&self, request_id: String) -> (step: (Phase, Action))
        ensures
            (step.0@, step.1@) == poll(self@, request_id@),
    {
        let command = self.status_command(request_id.as_str());
        (Phase::Polling { request_id }, Action::Poll { wait_seconds: POLL_INTERVAL, command })
    }

    fn begin_staple(&self, log: Option<String>) -> (step: (Phase, Action))
        ensures
            (step.0@, step.1@) == staple(self@, log.deep_view()),
    {
        (Phase::Stapling { log }, Action::Invoke(self.staple_command()))
    }

    /// What a status answer leads to while polling.
    pub fn after_status(
        &self,
        request_id: String,
        answer: Result<NotarizationInfo, OperationError>,
    ) -> (step: (Phase, Action))
        ensures
            (step.0@, step.1@) == on_status(
                self@,
                request_id@,
                match answer {
                    Ok(info) => Ok(info@),
                    Err(error) => Err(error@),
                },
            ),
    {
        match answer {
            Err(error) => end_broken(error),
            Ok(info) => match info.details.status {
                NotarizationStatus::InProgress => self.begin_poll(request_id),
                NotarizationStatus::Success => match info.details.logfile_url {
                    Some(url) => (Phase::FetchingLog { accepted: true }, Action::FetchLog { url }),
                    None => self.begin_staple(None),
                },
                NotarizationStatus::Invalid => match info.details.logfile_url {
                    Some(url) => (Phase::FetchingLog { accepted: false }, Action::FetchLog { url }),
                    None => {
                        let error = OperationError::new(REJECTED_WITHOUT_LOG);
                        (Phase::Invalid(error.clone()), Action::Finish(Err(error)))
                    },
                },
            },
        }
    }
}

impl Notarization {
    /// Takes what came of the last action and says what is to be done
    /// next. After the end of the run every event is answered with the
    /// run's result again.
    pub fn advance(self, event: Event) -> (next: (Notarization, Action))
        ensures
            next.0@.op == self@.op,
            (next.0@.phase, next.1@) == transition(self@.op, self@.phase, event@),
    {
        let Notarization { op, phase } = self;
        let (phase, action) = match phase {
            Phase::Unpackaged => match event {
                Event::Start => {
                    let parent = parent_of(op.input_path.as_str());
                    (Phase::Staging, Action::CreateTempDir { parent })
                },
                _ => end_out_of_turn(),
            },
            Phase::Staging => match event {
                Event::TempDirCreated { path, parent_is_dir } => match op.zip_bundle(
                    path.as_str(),
                    parent_is_dir,
                ) {
                    Ok(plan) => {
                        let ZipPlan { command, payload } = plan;
                        (Phase::Packaging { payload }, Action::Invoke(command))
                    },
                    Err(error) => end_broken(error),
                },
                Event::TempDirFailed(reason) => end_broken(OperationError::Text(reason)),
                _ => end_out_of_turn(),
            },
            Phase::Packaging { payload } => match event {
                Event::ToolFinished(result) => match NotarizeOp::zipped(&result) {
                    Ok(_) => op.begin_upload(payload.as_str()),
                    Err(error) => end_broken(error),
                },
                _ => end_out_of_turn(),
            },
            Phase::Packaged { payload } => match event {
                Event::Start => op.begin_upload(payload.as_str()),
                _ => end_out_of_turn(),
            },
            Phase::Uploading => match event {
                Event::ToolFinished(result) => match NotarizeOp::submit_to_service(&result) {
                    Ok(request_id) => op.begin_poll(request_id),
                    Err(error) => (Phase::UploadFailed(error.clone()), Action::Finish(Err(error))),
                },
                _ => end_out_of_turn(),
            },
            Phase::Polling { request_id } => match event {
                Event::ToolFinished(result) => {
                    let answer = NotarizeOp::get_status(&result);
                    op.after_status(request_id, answer)
                },
                _ => end_out_of_turn(),
            },
            Phase::FetchingLog { accepted } => match event {
                Event::LogFetched(text) => {
                    if accepted {
                        op.begin_staple(Some(text))
                    } else {
                        let error = OperationError::detail(REJECTED, text.as_str());
                        (Phase::Invalid(error.clone()), Action::Finish(Err(error)))
                    }
                },
                Event::LogFailed(reason) => {
                    if accepted {
                        op.begin_staple(None)
                    } else {
                        end_broken(OperationError::Text(reason))
                    }
                },
                _ => end_out_of_turn(),
            },
            Phase::Stapling { log } => match event {
                Event::ToolFinished(result) => match NotarizeOp::staple(&result) {
                    Ok(_) => {
                        let shown = copy_log(&log);
                        (Phase::Success { log }, Action::Finish(Ok(shown)))
                    },
                    Err(error) => end_broken(error),
                },
                _ => end_out_of_turn(),
            },
            Phase::Success { log } => {
                let shown = copy_log(&log);
                (Phase::Success { log }, Action::Finish(Ok(shown)))
            },
            Phase::Invalid(error) => {
                let shown = error.clone();
                (Phase::Invalid(error), Action::Finish(Err(shown)))
            },
            Phase::UploadFailed(error) => {
                let shown = error.clone();
                (Phase::UploadFailed(error), Action::Finish(Err(shown)))
            },
            Phase::InfraError(error) => {
                let shown = error.clone();
                (Phase::InfraError(error), Action::Finish(Err(shown)))
            },
        };
        (Notarization { op, phase }, action)
    }

    /// Whether the run has ended.
    pub fn is_finished(&self) -> (finished: bool)
        ensures
            finished == self@.phase.is_terminal(),
    {
        match &self.phase {
            Phase::Success { .. } => true,
            Phase::Invalid(_) => true,
            Phase::UploadFailed(_) => true,
            Phase::InfraError(_) => true,
            _ => false,
        }
    }
}

/// The service answers that work on the request is in progress.
pub open spec fn in_progress(answer: ToolResultView) -> bool {
    status_of(answer) matches Ok(info) && info.status is InProgress
}

/// The service answers that it accepted the artifact.
pub open spec fn accepted(answer: ToolResultView) -> bool {
    status_of(answer) matches Ok(info) && info.status is Success
}

/// A run moves forward only: no step leads to a phase of lower rank, and a
/// run that has ended stays where it is and answers with its result.
pub proof fn lemma_no_step_back(op: NotarizeOpView, phase: PhaseView, event: EventView)
    ensures
        transition(op, phase, event).0.rank() >= phase.rank(),
        phase.is_terminal() ==> transition(op, phase, event).0 == phase && transition(
            op,
            phase,
            event,
        ).1 is Finish,
        transition(op, phase, event).1 is Finish <==> transition(op, phase, event).0.is_terminal(),
{
}

/// One more event takes a run one step further.
pub proof fn lemma_phase_after_step(
    op: NotarizeOpView,
    start: PhaseView,
    events: Seq<EventView>,
    k: int,
)
    requires
        0 <= k < events.len(),
    ensures
        phase_after(op, start, events.take(k + 1)) == transition(
            op,
            phase_after(op, start, events.take(k)),
            events[k],
        ).0,
{
    assert(events.take(k + 1).drop_last() =~= events.take(k));
    assert(events.take(k + 1).last() == events[k]);
}

/// Over a whole run the rank of the phase never falls.
pub proof fn lemma_rank_never_falls(
    op: NotarizeOpView,
    start: PhaseView,
    events: Seq<EventView>,
    i: int,
    j: int,
)
    requires
        0 <= i <= j <= events.len(),
    ensures
        phase_after(op, start, events.take(i)).rank() <= phase_after(
            op,
            start,
            events.take(j),
        ).rank(),
    decreases j - i,
{
    if i < j {
        lemma_rank_never_falls(op, start, events, i, j - 1);
        lemma_phase_after_step(op, start, events, j - 1);
        lemma_no_step_back(op, phase_after(op, start, events.take(j - 1)), events[j - 1]);
    }
}

/// Polling goes on exactly while the service says that work is in
/// progress. A status query is asked for only after an upload that went
/// through or after such an answer, always for the request at hand and
/// after the fixed wait; a verdict of success or rejection, or an answer
/// that cannot be read, ends the polling for good.
pub proof fn lemma_poll_only_in_progress(op: NotarizeOpView, phase: PhaseView, event: EventView)
    ensures
        ({
            let (next, action) = transition(op, phase, event);
            &&& action is Poll <==> next is Polling
            &&& next matches PhaseView::Polling { request_id } ==> {
                &&& action == (ActionView::Poll {
                    wait_seconds: POLL_INTERVAL,
                    command: op.status_command(request_id),
                })
                &&& phase is Uploading || phase == next
                &&& phase is Polling ==> event is ToolFinished && in_progress(
                    event->ToolFinished_0,
                )
            }
            &&& phase is Polling && event is ToolFinished && in_progress(event->ToolFinished_0)
                ==> next == phase
        }),
{
}

/// However many times the service answers that work is in progress, the
/// run asks again each time and stays in polling.
pub proof fn lemma_polls_while_in_progress(
    op: NotarizeOpView,
    request_id: Seq<char>,
    answers: Seq<ToolResultView>,
)
    requires
        forall|i: int| 0 <= i < answers.len() ==> in_progress(#[trigger] answers[i]),
    ensures
        phase_after(
            op,
            PhaseView::Polling { request_id },
            answers.map_values(|answer: ToolResultView| EventView::ToolFinished(answer)),
        ) == (PhaseView::Polling { request_id }),
        forall|i: int|
            0 <= i < answers.len() ==> #[trigger] transition(
                op,
                PhaseView::Polling { request_id },
                EventView::ToolFinished(answers[i]),
            ) == poll(op, request_id),
    decreases answers.len(),
{
    let events = answers.map_values(|answer: ToolResultView| EventView::ToolFinished(answer));
    assert forall|i: int| 0 <= i < answers.len() implies #[trigger] transition(
        op,
        PhaseView::Polling { request_id },
        EventView::ToolFinished(answers[i]),
    ) == poll(op, request_id) by {
        assert(in_progress(answers[i]));
    }
    if answers.len() > 0 {
        let before = answers.drop_last();
        assert forall|i: int| 0 <= i < before.len() implies in_progress(
            #[trigger] before[i],
        ) by {
            assert(before[i] == answers[i]);
        }
        lemma_polls_while_in_progress(op, request_id, before);
        assert(events.drop_last() =~= before.map_values(
            |answer: ToolResultView| EventView::ToolFinished(answer),
        ));
        assert(events.last() == EventView::ToolFinished(answers.last()));
        assert(in_progress(answers[answers.len() - 1]));
    }
}

/// The stapler is asked for on entering `Stapling` and then only: with
/// the artifact's own path as its last argument, after a verdict of success,
/// and `Success` is reached from `Stapling` alone.
pub proof fn lemma_stapler_gets_artifact(op: NotarizeOpView, phase: PhaseView, event: EventView)
    ensures
        ({
            let (next, action) = transition(op, phase, event);
            &&& next is Stapling ==> {
                &&& action == ActionView::Invoke(op.staple_command())
                &&& op.staple_command().args.last() == op.input_path
                &&& phase is Polling || phase == (PhaseView::FetchingLog { accepted: true })
            }
            &&& next is Stapling && phase is Polling ==> event is ToolFinished && accepted(
                event->ToolFinished_0,
            )
            &&& next is Success ==> phase is Stapling || phase == next
        }),
{
}

/// A log that cannot be had does not cost an accepted artifact its ticket:
/// once the service has accepted, the stapler is asked for whatever comes of
/// the request for the log.
pub proof fn lemma_accepted_is_stapled_without_log(op: NotarizeOpView, event: EventView)
    requires
        event is LogFetched || event is LogFailed,
    ensures
        transition(op, PhaseView::FetchingLog { accepted: true }, event) == staple(
            op,
            match event {
                EventView::LogFetched(text) => Some(text),
                _ => None,
            },
        ),
{
}

/// A run is in `Stapling` after at most one of its events: the stapler is
/// not asked for twice.
pub proof fn lemma_staples_once(
    op: NotarizeOpView,
    start: PhaseView,
    events: Seq<EventView>,
    i: int,
    j: int,
)
    requires
        0 <= i < j <= events.len(),
        phase_after(op, start, events.take(i)) is Stapling,
    ensures
        phase_after(op, start, events.take(j)).is_terminal(),
    decreases j - i,
{
    lemma_phase_after_step(op, start, events, i);
    lemma_rank_never_falls(op, start, events, i + 1, j);
}

/// A run that ends in `Success` went through `Stapling`: the stapler was
/// asked for, once, before the run reported success.
pub proof fn lemma_success_was_stapled(
    op: NotarizeOpView,
    start: PhaseView,
    events: Seq<EventView>,
) -> (k: int)
    requires
        phase_after(op, start, events) is Success,
        !(start is Success),
    ensures
        0 <= k < events.len(),
        phase_after(op, start, events.take(k)) is Stapling,
        forall|m: int|
            0 <= m <= events.len() && m != k ==> !(#[trigger] phase_after(
                op,
                start,
                events.take(m),
            ) is Stapling),
    decreases events.len(),
{
    let before = events.drop_last();
    let k = if phase_after(op, start, before) is Success {
        let k = lemma_success_was_stapled(op, start, before);
        assert(before.take(k) =~= events.take(k));
        k
    } else {
        lemma_stapler_gets_artifact(op, phase_after(op, start, before), events.last());
        assert(before =~= events.take(events.len() - 1));
        events.len() - 1
    };
    assert forall|m: int| 0 <= m <= events.len() && m != k implies !(#[trigger] phase_after(
        op,
        start,
        events.take(m),
    ) is Stapling) by {
        if phase_after(op, start, events.take(m)) is Stapling {
            if m < k {
                lemma_staples_once(op, start, events, m, k);
            } else {
                lemma_staples_once(op, start, events, k, m);
            }
        }
    }
    k
}

} // verus!
