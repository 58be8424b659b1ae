//! The run of the checks on one artifact: in order, one tool invocation at a
//! time, stopping at the first check that does not pass. The pipeline decides;
//! its caller runs each tool and hands back what it answered.

use vstd::prelude::*;
use vstd::string::*;
use crate::error::{
    joined, OperationError, OperationErrorView, PrecheckError, PrecheckErrorView, Status,
    StatusView, TextPart, TextPartView,
};
use crate::input_path::PathType;
use crate::precheck::{
    checks, checks_for, command_of, lemma_failure_says_what_and_how, outcome_of, Precheck,
    PACKAGE_NOTICE,
};
use crate::tool::{ToolCommand, ToolResult, ToolResultView};

verus! {

/// How far a run of the checks has come.
pub enum Progress {
    /// The check at this index of the kind's list runs next.
    Running(nat),
    /// Every check passed.
    Passed,
    /// A check failed; none ran after it.
    Failed(PrecheckErrorView),
    /// A check could not be carried out; none ran after it.
    Errored(OperationErrorView),
}

/// The progress after the answer to the pending check came in. A run that
/// has ended stays as it is.
pub open spec fn step(kind: PathType, progress: Progress, result: ToolResultView) -> Progress {
    match progress {
        Progress::Running(index) => if index >= checks_for(kind).len() {
            Progress::Passed
        } else {
            match outcome_of(checks_for(kind)[index as int], result) {
                Ok(StatusView::Pass) => if index + 1 == checks_for(kind).len() {
                    Progress::Passed
                } else {
                    Progress::Running(index + 1)
                },
                Ok(StatusView::Fail(failure)) => Progress::Failed(failure),
                Err(error) => Progress::Errored(error),
            }
        },
        ended => ended,
    }
}

/// The progress after these answers came in, one per tool invocation.
pub open spec fn progress_after(kind: PathType, results: Seq<ToolResultView>) -> Progress
    decreases results.len(),
{
    if results.len() == 0 {
        Progress::Running(0)
    } else {
        step(kind, progress_after(kind, results.drop_last()), results.last())
    }
}

/// Whether the advisory notice goes with a run: it goes with every run for
/// a package that has passed, and with no other.
pub open spec fn notice_due(kind: PathType, progress: Progress) -> bool {
    progress is Passed && kind == PathType::InstallerPackage
}

/// Why a run of the checks did not pass.
#[derive(Debug, Clone)]
pub enum RunError {
    /// The artifact does not meet a requirement.
    Failed(PrecheckError),
    /// A check could not be carried out.
    Error(OperationError),
}

/// `RunError` as a mathematical value: its strings are sequences of characters.
pub enum RunErrorView {
    Failed(PrecheckErrorView),
    Error(OperationErrorView),
}

impl View for RunError {
    type V = RunErrorView;

    open spec fn view(&self) -> RunErrorView {
        match self {
            RunError::Failed(failure) => RunErrorView::Failed(failure@),
            RunError::Error(error) => RunErrorView::Error(error@),
        }
    }
}

impl RunErrorView {
    /// The text shown for this error.
    pub open spec fn rendered(self) -> Seq<char> {
        match self {
            RunErrorView::Failed(failure) => failure.rendered(),
            RunErrorView::Error(error) => error.rendered(),
        }
    }

    /// The text shown for this error, in parts.
    pub open spec fn parts(self) -> Seq<TextPartView> {
        match self {
            RunErrorView::Failed(failure) => failure.parts(),
            RunErrorView::Error(error) => error.parts(),
        }
    }
}

impl RunError {
    /// The text shown for this error, without any styling.
    pub fn render(&self) -> (text: String)
        ensures
            text@ == self@.rendered(),
    {
        match self {
            RunError::Failed(failure) => failure.render(),
            RunError::Error(error) => error.render(),
        }
    }

    /// The text shown for this error, in parts that say what is to stand
    /// out. Put together, the parts are the rendered text.
    pub fn parts(&self) -> (parts: Vec<TextPart>)
        ensures
            parts.deep_view() == self@.parts(),
            joined(parts.deep_view()) == self@.rendered(),
    {
        match self {
            RunError::Failed(failure) => failure.parts(),
            RunError::Error(error) => error.parts(),
        }
    }
}

#[derive(Debug)]
enum State {
    Running(usize),
    Passed,
    Failed(PrecheckError),
    Errored(OperationError),
}

/// A run of the checks on one artifact.
#[derive(Debug)]
pub struct Pipeline {
    path: String,
    path_type: PathType,
    state: State,
}

/// `Pipeline` as a mathematical value: its strings are sequences of characters.
pub struct PipelineView {
    pub path: Seq<char>,
    pub path_type: PathType,
    pub progress: Progress,
}

impl View for Pipeline {
    type V = PipelineView;

    closed spec fn view(&self) -> PipelineView {
        PipelineView {
            path: self.path@,
            path_type: self.path_type,
            progress: match self.state {
                State::Running(index) => Progress::Running(index as nat),
                State::Passed => Progress::Passed,
                State::Failed(failure) => Progress::Failed(failure@),
                State::Errored(error) => Progress::Errored(error@),
            },
        }
    }
}

/// Starts a run of the checks for an artifact of the given kind. Nothing has
/// been invoked yet; the first check of the kind's list is pending.
pub fn run(path: &str, path_type: PathType) -> (pipeline: Pipeline)
    ensures
        pipeline@ == (PipelineView { path: path@, path_type, progress: Progress::Running(0) }),
{
    Pipeline { path: path.to_owned(), path_type, state: State::Running(0) }
}

impl Pipeline {
    #[verifier::type_invariant]
    spec fn well_formed(self) -> bool {
        self.state matches State::Running(index) ==> index < checks_for(self.path_type).len()
    }

    /// The check that runs next, while the run has not ended.
    pub fn pending(&self) -> (check: Option<Precheck>)
        ensures
            check == match self@.progress {
                Progress::Running(index) => Some(checks_for(self@.path_type)[index as int]),
                _ => None,
            },
    {
        proof {
            use_type_invariant(self);
        }
        match &self.state {
            State::Running(index) => {
                let list = checks(self.path_type);
                Some(list[*index])
            },
            _ => None,
        }
    }

    /// The tool invocation that the pending check asks for. There is none
    /// once the run has ended.
    pub fn next_command(&self) -> (command: Option<ToolCommand>)
        ensures
            match self@.progress {
                Progress::Running(index) => command is Some && command->0@ == command_of(
                    checks_for(self@.path_type)[index as int],
                    self@.path,
                ),
                _ => command is None,
            },
    {
        match self.pending() {
            Some(check) => Some(check.command(self.path.as_str())),
            None => None,
        }
    }

    /// Takes the answer to the pending check's tool invocation. A pass moves
    /// on to the next check or, after the last, ends the run; anything else
    /// ends it at once. A run that has ended stays as it is.
    pub fn record(&mut self, result: &ToolResult)
        ensures
            final(self)@ == (PipelineView {
                progress: step(old(self)@.path_type, old(self)@.progress, result@),
                ..old(self)@
            }),
    {
        proof {
            use_type_invariant(&*self);
        }
        let pending = self.pending();
        match pending {
            Some(check) => {
                let index = match &self.state {
                    State::Running(index) => *index,
                    _ => 0,
                };
                let count = checks(self.path_type).len();
                match check.evaluate(result) {
                    Ok(Status::Pass) => {
                        if index + 1 == count {
                            self.state = State::Passed;
                        } else {
                            self.state = State::Running(index + 1);
                        }
                    },
                    Ok(Status::Fail { message, solution, see_also }) => {
                        self.state = State::Failed(PrecheckError { message, solution, see_also });
                    },
                    Err(error) => {
                        self.state = State::Errored(error);
                    },
                }
            },
            None => {},
        }
    }

    /// How the run ended: `None` while a check is pending.
    pub fn outcome(&self) -> (outcome: Option<Result<(), RunError>>)
        ensures
            match self@.progress {
                Progress::Running(_) => outcome is None,
                Progress::Passed => outcome == Some(Ok::<(), RunError>(())),
                Progress::Failed(failure) => outcome matches Some(Err(e)) && e@
                    == RunErrorView::Failed(failure),
                Progress::Errored(error) => outcome matches Some(Err(e)) && e@
                    == RunErrorView::Error(error),
            },
    {
        match &self.state {
            State::Running(_) => None,
            State::Passed => Some(Ok(())),
            State::Failed(failure) => Some(Err(RunError::Failed(failure.clone()))),
            State::Errored(error) => Some(Err(RunError::Error(error.clone()))),
        }
    }

    /// The advice that goes with a pass: a package gets fewer checks than
    /// a bundle, and every package that passes comes with the notice that
    /// says so. It is advice and no error; whether it is shown is for the
    /// caller to decide.
    pub fn notice(&self) -> (notice: Option<&'static str>)
        ensures
            match notice {
                Some(text) => text@ == PACKAGE_NOTICE@,
                None => true,
            },
            notice is Some <==> notice_due(self@.path_type, self@.progress),
    {
        match (&self.state, self.path_type) {
            (State::Passed, PathType::InstallerPackage) => Some(PACKAGE_NOTICE),
            _ => None,
        }
    }
}

/// While a run goes on, it has taken one answer for each check before the
/// pending one, and each of those checks passed on its answer.
pub proof fn lemma_checks_run_in_order(kind: PathType, results: Seq<ToolResultView>)
    ensures
        progress_after(kind, results) matches Progress::Running(index) ==> {
            &&& index == results.len()
            &&& index < checks_for(kind).len()
            &&& forall|j: int|
                0 <= j < index ==> #[trigger] outcome_of(checks_for(kind)[j], results[j]) == Ok::<
                    StatusView,
                    OperationErrorView,
                >(StatusView::Pass)
        },
    decreases results.len(),
{
    if results.len() > 0 {
        let before = results.drop_last();
        lemma_checks_run_in_order(kind, before);
        if progress_after(kind, results) is Running {
            let index = progress_after(kind, results)->Running_0;
            assert(progress_after(kind, before) is Running);
            assert forall|j: int| 0 <= j < index implies #[trigger] outcome_of(
                checks_for(kind)[j],
                results[j],
            ) == Ok::<StatusView, OperationErrorView>(StatusView::Pass) by {
                if j < index - 1 {
                    assert(results[j] == before[j]);
                }
            }
        }
    }
}

/// A run that ends in a failure reports one that says what is wrong and how
/// to mend it.
pub proof fn lemma_reported_failure_is_well_formed(kind: PathType, results: Seq<ToolResultView>)
    ensures
        progress_after(kind, results) matches Progress::Failed(failure) ==> failure.wf(),
    decreases results.len(),
{
    if results.len() > 0 {
        let before = progress_after(kind, results.drop_last());
        lemma_reported_failure_is_well_formed(kind, results.drop_last());
        if let Progress::Running(index) = before {
            if index < checks_for(kind).len() {
                lemma_failure_says_what_and_how(checks_for(kind)[index as int]);
            }
        }
    }
}

/// A run that has ended takes no further answer into account: whatever
/// comes in after a failure, an error or the last pass changes nothing.
pub proof fn lemma_ended_run_stays(
    kind: PathType,
    results: Seq<ToolResultView>,
    more: Seq<ToolResultView>,
)
    requires
        !(progress_after(kind, results) is Running),
    ensures
        progress_after(kind, results + more) == progress_after(kind, results),
    decreases more.len(),
{
    if more.len() == 0 {
        assert(results + more =~= results);
    } else {
        lemma_ended_run_stays(kind, results, more.drop_last());
        assert((results + more).drop_last() =~= results + more.drop_last());
        assert((results + more).last() == more.last());
    }
}

/// A run ends in a failure exactly at the first check that fails: every
/// check before it passed, and the failure reported is that check's own.
pub proof fn lemma_first_failure_ends_run(
    kind: PathType,
    results: Seq<ToolResultView>,
    failed: int,
)
    requires
        0 <= failed < results.len(),
        failed < checks_for(kind).len(),
        forall|j: int|
            0 <= j < failed ==> #[trigger] outcome_of(checks_for(kind)[j], results[j]) == Ok::<
                StatusView,
                OperationErrorView,
            >(StatusView::Pass),
        !(outcome_of(checks_for(kind)[failed], results[failed]) matches Ok(StatusView::Pass)),
    ensures
        progress_after(kind, results.take(failed)) == Progress::Running(failed as nat),
        progress_after(kind, results) == step(
            kind,
            Progress::Running(failed as nat),
            results[failed],
        ),
        !(progress_after(kind, results) is Running),
        !(progress_after(kind, results) is Passed),
{
    lemma_passes_advance(kind, results.take(failed));
    let upto = results.take(failed + 1);
    assert(upto.drop_last() =~= results.take(failed));
    assert(upto.last() == results[failed]);
    assert(progress_after(kind, upto) == step(
        kind,
        Progress::Running(failed as nat),
        results[failed],
    ));
    lemma_ended_run_stays(kind, upto, results.skip(failed + 1));
    assert(upto + results.skip(failed + 1) =~= results);
}

/// Answers on which the first checks all pass leave the next check pending.
pub proof fn lemma_passes_advance(kind: PathType, results: Seq<ToolResultView>)
    requires
        results.len() < checks_for(kind).len(),
        forall|j: int|
            0 <= j < results.len() ==> #[trigger] outcome_of(checks_for(kind)[j], results[j])
                == Ok::<StatusView, OperationErrorView>(StatusView::Pass),
    ensures
        progress_after(kind, results) == Progress::Running(results.len()),
    decreases results.len(),
{
    if results.len() > 0 {
        let before = results.drop_last();
        assert forall|j: int| 0 <= j < before.len() implies #[trigger] outcome_of(
            checks_for(kind)[j],
            before[j],
        ) == Ok::<StatusView, OperationErrorView>(StatusView::Pass) by {
            assert(before[j] == results[j]);
        }
        lemma_passes_advance(kind, before);
        assert(outcome_of(checks_for(kind)[before.len() as int], results[before.len() as int])
            == Ok::<StatusView, OperationErrorView>(StatusView::Pass));
    }
}

/// A package whose one check passes comes with the notice, whatever else
/// holds of the run; a bundle or a disk image never does, and neither does a
/// run that failed or is still going on.
pub proof fn lemma_notice_is_for_passed_packages(kind: PathType, results: Seq<ToolResultView>)
    ensures
        kind == PathType::InstallerPackage && results.len() >= 1 && outcome_of(
            checks_for(kind)[0],
            results[0],
        ) == Ok::<StatusView, OperationErrorView>(StatusView::Pass) ==> notice_due(
            kind,
            progress_after(kind, results),
        ),
        kind != PathType::InstallerPackage ==> !notice_due(kind, progress_after(kind, results)),
        !(progress_after(kind, results) is Passed) ==> !notice_due(
            kind,
            progress_after(kind, results),
        ),
{
    if kind == PathType::InstallerPackage && results.len() >= 1 && outcome_of(
        checks_for(kind)[0],
        results[0],
    ) == Ok::<StatusView, OperationErrorView>(StatusView::Pass) {
        let first = results.take(1);
        assert(first[0] == results[0]);
        lemma_all_pass(kind, first);
        lemma_ended_run_stays(kind, first, results.skip(1));
        assert(first + results.skip(1) =~= results);
    }
}

/// A run passes exactly where there is an answer for every check of the
/// kind and each check passes on its own.
pub proof fn lemma_all_pass(kind: PathType, results: Seq<ToolResultView>)
    requires
        results.len() == checks_for(kind).len(),
        forall|j: int|
            0 <= j < results.len() ==> #[trigger] outcome_of(checks_for(kind)[j], results[j])
                == Ok::<StatusView, OperationErrorView>(StatusView::Pass),
    ensures
        progress_after(kind, results) == Progress::Passed,
{
    let before = results.drop_last();
    assert forall|j: int| 0 <= j < before.len() implies #[trigger] outcome_of(
        checks_for(kind)[j],
        before[j],
    ) == Ok::<StatusView, OperationErrorView>(StatusView::Pass) by {
        assert(before[j] == results[j]);
    }
    lemma_passes_advance(kind, before);
    assert(outcome_of(checks_for(kind)[before.len() as int], results[before.len() as int]) == Ok::<
        StatusView,
        OperationErrorView,
    >(StatusView::Pass));
}

} // verus!
