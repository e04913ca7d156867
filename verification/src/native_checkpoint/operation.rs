//! The course of a checkpoint operation: which step comes next, what is given
//! up after a failure, and which failure is reported.

use vstd::prelude::*;
use crate::error::{append_failure, with_failure, Error, ErrorCode};
use crate::text::optional_view;

verus! {

/// What an error says.
pub struct ErrorView {
    pub code: ErrorCode,
    pub message: Seq<char>,
    pub operation: Option<Seq<char>>,
    pub retryable: bool,
}

impl View for Error {
    type V = ErrorView;

    open spec fn view(&self) -> ErrorView {
        ErrorView {
            code: self.code,
            message: self.message@,
            operation: optional_view(self.operation),
            retryable: self.retryable,
        }
    }
}

/// An error with the failure of a cleanup put behind it.
pub open spec fn with_cleanup_failure(
    error: ErrorView,
    label: Seq<char>,
    cause: Seq<char>,
) -> ErrorView {
    ErrorView { message: with_failure(error.message, label, cause), ..error }
}

/// One step of a checkpoint operation.
#[derive(Clone, Copy, Debug, PartialEq, Eq, Structural)]
pub enum CheckpointStep {
    /// Read the journal of the operation.
    LoadJournal,
    /// Open the destination of an operation that was published before.
    OpenPublished,
    /// Remove what is left of the pending artifact of a published operation.
    RemovePublishedPending,
    /// Open the destination of an operation that was abandoned.
    OpenAbandoned,
    /// Remove the pending artifact of an abandoned operation.
    RemoveAbandonedPending,
    /// Remove the journal of an abandoned operation.
    RemoveAbandonedJournal,
    /// Check the source and open the destination.
    OpenDestination,
    /// Check that nothing is at the destination.
    EnsureAbsent,
    /// Inspect the exact process of the source.
    InspectSource,
    /// Create the stage.
    CreateStage,
    /// Let CRIU write its images.
    Dump,
    /// Inspect the source again and compare.
    Recheck,
    /// Draw the publication token.
    DrawToken,
    /// Record that a pending artifact may exist.
    StoreAllocated,
    /// Create the pending artifact.
    CreatePending,
    /// Package the images.
    Build,
    /// Remove the stage.
    ReleaseStage,
    /// Make the result.
    MakeResult,
    /// Record that the pending artifact is complete.
    StorePrepared,
    /// Open the destination of a prepared operation.
    ReopenDestination,
    /// Open the pending artifact.
    OpenPending,
    /// Check the pending artifact against the result.
    ValidatePending,
    /// Put the artifact at its destination.
    Publish,
    /// Open the artifact at its destination.
    OpenFinal,
    /// Check the artifact at its destination against the result.
    ValidateFinal,
    /// Record that the artifact is at its destination.
    StorePublished,
    /// Remove the pending artifact.
    RemovePending,
}

/// Something that a failed operation gives up.
#[derive(Clone, Copy, Debug, PartialEq, Eq, Structural)]
pub enum Cleanup {
    /// The stage.
    Stage,
    /// The pending artifact that this operation has just created.
    CreatedPending,
    /// The pending artifact, if the token owns it.
    OwnedPending,
    /// The journal.
    Journal,
}

/// What came of a step.
#[derive(Debug)]
pub enum CheckpointEvent {
    /// There is no journal.
    NoJournal,
    /// The journal says that a pending artifact may exist.
    FoundAllocated,
    /// The journal says that the pending artifact is complete.
    FoundPrepared,
    /// The journal says that the artifact is at its destination.
    FoundPublished,
    /// The step succeeded.
    Done,
    /// What was to be opened is not there.
    Missing,
    /// The step failed.
    Failed(Error),
    /// A cleanup failed, for this cause.
    CleanupFailed(String),
}

/// What came of a step, as values.
pub enum CheckpointEventView {
    NoJournal,
    FoundAllocated,
    FoundPrepared,
    FoundPublished,
    Done,
    Missing,
    Failed(ErrorView),
    CleanupFailed(Seq<char>),
}

impl View for CheckpointEvent {
    type V = CheckpointEventView;

    open spec fn view(&self) -> CheckpointEventView {
        match *self {
            CheckpointEvent::NoJournal => CheckpointEventView::NoJournal,
            CheckpointEvent::FoundAllocated => CheckpointEventView::FoundAllocated,
            CheckpointEvent::FoundPrepared => CheckpointEventView::FoundPrepared,
            CheckpointEvent::FoundPublished => CheckpointEventView::FoundPublished,
            CheckpointEvent::Done => CheckpointEventView::Done,
            CheckpointEvent::Missing => CheckpointEventView::Missing,
            CheckpointEvent::Failed(error) => CheckpointEventView::Failed(error@),
            CheckpointEvent::CleanupFailed(cause) => CheckpointEventView::CleanupFailed(cause@),
        }
    }
}

/// Where a checkpoint operation stands; each state says what is done next.
#[derive(Debug)]
pub enum CheckpointState {
    /// The step is done next.
    At(CheckpointStep),
    /// The dump failed; the source is inspected again before anything is given up.
    DumpFailed(Error),
    /// A step failed; the named cleanup of its plan is done next.
    Unwinding { step: CheckpointStep, index: usize, error: Error },
    /// The result is handed to the caller.
    Succeeded,
    /// The failure is handed to the caller.
    Refused(Error),
    /// The event was not one that the step can have.
    Confused,
}

/// Where a checkpoint operation stands, as values.
pub enum CheckpointStateView {
    At(CheckpointStep),
    DumpFailed(ErrorView),
    Unwinding(CheckpointStep, int, ErrorView),
    Succeeded,
    Refused(ErrorView),
    Confused,
}

impl View for CheckpointState {
    type V = CheckpointStateView;

    open spec fn view(&self) -> CheckpointStateView {
        match *self {
            CheckpointState::At(step) => CheckpointStateView::At(step),
            CheckpointState::DumpFailed(error) => CheckpointStateView::DumpFailed(error@),
            CheckpointState::Unwinding { step, index, error } => CheckpointStateView::Unwinding(
                step,
                index as int,
                error@,
            ),
            CheckpointState::Succeeded => CheckpointStateView::Succeeded,
            CheckpointState::Refused(error) => CheckpointStateView::Refused(error@),
            CheckpointState::Confused => CheckpointStateView::Confused,
        }
    }
}

/// What is given up, in order, when a step fails.
pub open spec fn cleanup_plan(step: CheckpointStep) -> Seq<Cleanup> {
    match step {
        CheckpointStep::Dump => seq![Cleanup::Stage],
        CheckpointStep::Recheck => seq![Cleanup::Stage],
        CheckpointStep::DrawToken => seq![Cleanup::Stage],
        CheckpointStep::StoreAllocated => seq![Cleanup::Stage],
        CheckpointStep::CreatePending => seq![Cleanup::Stage, Cleanup::Journal],
        CheckpointStep::Build => seq![Cleanup::CreatedPending, Cleanup::Stage, Cleanup::Journal],
        CheckpointStep::ReleaseStage => seq![Cleanup::CreatedPending, Cleanup::Journal],
        CheckpointStep::StorePrepared => seq![Cleanup::CreatedPending, Cleanup::Journal],
        CheckpointStep::Publish => seq![Cleanup::OwnedPending, Cleanup::Journal],
        _ => Seq::empty(),
    }
}

/// How a cleanup is named when it fails.
pub open spec fn cleanup_label(cleanup: Cleanup) -> Seq<char> {
    match cleanup {
        Cleanup::Stage => "checkpoint stage cleanup"@,
        Cleanup::CreatedPending => "pending artifact cleanup"@,
        Cleanup::OwnedPending => "pending artifact cleanup"@,
        Cleanup::Journal => "checkpoint journal cleanup"@,
    }
}

/// What follows when a step fails: its plan, if it has one. A publication that
/// fails for any other reason than an occupied destination gives nothing up, so
/// that it can be tried again.
pub open spec fn unwound(
    step: CheckpointStep,
    index: int,
    error: ErrorView,
) -> CheckpointStateView {
    if index < cleanup_plan(step).len() && !(step is Publish && error.code
        != ErrorCode::AlreadyExists) {
        CheckpointStateView::Unwinding(step, index, error)
    } else {
        CheckpointStateView::Refused(error)
    }
}

/// The step that follows when a step succeeds, or none where the operation is
/// then complete.
pub open spec fn successor(step: CheckpointStep) -> Option<CheckpointStep> {
    match step {
        CheckpointStep::LoadJournal => None,
        CheckpointStep::OpenPublished => Some(CheckpointStep::RemovePublishedPending),
        CheckpointStep::RemovePublishedPending => None,
        CheckpointStep::OpenAbandoned => Some(CheckpointStep::RemoveAbandonedPending),
        CheckpointStep::RemoveAbandonedPending => Some(CheckpointStep::RemoveAbandonedJournal),
        CheckpointStep::RemoveAbandonedJournal => Some(CheckpointStep::OpenDestination),
        CheckpointStep::OpenDestination => Some(CheckpointStep::EnsureAbsent),
        CheckpointStep::EnsureAbsent => Some(CheckpointStep::InspectSource),
        CheckpointStep::InspectSource => Some(CheckpointStep::CreateStage),
        CheckpointStep::CreateStage => Some(CheckpointStep::Dump),
        CheckpointStep::Dump => Some(CheckpointStep::Recheck),
        CheckpointStep::Recheck => Some(CheckpointStep::DrawToken),
        CheckpointStep::DrawToken => Some(CheckpointStep::StoreAllocated),
        CheckpointStep::StoreAllocated => Some(CheckpointStep::CreatePending),
        CheckpointStep::CreatePending => Some(CheckpointStep::Build),
        CheckpointStep::Build => Some(CheckpointStep::ReleaseStage),
        CheckpointStep::ReleaseStage => Some(CheckpointStep::MakeResult),
        CheckpointStep::MakeResult => Some(CheckpointStep::StorePrepared),
        CheckpointStep::StorePrepared => Some(CheckpointStep::ReopenDestination),
        CheckpointStep::ReopenDestination => Some(CheckpointStep::OpenPending),
        CheckpointStep::OpenPending => Some(CheckpointStep::ValidatePending),
        CheckpointStep::ValidatePending => Some(CheckpointStep::Publish),
        CheckpointStep::Publish => Some(CheckpointStep::StorePublished),
        CheckpointStep::OpenFinal => Some(CheckpointStep::ValidateFinal),
        CheckpointStep::ValidateFinal => Some(CheckpointStep::StorePublished),
        CheckpointStep::StorePublished => Some(CheckpointStep::RemovePending),
        CheckpointStep::RemovePending => None,
    }
}

/// The failure of a prepared operation whose artifact is nowhere.
pub open spec fn lost_artifact() -> ErrorView {
    ErrorView {
        code: ErrorCode::Unavailable,
        message: "prepared checkpoint lost both its retained pending file and published artifact"@,
        operation: Some(crate::error::CHECKPOINT_OPERATION@),
        retryable: true,
    }
}

/// Where an operation stands after an event at a step.
pub open spec fn after_step(
    step: CheckpointStep,
    event: CheckpointEventView,
) -> CheckpointStateView {
    match event {
        CheckpointEventView::NoJournal => if step is LoadJournal {
            CheckpointStateView::At(CheckpointStep::OpenDestination)
        } else {
            CheckpointStateView::Confused
        },
        CheckpointEventView::FoundAllocated => if step is LoadJournal {
            CheckpointStateView::At(CheckpointStep::OpenAbandoned)
        } else {
            CheckpointStateView::Confused
        },
        CheckpointEventView::FoundPrepared => if step is LoadJournal {
            CheckpointStateView::At(CheckpointStep::ReopenDestination)
        } else {
            CheckpointStateView::Confused
        },
        CheckpointEventView::FoundPublished => if step is LoadJournal {
            CheckpointStateView::At(CheckpointStep::OpenPublished)
        } else {
            CheckpointStateView::Confused
        },
        CheckpointEventView::Done => match successor(step) {
            Some(next) => CheckpointStateView::At(next),
            None => if step is LoadJournal {
                CheckpointStateView::Confused
            } else {
                CheckpointStateView::Succeeded
            },
        },
        CheckpointEventView::Missing => if step is OpenPending {
            CheckpointStateView::At(CheckpointStep::OpenFinal)
        } else if step is OpenFinal {
            CheckpointStateView::Refused(lost_artifact())
        } else {
            CheckpointStateView::Confused
        },
        CheckpointEventView::Failed(error) => if step is Dump {
            CheckpointStateView::DumpFailed(error)
        } else if step is OpenPublished && error.code == ErrorCode::NotFound {
            CheckpointStateView::Succeeded
        } else if step is OpenAbandoned && error.code == ErrorCode::NotFound {
            CheckpointStateView::At(CheckpointStep::RemoveAbandonedJournal)
        } else {
            unwound(step, 0, error)
        },
        CheckpointEventView::CleanupFailed(cause) => CheckpointStateView::Confused,
    }
}

/// Where an operation stands after an event.
pub open spec fn next_state(
    state: CheckpointStateView,
    event: CheckpointEventView,
) -> CheckpointStateView {
    match state {
        CheckpointStateView::At(step) => after_step(step, event),
        CheckpointStateView::DumpFailed(error) => match event {
            CheckpointEventView::Done => unwound(CheckpointStep::Dump, 0, error),
            CheckpointEventView::CleanupFailed(cause) => unwound(
                CheckpointStep::Dump,
                0,
                with_cleanup_failure(error, "source freezer recheck"@, cause),
            ),
            _ => CheckpointStateView::Confused,
        },
        CheckpointStateView::Unwinding(step, index, error) => match event {
            CheckpointEventView::Done => unwound(step, index + 1, error),
            CheckpointEventView::CleanupFailed(cause) => unwound(
                step,
                index + 1,
                with_cleanup_failure(error, cleanup_label(cleanup_plan(step)[index]), cause),
            ),
            _ => CheckpointStateView::Confused,
        },
        CheckpointStateView::Succeeded => CheckpointStateView::Confused,
        CheckpointStateView::Refused(error) => CheckpointStateView::Confused,
        CheckpointStateView::Confused => CheckpointStateView::Confused,
    }
}

/// The cleanup at a place in the plan of a step.
pub fn planned_cleanup(step: CheckpointStep, index: usize) -> (cleanup: Option<Cleanup>)
    ensures
        cleanup is Some <==> index < cleanup_plan(step).len(),
        cleanup matches Some(found) ==> found == cleanup_plan(step)[index as int],
{
    match step {
        CheckpointStep::Dump | CheckpointStep::Recheck | CheckpointStep::DrawToken
        | CheckpointStep::StoreAllocated => if index == 0 {
            Some(Cleanup::Stage)
        } else {
            None
        },
        CheckpointStep::CreatePending => match index {
            0 => Some(Cleanup::Stage),
            1 => Some(Cleanup::Journal),
            _ => None,
        },
        CheckpointStep::Build => match index {
            0 => Some(Cleanup::CreatedPending),
            1 => Some(Cleanup::Stage),
            2 => Some(Cleanup::Journal),
            _ => None,
        },
        CheckpointStep::ReleaseStage | CheckpointStep::StorePrepared => match index {
            0 => Some(Cleanup::CreatedPending),
            1 => Some(Cleanup::Journal),
            _ => None,
        },
        CheckpointStep::Publish => match index {
            0 => Some(Cleanup::OwnedPending),
            1 => Some(Cleanup::Journal),
            _ => None,
        },
        _ => None,
    }
}

fn unwind(step: CheckpointStep, index: usize, error: Error) -> (state: CheckpointState)
    ensures
        state@ == unwound(step, index as int, error@),
{
    let stop = match step {
        CheckpointStep::Publish => error.code != ErrorCode::AlreadyExists,
        _ => false,
    };
    if planned_cleanup(step, index).is_some() && !stop {
        CheckpointState::Unwinding { step, index, error }
    } else {
        CheckpointState::Refused(error)
    }
}

fn next_step(step: CheckpointStep) -> (next: Option<CheckpointStep>)
    ensures
        next == successor(step),
{
    match step {
        CheckpointStep::LoadJournal => None,
        CheckpointStep::OpenPublished => Some(CheckpointStep::RemovePublishedPending),
        CheckpointStep::RemovePublishedPending => None,
        CheckpointStep::OpenAbandoned => Some(CheckpointStep::RemoveAbandonedPending),
        CheckpointStep::RemoveAbandonedPending => Some(CheckpointStep::RemoveAbandonedJournal),
        CheckpointStep::RemoveAbandonedJournal => Some(CheckpointStep::OpenDestination),
        CheckpointStep::OpenDestination => Some(CheckpointStep::EnsureAbsent),
        CheckpointStep::EnsureAbsent => Some(CheckpointStep::InspectSource),
        CheckpointStep::InspectSource => Some(CheckpointStep::CreateStage),
        CheckpointStep::CreateStage => Some(CheckpointStep::Dump),
        CheckpointStep::Dump => Some(CheckpointStep::Recheck),
        CheckpointStep::Recheck => Some(CheckpointStep::DrawToken),
        CheckpointStep::DrawToken => Some(CheckpointStep::StoreAllocated),
        CheckpointStep::StoreAllocated => Some(CheckpointStep::CreatePending),
        CheckpointStep::CreatePending => Some(CheckpointStep::Build),
        CheckpointStep::Build => Some(CheckpointStep::ReleaseStage),
        CheckpointStep::ReleaseStage => Some(CheckpointStep::MakeResult),
        CheckpointStep::MakeResult => Some(CheckpointStep::StorePrepared),
        CheckpointStep::StorePrepared => Some(CheckpointStep::ReopenDestination),
        CheckpointStep::ReopenDestination => Some(CheckpointStep::OpenPending),
        CheckpointStep::OpenPending => Some(CheckpointStep::ValidatePending),
        CheckpointStep::ValidatePending => Some(CheckpointStep::Publish),
        CheckpointStep::Publish => Some(CheckpointStep::StorePublished),
        CheckpointStep::OpenFinal => Some(CheckpointStep::ValidateFinal),
        CheckpointStep::ValidateFinal => Some(CheckpointStep::StorePublished),
        CheckpointStep::StorePublished => Some(CheckpointStep::RemovePending),
        CheckpointStep::RemovePending => None,
    }
}

fn label_of(cleanup: Cleanup) -> (label: &'static str)
    ensures
        label@ == cleanup_label(cleanup),
{
    match cleanup {
        Cleanup::Stage => "checkpoint stage cleanup",
        Cleanup::CreatedPending => "pending artifact cleanup",
        Cleanup::OwnedPending => "pending artifact cleanup",
        Cleanup::Journal => "checkpoint journal cleanup",
    }
}

impl CheckpointState {
    /// The start of an operation.
    pub fn start() -> (state: CheckpointState)
        ensures
            state@ == CheckpointStateView::At(CheckpointStep::LoadJournal),
    {
        CheckpointState::At(CheckpointStep::LoadJournal)
    }

    /// Where an operation stands after an event.
    pub fn advance(self, event: CheckpointEvent) -> (state: CheckpointState)
        requires
            self matches CheckpointState::Unwinding { step, index, error } ==> index
                < cleanup_plan(step).len(),
        ensures
            state@ == next_state(self@, event@),
            state matches CheckpointState::Unwinding { step, index, error } ==> index
                < cleanup_plan(step).len(),
    {
        match self {
            CheckpointState::At(step) => Self::advance_step(step, event),
            CheckpointState::DumpFailed(error) => match event {
                CheckpointEvent::Done => unwind(CheckpointStep::Dump, 0, error),
                CheckpointEvent::CleanupFailed(cause) => {
                    let mut error = error;
                    append_failure(&mut error, "source freezer recheck", &cause);
                    unwind(CheckpointStep::Dump, 0, error)
                },
                _ => CheckpointState::Confused,
            },
            CheckpointState::Unwinding { step, index, error } => match event {
                CheckpointEvent::Done => unwind(step, index + 1, error),
                CheckpointEvent::CleanupFailed(cause) => {
                    let mut error = error;
                    match planned_cleanup(step, index) {
                        Some(cleanup) => {
                            append_failure(&mut error, label_of(cleanup), &cause);
                        },
                        None => {},
                    }
                    unwind(step, index + 1, error)
                },
                _ => CheckpointState::Confused,
            },
            _ => CheckpointState::Confused,
        }
    }

    fn advance_step(step: CheckpointStep, event: CheckpointEvent) -> (state: CheckpointState)
        ensures
            state@ == after_step(step, event@),
            state matches CheckpointState::Unwinding { step, index, error } ==> index
                < cleanup_plan(step).len(),
    {
        let loading = match step {
            CheckpointStep::LoadJournal => true,
            _ => false,
        };
        match event {
            CheckpointEvent::NoJournal => if loading {
                CheckpointState::At(CheckpointStep::OpenDestination)
            } else {
                CheckpointState::Confused
            },
            CheckpointEvent::FoundAllocated => if loading {
                CheckpointState::At(CheckpointStep::OpenAbandoned)
            } else {
                CheckpointState::Confused
            },
            CheckpointEvent::FoundPrepared => if loading {
                CheckpointState::At(CheckpointStep::ReopenDestination)
            } else {
                CheckpointState::Confused
            },
            CheckpointEvent::FoundPublished => if loading {
                CheckpointState::At(CheckpointStep::OpenPublished)
            } else {
                CheckpointState::Confused
            },
            CheckpointEvent::Done => match next_step(step) {
                Some(next) => CheckpointState::At(next),
                None => if loading {
                    CheckpointState::Confused
                } else {
                    CheckpointState::Succeeded
                },
            },
            CheckpointEvent::Missing => match step {
                CheckpointStep::OpenPending => CheckpointState::At(CheckpointStep::OpenFinal),
                CheckpointStep::OpenFinal => CheckpointState::Refused(
                    crate::error::checkpoint_error(
                        ErrorCode::Unavailable,
                        "prepared checkpoint lost both its retained pending file and published artifact",
                    ).retryable(true),
                ),
                _ => CheckpointState::Confused,
            },
            CheckpointEvent::Failed(error) => match step {
                CheckpointStep::Dump => CheckpointState::DumpFailed(error),
                CheckpointStep::OpenPublished => if error.code == ErrorCode::NotFound {
                    CheckpointState::Succeeded
                } else {
                    unwind(step, 0, error)
                },
                CheckpointStep::OpenAbandoned => if error.code == ErrorCode::NotFound {
                    CheckpointState::At(CheckpointStep::RemoveAbandonedJournal)
                } else {
                    unwind(step, 0, error)
                },
                _ => unwind(step, 0, error),
            },
            CheckpointEvent::CleanupFailed(_) => CheckpointState::Confused,
        }
    }
}

/// What a fresh operation has made and not yet given up when a step begins.
pub open spec fn held(step: CheckpointStep) -> Set<Cleanup> {
    match step {
        CheckpointStep::Dump => set![Cleanup::Stage],
        CheckpointStep::Recheck => set![Cleanup::Stage],
        CheckpointStep::DrawToken => set![Cleanup::Stage],
        CheckpointStep::StoreAllocated => set![Cleanup::Stage],
        CheckpointStep::CreatePending => set![Cleanup::Stage, Cleanup::Journal],
        CheckpointStep::Build => set![Cleanup::Stage, Cleanup::Journal, Cleanup::CreatedPending],
        CheckpointStep::ReleaseStage => set![
            Cleanup::Stage,
            Cleanup::Journal,
            Cleanup::CreatedPending,
        ],
        CheckpointStep::MakeResult => set![Cleanup::Journal, Cleanup::CreatedPending],
        CheckpointStep::StorePrepared => set![Cleanup::Journal, Cleanup::CreatedPending],
        _ => Set::empty(),
    }
}

/// What a step makes when it succeeds.
pub open spec fn made_by(step: CheckpointStep) -> Set<Cleanup> {
    match step {
        CheckpointStep::CreateStage => set![Cleanup::Stage],
        CheckpointStep::StoreAllocated => set![Cleanup::Journal],
        CheckpointStep::CreatePending => set![Cleanup::CreatedPending],
        _ => Set::empty(),
    }
}

/// What a step gives up when it succeeds.
pub open spec fn released_by(step: CheckpointStep) -> Set<Cleanup> {
    match step {
        CheckpointStep::ReleaseStage => set![Cleanup::Stage],
        _ => Set::empty(),
    }
}

/// The steps from an open destination to a prepared artifact.
pub open spec fn is_fresh_step(step: CheckpointStep) -> bool {
    step is OpenDestination || step is EnsureAbsent || step is InspectSource || step is CreateStage
        || step is Dump || step is Recheck || step is DrawToken || step is StoreAllocated || step
        is CreatePending || step is Build || step is ReleaseStage || step is MakeResult || step
        is StorePrepared
}

/// What is held follows from what the steps make and give up.
pub proof fn held_follows_the_steps(step: CheckpointStep)
    requires
        is_fresh_step(step),
        !(step is StorePrepared),
    ensures
        successor(step) is Some,
        held(successor(step)->0) == held(step).union(made_by(step)).difference(released_by(step)),
{
    let after = held(step).union(made_by(step)).difference(released_by(step));
    assert(held(successor(step)->0) =~= after);
}

/// A fresh operation that fails plans to give up all that it has made, except
/// for what the failed step itself could not give up. The one step that plans
/// nothing is the making of the result from a packaged artifact.
pub proof fn failed_operations_plan_full_cleanup(step: CheckpointStep, cleanup: Cleanup)
    requires
        is_fresh_step(step),
        !(step is MakeResult),
    ensures
        cleanup_plan(step).contains(cleanup) <==> held(step).difference(
            released_by(step),
        ).contains(cleanup),
{
    let plan = cleanup_plan(step);
    if held(step).difference(released_by(step)).contains(cleanup) {
        if plan.len() > 0 && plan[0] == cleanup {
            assert(plan.contains(cleanup));
        } else if plan.len() > 1 && plan[1] == cleanup {
            assert(plan.contains(cleanup));
        } else {
            assert(plan[2] == cleanup);
        }
    }
}

/// A failing operation reports the failure that came first: every later one
/// only adds to its message.
pub proof fn first_failure_is_reported(
    state: CheckpointStateView,
    event: CheckpointEventView,
    error: ErrorView,
)
    requires
        state == CheckpointStateView::DumpFailed(error) || (state matches CheckpointStateView::Unwinding(
            step,
            index,
            found,
        ) && found == error),
        event is Done || event is CleanupFailed,
    ensures
        match next_state(state, event) {
            CheckpointStateView::Unwinding(step, index, after) => after.code == error.code
                && after.operation == error.operation && after.retryable == error.retryable
                && error.message.is_prefix_of(after.message),
            CheckpointStateView::Refused(after) => after.code == error.code && after.operation
                == error.operation && after.retryable == error.retryable
                && error.message.is_prefix_of(after.message),
            _ => false,
        },
{
    assert(error.message.is_prefix_of(error.message)) by {
        assert(error.message =~= error.message.subrange(0, error.message.len() as int));
    }
    match event {
        CheckpointEventView::CleanupFailed(cause) => {
            let label = match state {
                CheckpointStateView::DumpFailed(found) => "source freezer recheck"@,
                CheckpointStateView::Unwinding(step, index, found) => cleanup_label(
                    cleanup_plan(step)[index],
                ),
                _ => ""@,
            };
            let longer = with_failure(error.message, label, cause);
            assert(error.message =~= longer.subrange(0, error.message.len() as int));
        },
        _ => {},
    }
}

/// An operation succeeds only once the artifact is recorded as published.
pub proof fn success_follows_publication(step: CheckpointStep, event: CheckpointEventView)
    requires
        after_step(step, event) is Succeeded,
    ensures
        step is RemovePending || step is RemovePublishedPending || (step is OpenPublished
            && event is Failed && event->Failed_0.code == ErrorCode::NotFound),
        forall|earlier: CheckpointStep|
            #[trigger] successor(earlier) == Some(CheckpointStep::RemovePending) ==> earlier
                is StorePublished,
{
}

/// Where an operation stands after a series of events.
pub open spec fn course(events: Seq<CheckpointEventView>) -> CheckpointStateView
    decreases events.len(),
{
    if events.len() == 0 {
        CheckpointStateView::At(CheckpointStep::LoadJournal)
    } else {
        next_state(course(events.drop_last()), events.last())
    }
}

/// The event at a place of a series is the success of a step.
pub open spec fn performed(
    events: Seq<CheckpointEventView>,
    place: int,
    step: CheckpointStep,
) -> bool {
    &&& 0 <= place < events.len()
    &&& course(events.take(place)) == CheckpointStateView::At(step)
    &&& events[place] is Done
}

/// A first event, and behind it only successes.
pub open spec fn undisturbed(first: CheckpointEventView, successes: nat) -> Seq<
    CheckpointEventView,
> {
    seq![first] + Seq::new(successes, |i: int| CheckpointEventView::Done)
}

proof fn course_moves(events: Seq<CheckpointEventView>, place: int)
    requires
        0 <= place < events.len(),
    ensures
        course(events.take(place + 1)) == next_state(course(events.take(place)), events[place]),
        course(events.take(0)) == CheckpointStateView::At(CheckpointStep::LoadJournal),
        events.take(events.len() as int) == events,
{
    let longer = events.take(place + 1);
    assert(longer.drop_last() =~= events.take(place));
    assert(events.take(events.len() as int) =~= events);
}

proof fn course_starts_once(events: Seq<CheckpointEventView>)
    requires
        events.len() > 0,
    ensures
        course(events) != CheckpointStateView::At(CheckpointStep::LoadJournal),
{
}

/// The journal says that an artifact is published only after the artifact was put at
/// its destination, or was found there and checked. What was put there was checked
/// just before.
pub proof fn published_journals_have_an_artifact(events: Seq<CheckpointEventView>)
    requires
        course(events) == CheckpointStateView::At(CheckpointStep::StorePublished),
    ensures
        events.len() >= 3,
        ({
            let last = events.len() - 1;
            ||| {
                &&& performed(events, last - 1, CheckpointStep::ValidatePending)
                &&& performed(events, last, CheckpointStep::Publish)
            }
            ||| {
                &&& performed(events, last - 1, CheckpointStep::OpenFinal)
                &&& performed(events, last, CheckpointStep::ValidateFinal)
            }
        }),
{
    let last = events.len() - 1;
    course_moves(events, last);
    assert(last > 0);
    course_moves(events, last - 1);
    assert(last > 1);
}

/// The step whose success leads to a step, on the way to a complete artifact.
spec fn predecessor(step: CheckpointStep) -> Option<CheckpointStep> {
    match step {
        CheckpointStep::StorePrepared => Some(CheckpointStep::MakeResult),
        CheckpointStep::MakeResult => Some(CheckpointStep::ReleaseStage),
        CheckpointStep::ReleaseStage => Some(CheckpointStep::Build),
        CheckpointStep::Build => Some(CheckpointStep::CreatePending),
        CheckpointStep::CreatePending => Some(CheckpointStep::StoreAllocated),
        CheckpointStep::StoreAllocated => Some(CheckpointStep::DrawToken),
        CheckpointStep::DrawToken => Some(CheckpointStep::Recheck),
        CheckpointStep::Recheck => Some(CheckpointStep::Dump),
        CheckpointStep::Dump => Some(CheckpointStep::CreateStage),
        CheckpointStep::CreateStage => Some(CheckpointStep::InspectSource),
        CheckpointStep::InspectSource => Some(CheckpointStep::EnsureAbsent),
        CheckpointStep::EnsureAbsent => Some(CheckpointStep::OpenDestination),
        _ => None,
    }
}

proof fn entered_by_success(events: Seq<CheckpointEventView>, place: int, step: CheckpointStep)
    requires
        0 <= place <= events.len(),
        course(events.take(place)) == CheckpointStateView::At(step),
        predecessor(step) is Some,
    ensures
        performed(events, place - 1, predecessor(step)->0),
{
    if place == 0 {
        assert(events.take(0) =~= Seq::empty());
    } else {
        course_moves(events, place - 1);
    }
}

proof fn succeeded_by_removal(events: Seq<CheckpointEventView>)
    requires
        course(events) is Succeeded,
        events[0] is NoJournal || events[0] is FoundAllocated,
    ensures
        performed(events, events.len() - 1, CheckpointStep::RemovePending),
        performed(events, events.len() - 2, CheckpointStep::StorePublished),
{
    let end = events.len() - 1;
    assert(events.len() > 0);
    course_moves(events, 0);
    course_moves(events, end);
    assert(end > 0);
    resumed_stays_resumed(events, end);
    course_moves(events, end - 1);
    assert(end - 1 > 0);
}

/// The artifact was checked and then published, or, where the pending file was missing,
/// found at its destination and checked there, just ahead of a place.
pub open spec fn came_to_its_destination(events: Seq<CheckpointEventView>, place: int) -> bool {
    ||| {
        &&& performed(events, place - 3, CheckpointStep::OpenPending)
        &&& performed(events, place - 2, CheckpointStep::ValidatePending)
        &&& performed(events, place - 1, CheckpointStep::Publish)
    }
    ||| {
        &&& events[place - 3] is Missing
        &&& performed(events, place - 2, CheckpointStep::OpenFinal)
        &&& performed(events, place - 1, CheckpointStep::ValidateFinal)
    }
}

proof fn published_from_prepared(
    shorter: Seq<CheckpointEventView>,
    events: Seq<CheckpointEventView>,
    stored: int,
)
    requires
        0 < stored < events.len(),
        shorter == events.take(stored),
        events[0] is NoJournal || events[0] is FoundAllocated,
        course(shorter) == CheckpointStateView::At(CheckpointStep::StorePublished),
    ensures
        came_to_its_destination(events, stored),
        performed(events, stored - 5, CheckpointStep::StorePrepared),
{
    published_journals_have_an_artifact(shorter);
    assert(shorter.take(stored - 1) =~= events.take(stored - 1));
    assert(shorter.take(stored - 2) =~= events.take(stored - 2));
    course_moves(events, stored - 3);
    assert(course(events.take(stored - 3)) == CheckpointStateView::At(CheckpointStep::OpenPending));
    opened_behind_prepared(events, stored - 3);
}

proof fn opened_behind_prepared(events: Seq<CheckpointEventView>, place: int)
    requires
        0 <= place <= events.len(),
        events[0] is NoJournal || events[0] is FoundAllocated,
        course(events.take(place)) == CheckpointStateView::At(CheckpointStep::OpenPending),
    ensures
        performed(events, place - 2, CheckpointStep::StorePrepared),
{
    assert(events.take(0) =~= Seq::empty());
    course_moves(events, place - 1);
    assert(place - 1 > 0);
    course_moves(events, place - 2);
    if place - 2 > 0 {
        course_starts_once(events.take(place - 2));
    }
}

/// A checkpoint that succeeds without a journal of an earlier try, or after an
/// abandoned one, has done all of its work, in order: the destination was opened and
/// free, the source was inspected, dumped and inspected again, the journal was written before
/// anything was made at the destination, the images were packaged, the journal named
/// the complete artifact, the artifact was checked and published, the journal says so,
/// and the pending file was removed last. Only where the pending file was missing can the
/// artifact have been found at its destination and checked there instead.
pub proof fn fresh_checkpoints_do_all_their_work(events: Seq<CheckpointEventView>)
    requires
        course(events) is Succeeded,
        events[0] is NoJournal || events[0] is FoundAllocated,
    ensures
        exists|
            absent: int,
            inspected: int,
            dumped: int,
            rechecked: int,
            allocated: int,
            created: int,
            built: int,
            prepared: int,
            stored: int,
        |
            {
                &&& absent < inspected < dumped < rechecked < allocated < created < built < prepared
                    < stored - 1 < events.len() - 2
                &&& performed(events, absent - 1, CheckpointStep::OpenDestination)
                &&& #[trigger] performed(events, absent, CheckpointStep::EnsureAbsent)
                &&& #[trigger] performed(events, inspected, CheckpointStep::InspectSource)
                &&& #[trigger] performed(events, dumped, CheckpointStep::Dump)
                &&& #[trigger] performed(events, rechecked, CheckpointStep::Recheck)
                &&& #[trigger] performed(events, allocated, CheckpointStep::StoreAllocated)
                &&& #[trigger] performed(events, created, CheckpointStep::CreatePending)
                &&& #[trigger] performed(events, built, CheckpointStep::Build)
                &&& #[trigger] performed(events, prepared, CheckpointStep::StorePrepared)
                &&& came_to_its_destination(events, stored)
                &&& #[trigger] performed(events, stored, CheckpointStep::StorePublished)
            },
        performed(events, events.len() - 1, CheckpointStep::RemovePending),
{
    let end = events.len() - 1;
    succeeded_by_removal(events);
    let stored = end - 1;
    published_from_prepared(events.take(stored), events, stored);
    let prepared = stored - 5;
    entered_by_success(events, prepared, CheckpointStep::StorePrepared);
    entered_by_success(events, prepared - 1, CheckpointStep::MakeResult);
    entered_by_success(events, prepared - 2, CheckpointStep::ReleaseStage);
    entered_by_success(events, prepared - 3, CheckpointStep::Build);
    entered_by_success(events, prepared - 4, CheckpointStep::CreatePending);
    entered_by_success(events, prepared - 5, CheckpointStep::StoreAllocated);
    entered_by_success(events, prepared - 6, CheckpointStep::DrawToken);
    entered_by_success(events, prepared - 7, CheckpointStep::Recheck);
    entered_by_success(events, prepared - 8, CheckpointStep::Dump);
    entered_by_success(events, prepared - 9, CheckpointStep::CreateStage);
    entered_by_success(events, prepared - 10, CheckpointStep::InspectSource);
    entered_by_success(events, prepared - 11, CheckpointStep::EnsureAbsent);
    assert(performed(events, prepared - 11, CheckpointStep::EnsureAbsent));
    assert(performed(events, prepared - 10, CheckpointStep::InspectSource));
    assert(performed(events, prepared - 8, CheckpointStep::Dump));
    assert(performed(events, prepared - 7, CheckpointStep::Recheck));
    assert(performed(events, prepared - 5, CheckpointStep::StoreAllocated));
    assert(performed(events, prepared - 4, CheckpointStep::CreatePending));
    assert(performed(events, prepared - 3, CheckpointStep::Build));
    assert(performed(events, prepared, CheckpointStep::StorePrepared));
    assert(performed(events, stored, CheckpointStep::StorePublished));
}

/// A fresh checkpoint that succeeds and finds nothing missing has dumped its source,
/// inspected it again, packaged the images, checked the artifact and published it, in this
/// order.
pub proof fn fresh_checkpoints_publish(events: Seq<CheckpointEventView>)
    requires
        course(events) is Succeeded,
        events[0] is NoJournal || events[0] is FoundAllocated,
        forall|i: int| 0 <= i < events.len() ==> !((#[trigger] events[i]) is Missing),
    ensures
        exists|dumped: int, rechecked: int, built: int, validated: int, published: int|
            {
                &&& dumped < rechecked < built < validated < published < events.len()
                &&& #[trigger] performed(events, dumped, CheckpointStep::Dump)
                &&& #[trigger] performed(events, rechecked, CheckpointStep::Recheck)
                &&& #[trigger] performed(events, built, CheckpointStep::Build)
                &&& #[trigger] performed(events, validated, CheckpointStep::ValidatePending)
                &&& #[trigger] performed(events, published, CheckpointStep::Publish)
            },
{
    fresh_checkpoints_do_all_their_work(events);
    let (
        absent,
        inspected,
        dumped,
        rechecked,
        allocated,
        created,
        built,
        prepared,
        stored,
    ) = choose|
        absent: int,
        inspected: int,
        dumped: int,
        rechecked: int,
        allocated: int,
        created: int,
        built: int,
        prepared: int,
        stored: int,
    |
        {
            &&& absent < inspected < dumped < rechecked < allocated < created < built < prepared
                < stored - 1 < events.len() - 2
            &&& performed(events, absent - 1, CheckpointStep::OpenDestination)
            &&& #[trigger] performed(events, absent, CheckpointStep::EnsureAbsent)
            &&& #[trigger] performed(events, inspected, CheckpointStep::InspectSource)
            &&& #[trigger] performed(events, dumped, CheckpointStep::Dump)
            &&& #[trigger] performed(events, rechecked, CheckpointStep::Recheck)
            &&& #[trigger] performed(events, allocated, CheckpointStep::StoreAllocated)
            &&& #[trigger] performed(events, created, CheckpointStep::CreatePending)
            &&& #[trigger] performed(events, built, CheckpointStep::Build)
            &&& #[trigger] performed(events, prepared, CheckpointStep::StorePrepared)
            &&& came_to_its_destination(events, stored)
            &&& #[trigger] performed(events, stored, CheckpointStep::StorePublished)
        };
    assert(0 <= stored - 3 < events.len());
    assert(performed(events, stored - 2, CheckpointStep::ValidatePending));
    assert(performed(events, stored - 1, CheckpointStep::Publish));
    assert(dumped < rechecked < built < stored - 2 < stored - 1 < events.len());
}

/// The steps that an operation can be at whose artifact was packaged in an earlier try.
pub open spec fn is_late_step(step: CheckpointStep) -> bool {
    step is ReopenDestination || step is OpenPending || step is ValidatePending || step is Publish
        || step is OpenFinal || step is ValidateFinal || step is StorePublished || step
        is RemovePending
}

/// The steps that an operation can be at whose artifact is at its destination.
pub open spec fn is_replay_step(step: CheckpointStep) -> bool {
    step is OpenPublished || step is RemovePublishedPending
}

proof fn resumed_stays_resumed(events: Seq<CheckpointEventView>, place: int)
    requires
        0 < place <= events.len(),
    ensures
        events[0] is FoundPrepared ==> (course(events.take(place)) matches CheckpointStateView::At(
            step,
        ) ==> is_late_step(step)),
        events[0] is FoundPublished ==> (course(events.take(place)) matches CheckpointStateView::At(
            step,
        ) ==> is_replay_step(step)),
        !(events[0] is FoundPublished) ==> (course(events.take(place)) matches CheckpointStateView::At(
            step,
        ) ==> !is_replay_step(step)),
    decreases place,
{
    course_moves(events, place - 1);
    if place > 1 {
        resumed_stays_resumed(events, place - 1);
    } else {
        course_moves(events, 0);
    }
}

/// A checkpoint is replayed, not repeated: where the journal says that the artifact is
/// complete the source is not dumped and nothing is packaged again, and where it says
/// that the artifact is published nothing is published again either.
pub proof fn finished_work_is_not_repeated(
    events: Seq<CheckpointEventView>,
    place: int,
    step: CheckpointStep,
)
    requires
        0 < place <= events.len(),
        events[0] is FoundPrepared || events[0] is FoundPublished,
        course(events.take(place)) == CheckpointStateView::At(step),
    ensures
        !(step is Dump || step is CreateStage || step is DrawToken || step is StoreAllocated || step
            is CreatePending || step is Build || step is StorePrepared),
        events[0] is FoundPublished ==> !(step is Publish || step is StorePublished),
{
    resumed_stays_resumed(events, place);
}

/// What an abandoned try left behind is gone before anything is made anew: its journal
/// is removed, and ahead of it its pending file, unless the destination is gone.
pub proof fn abandoned_work_is_removed_first(events: Seq<CheckpointEventView>)
    requires
        events.len() > 1,
        events[0] is FoundAllocated,
        course(events) == CheckpointStateView::At(CheckpointStep::OpenDestination),
    ensures
        ({
            let last = events.len() - 1;
            &&& performed(events, last, CheckpointStep::RemoveAbandonedJournal)
            &&& performed(events, last - 1, CheckpointStep::RemoveAbandonedPending) || (
            events[last - 1] matches CheckpointEventView::Failed(error) && error.code
                == ErrorCode::NotFound && course(events.take(last - 1)) == CheckpointStateView::At(
                CheckpointStep::OpenAbandoned,
            ))
        }),
{
    let last = events.len() - 1;
    course_moves(events, 0);
    course_moves(events, last);
    course_starts_once(events.take(last));
    course_moves(events, last - 1);
    assert(last - 1 > 0);
}

proof fn success_moves_on(first: CheckpointEventView, successes: nat)
    ensures
        course(undisturbed(first, successes + 1)) == next_state(
            course(undisturbed(first, successes)),
            CheckpointEventView::Done,
        ),
{
    let longer = undisturbed(first, successes + 1);
    assert(longer.drop_last() =~= undisturbed(first, successes));
}

proof fn first_event_counts(first: CheckpointEventView)
    ensures
        course(undisturbed(first, 0)) == after_step(CheckpointStep::LoadJournal, first),
{
    let only = undisturbed(first, 0);
    assert(only.drop_last() =~= Seq::empty());
    assert(only.last() == first);
    reveal_with_fuel(course, 2);
}

/// How many steps are left behind a step.
spec fn steps_left(step: CheckpointStep) -> nat {
    match step {
        CheckpointStep::RemovePending | CheckpointStep::RemovePublishedPending => 0,
        CheckpointStep::StorePublished | CheckpointStep::OpenPublished => 1,
        CheckpointStep::Publish | CheckpointStep::ValidateFinal => 2,
        CheckpointStep::ValidatePending | CheckpointStep::OpenFinal => 3,
        CheckpointStep::OpenPending => 4,
        CheckpointStep::ReopenDestination => 5,
        CheckpointStep::StorePrepared => 6,
        CheckpointStep::MakeResult => 7,
        CheckpointStep::ReleaseStage => 8,
        CheckpointStep::Build => 9,
        CheckpointStep::CreatePending => 10,
        CheckpointStep::StoreAllocated => 11,
        CheckpointStep::DrawToken => 12,
        CheckpointStep::Recheck => 13,
        CheckpointStep::Dump => 14,
        CheckpointStep::CreateStage => 15,
        CheckpointStep::InspectSource => 16,
        CheckpointStep::EnsureAbsent => 17,
        CheckpointStep::OpenDestination => 18,
        CheckpointStep::RemoveAbandonedJournal => 19,
        CheckpointStep::RemoveAbandonedPending => 20,
        CheckpointStep::OpenAbandoned => 21,
        CheckpointStep::LoadJournal => 22,
    }
}

proof fn successes_lead_to_success(
    first: CheckpointEventView,
    successes: nat,
    step: CheckpointStep,
)
    requires
        course(undisturbed(first, successes)) == CheckpointStateView::At(step),
        !(step is LoadJournal),
    ensures
        exists|enough: nat| #[trigger] course(undisturbed(first, enough)) is Succeeded,
    decreases steps_left(step),
{
    success_moves_on(first, successes);
    match successor(step) {
        Some(next) => successes_lead_to_success(first, successes + 1, next),
        None => {
            assert(course(undisturbed(first, successes + 1)) is Succeeded);
        },
    }
}

/// An operation whose every step succeeds succeeds, whatever an earlier try left.
pub proof fn undisturbed_checkpoints_succeed(first: CheckpointEventView)
    requires
        first is NoJournal || first is FoundAllocated || first is FoundPrepared || first
            is FoundPublished,
    ensures
        exists|successes: nat| #[trigger] course(undisturbed(first, successes)) is Succeeded,
{
    first_event_counts(first);
    match after_step(CheckpointStep::LoadJournal, first) {
        CheckpointStateView::At(step) => successes_lead_to_success(first, 0, step),
        _ => {},
    }
}

/// A step that fails fails the operation with exactly its error. There are two
/// exceptions, both of an absent destination: a published operation has nothing left
/// to remove, and an abandoned one goes on to remove its journal.
pub proof fn failed_steps_fail_the_operation(step: CheckpointStep, error: ErrorView)
    ensures
        match after_step(step, CheckpointEventView::Failed(error)) {
            CheckpointStateView::DumpFailed(reported) => step is Dump && reported == error,
            CheckpointStateView::Unwinding(at, index, reported) => at == step && index == 0
                && reported == error,
            CheckpointStateView::Refused(reported) => reported == error,
            CheckpointStateView::Succeeded => step is OpenPublished && error.code is NotFound,
            CheckpointStateView::At(next) => step is OpenAbandoned && error.code is NotFound
                && next is RemoveAbandonedJournal,
            CheckpointStateView::Confused => false,
        },
{
}

/// An operation that has failed neither goes on nor succeeds.
pub proof fn failed_operations_stay_failed(state: CheckpointStateView, event: CheckpointEventView)
    requires
        state is DumpFailed || state is Unwinding || state is Refused || state is Confused,
    ensures
        !(next_state(state, event) is At),
        !(next_state(state, event) is Succeeded),
{
}

/// The cleanups of a failed operation are done one after the other, whether they
/// succeed or fail, and the failure is handed out behind the last one.
pub proof fn cleanups_are_done_one_by_one(
    step: CheckpointStep,
    index: int,
    error: ErrorView,
    event: CheckpointEventView,
)
    requires
        0 <= index < cleanup_plan(step).len(),
        event is Done || event is CleanupFailed,
        step is Publish ==> error.code is AlreadyExists,
    ensures
        match next_state(CheckpointStateView::Unwinding(step, index, error), event) {
            CheckpointStateView::Unwinding(at, next, reported) => at == step && next == index + 1
                && next < cleanup_plan(step).len(),
            CheckpointStateView::Refused(reported) => index + 1 == cleanup_plan(step).len(),
            _ => false,
        },
{
}

/// The journal is given up last, so that a crash in the middle leaves a journal that
/// says what is left to remove.
pub proof fn journals_are_given_up_last(step: CheckpointStep, index: int)
    requires
        0 <= index < cleanup_plan(step).len(),
        cleanup_plan(step)[index] is Journal,
    ensures
        index == cleanup_plan(step).len() - 1,
{
}

/// A publication that finds its destination taken gives up the file that its token
/// owns and its journal, and nothing else. One that fails otherwise keeps both, so that
/// it can be tried again.
pub proof fn taken_destinations_end_a_publication(error: ErrorView)
    ensures
        error.code is AlreadyExists ==> after_step(
            CheckpointStep::Publish,
            CheckpointEventView::Failed(error),
        ) is Unwinding,
        error.code is AlreadyExists ==> cleanup_plan(CheckpointStep::Publish).to_set() == set![
            Cleanup::OwnedPending,
            Cleanup::Journal,
        ],
        !(error.code is AlreadyExists) ==> after_step(
            CheckpointStep::Publish,
            CheckpointEventView::Failed(error),
        ) == CheckpointStateView::Refused(error),
{
    let plan = cleanup_plan(CheckpointStep::Publish);
    let expected = set![Cleanup::OwnedPending, Cleanup::Journal];
    assert forall|cleanup: Cleanup| plan.to_set().contains(cleanup) == expected.contains(
        cleanup,
    ) by {
        assert(plan[0] == Cleanup::OwnedPending && plan[1] == Cleanup::Journal);
    }
    assert(plan.to_set() =~= expected);
}

/// A complete artifact that is neither pending nor at its destination is a failure that
/// may go away: it is never taken for a success.
pub proof fn lost_artifacts_are_reported(step: CheckpointStep)
    ensures
        !(after_step(step, CheckpointEventView::Missing) is Succeeded),
        after_step(step, CheckpointEventView::Missing) is At ==> step is OpenPending && after_step(
            step,
            CheckpointEventView::Missing,
        ) == CheckpointStateView::At(CheckpointStep::OpenFinal),
        step is OpenFinal ==> (after_step(step, CheckpointEventView::Missing) matches CheckpointStateView::Refused(
            error,
        ) && error.code is Unavailable && error.retryable),
{
}

/// One step of giving up what is left of an acknowledged operation.
#[derive(Clone, Copy, Debug, PartialEq, Eq, Structural)]
pub enum AcknowledgeStep {
    /// Read the restore journal.
    LoadRestore,
    /// Remove the restore stage.
    CleanupRestoreStage,
    /// Remove the restore journal.
    RemoveRestore,
    /// Read the checkpoint journal.
    Load,
    /// Open the destination of the pending artifact.
    OpenDestination,
    /// Remove the pending artifact that the token owns.
    RemovePending,
    /// Remove the checkpoint stage.
    CleanupStage,
    /// Remove the checkpoint journal.
    Remove,
    /// Nothing is left.
    Complete,
}

/// The step of an acknowledgement that follows one that succeeded. `found`
/// says whether what was read or opened is there.
pub open spec fn acknowledged(step: AcknowledgeStep, found: bool) -> AcknowledgeStep {
    match step {
        AcknowledgeStep::LoadRestore => if found {
            AcknowledgeStep::CleanupRestoreStage
        } else {
            AcknowledgeStep::Load
        },
        AcknowledgeStep::CleanupRestoreStage => AcknowledgeStep::RemoveRestore,
        AcknowledgeStep::RemoveRestore => AcknowledgeStep::Load,
        AcknowledgeStep::Load => if found {
            AcknowledgeStep::OpenDestination
        } else {
            AcknowledgeStep::Complete
        },
        AcknowledgeStep::OpenDestination => if found {
            AcknowledgeStep::RemovePending
        } else {
            AcknowledgeStep::CleanupStage
        },
        AcknowledgeStep::RemovePending => AcknowledgeStep::CleanupStage,
        AcknowledgeStep::CleanupStage => AcknowledgeStep::Remove,
        AcknowledgeStep::Remove => AcknowledgeStep::Complete,
        AcknowledgeStep::Complete => AcknowledgeStep::Complete,
    }
}

/// The step of an acknowledgement that follows one that succeeded.
pub fn acknowledge(step: AcknowledgeStep, found: bool) -> (next: AcknowledgeStep)
    ensures
        next == acknowledged(step, found),
{
    match step {
        AcknowledgeStep::LoadRestore => if found {
            AcknowledgeStep::CleanupRestoreStage
        } else {
            AcknowledgeStep::Load
        },
        AcknowledgeStep::CleanupRestoreStage => AcknowledgeStep::RemoveRestore,
        AcknowledgeStep::RemoveRestore => AcknowledgeStep::Load,
        AcknowledgeStep::Load => if found {
            AcknowledgeStep::OpenDestination
        } else {
            AcknowledgeStep::Complete
        },
        AcknowledgeStep::OpenDestination => if found {
            AcknowledgeStep::RemovePending
        } else {
            AcknowledgeStep::CleanupStage
        },
        AcknowledgeStep::RemovePending => AcknowledgeStep::CleanupStage,
        AcknowledgeStep::CleanupStage => AcknowledgeStep::Remove,
        AcknowledgeStep::Remove => AcknowledgeStep::Complete,
        AcknowledgeStep::Complete => AcknowledgeStep::Complete,
    }
}

/// Where an acknowledgement stands after a series of successes, each with whether what
/// was read or opened is there.
pub open spec fn acknowledgement(found: Seq<bool>) -> AcknowledgeStep
    decreases found.len(),
{
    if found.len() == 0 {
        AcknowledgeStep::LoadRestore
    } else {
        acknowledged(acknowledgement(found.drop_last()), found.last())
    }
}

/// A step of an acknowledgement was done, and found this.
pub open spec fn carried_out(
    found: Seq<bool>,
    place: int,
    step: AcknowledgeStep,
    there: bool,
) -> bool {
    0 <= place < found.len() && acknowledgement(found.take(place)) == step && found[place] == there
}

proof fn acknowledgement_moves(found: Seq<bool>, place: int)
    requires
        0 <= place < found.len(),
    ensures
        acknowledgement(found.take(place + 1)) == acknowledged(
            acknowledgement(found.take(place)),
            found[place],
        ),
        acknowledgement(found.take(0)) == AcknowledgeStep::LoadRestore,
        found.take(found.len() as int) == found,
{
    assert(found.take(place + 1).drop_last() =~= found.take(place));
    assert(found.take(0) =~= Seq::empty());
    assert(found.take(found.len() as int) =~= found);
}

/// An acknowledged operation leaves nothing behind: where there is a restore journal its
/// stage is removed and then the journal, and where there is a checkpoint journal the
/// pending artifact is removed if its destination is there, then the stage, and the
/// journal last.
pub proof fn acknowledged_operations_leave_nothing(found: Seq<bool>)
    requires
        found.len() > 0,
        acknowledgement(found) is Complete,
        !(acknowledgement(found.drop_last()) is Complete),
    ensures
        ({
            let last = found.len() - 1;
            ||| exists|loaded: int|
                {
                    &&& loaded < last - 1
                    &&& #[trigger] carried_out(found, loaded, AcknowledgeStep::Load, true)
                    &&& acknowledgement(found.take(loaded + 1)) is OpenDestination
                    &&& found[loaded + 1] ==> acknowledgement(found.take(loaded + 2))
                        is RemovePending
                    &&& acknowledgement(found.take(last - 1)) is CleanupStage
                    &&& acknowledgement(found.take(last)) is Remove
                }
            ||| carried_out(found, last, AcknowledgeStep::Load, false)
        }),
        found[0] ==> acknowledgement(found.take(1)) is CleanupRestoreStage && acknowledgement(
            found.take(2),
        ) is RemoveRestore && acknowledgement(found.take(3)) is Load,
        !found[0] ==> acknowledgement(found.take(1)) is Load,
{
    let last = found.len() - 1;
    assert(found.drop_last() =~= found.take(last));
    acknowledgement_moves(found, 0);
    acknowledgement_moves(found, last);
    if found[0] {
        assert(last > 0);
        acknowledgement_moves(found, 1);
        assert(last > 1) by {
            if last == 1 {
                assert(found.take(2) =~= found);
            }
        }
        acknowledgement_moves(found, 2);
    }
    if acknowledgement(found.take(last)) is Remove {
        assert(last > 0);
        acknowledgement_moves(found, last - 1);
        assert(last - 1 > 0);
        acknowledgement_moves(found, last - 2);
        assert(last - 2 > 0);
        acknowledgement_moves(found, last - 3);
        if acknowledgement(found.take(last - 2)) is RemovePending {
            assert(last - 3 > 0);
            acknowledgement_moves(found, last - 4);
            assert(carried_out(found, last - 4, AcknowledgeStep::Load, true));
        } else {
            assert(carried_out(found, last - 3, AcknowledgeStep::Load, true));
        }
    }
}

/// How many steps an acknowledgement has left at most.
spec fn acknowledge_steps_left(step: AcknowledgeStep) -> int {
    match step {
        AcknowledgeStep::LoadRestore => 8,
        AcknowledgeStep::CleanupRestoreStage => 7,
        AcknowledgeStep::RemoveRestore => 6,
        AcknowledgeStep::Load => 5,
        AcknowledgeStep::OpenDestination => 4,
        AcknowledgeStep::RemovePending => 3,
        AcknowledgeStep::CleanupStage => 2,
        AcknowledgeStep::Remove => 1,
        AcknowledgeStep::Complete => 0,
    }
}

proof fn acknowledgements_come_closer(found: Seq<bool>)
    ensures
        acknowledge_steps_left(acknowledgement(found)) <= if found.len() >= 8 {
            0
        } else {
            8 - found.len()
        },
    decreases found.len(),
{
    if found.len() > 0 {
        acknowledgements_come_closer(found.drop_last());
    }
}

/// An acknowledgement comes to its end, whatever it finds.
pub proof fn acknowledgements_end(found: Seq<bool>)
    requires
        found.len() >= 8,
    ensures
        acknowledgement(found) is Complete,
{
    acknowledgements_come_closer(found);
}

/// What a failed step gives up is what was made by then: the stage from its making until
/// the images are packaged, the pending artifact from its making until the journal names
/// it, the journal from the moment it is written, and a published name only where the
/// destination turned out to be taken.
pub proof fn failed_steps_give_up_what_was_made(step: CheckpointStep)
    ensures
        cleanup_plan(step).contains(Cleanup::Stage) <==> step is Dump || step is Recheck || step
            is DrawToken || step is StoreAllocated || step is CreatePending || step is Build,
        cleanup_plan(step).contains(Cleanup::CreatedPending) <==> step is Build || step
            is ReleaseStage || step is StorePrepared,
        cleanup_plan(step).contains(Cleanup::Journal) <==> step is CreatePending || step is Build
            || step is ReleaseStage || step is StorePrepared || step is Publish,
        cleanup_plan(step).contains(Cleanup::OwnedPending) <==> step is Publish,
        cleanup_plan(step).no_duplicates(),
{
    let plan = cleanup_plan(step);
    assert(plan.len() > 0 ==> plan.contains(plan[0]));
    assert(plan.len() > 1 ==> plan.contains(plan[1]));
    assert(plan.len() > 2 ==> plan.contains(plan[2]));
}

/// A failed step whose operation has something to give up begins with the first of it. A
/// failed dump does so behind a last look at the source, however that went; only a
/// publication that may be tried again gives nothing up.
pub proof fn failed_steps_begin_their_cleanup(step: CheckpointStep, error: ErrorView)
    requires
        cleanup_plan(step).len() > 0,
        step is Publish ==> error.code is AlreadyExists,
    ensures
        !(step is Dump) ==> after_step(step, CheckpointEventView::Failed(error))
            == CheckpointStateView::Unwinding(step, 0, error),
        step is Dump ==> after_step(step, CheckpointEventView::Failed(error))
            == CheckpointStateView::DumpFailed(error),
        next_state(CheckpointStateView::DumpFailed(error), CheckpointEventView::Done)
            == CheckpointStateView::Unwinding(CheckpointStep::Dump, 0, error),
        forall|cause: Seq<char>|
            (#[trigger] next_state(
                CheckpointStateView::DumpFailed(error),
                CheckpointEventView::CleanupFailed(cause),
            )) is Unwinding,
{
}

/// A cleanup that fails is told behind the failure that made it necessary, with its cause.
pub proof fn failed_cleanups_are_told(
    step: CheckpointStep,
    index: int,
    error: ErrorView,
    cause: Seq<char>,
)
    requires
        0 <= index < cleanup_plan(step).len(),
    ensures
        match next_state(
            CheckpointStateView::Unwinding(step, index, error),
            CheckpointEventView::CleanupFailed(cause),
        ) {
            CheckpointStateView::Unwinding(_, _, after) => error.message.is_prefix_of(after.message)
                && cause.is_suffix_of(after.message) && after.message.len() > error.message.len()
                + cause.len(),
            CheckpointStateView::Refused(after) => error.message.is_prefix_of(after.message)
                && cause.is_suffix_of(after.message) && after.message.len() > error.message.len()
                + cause.len(),
            _ => false,
        },
        match next_state(
            CheckpointStateView::DumpFailed(error),
            CheckpointEventView::CleanupFailed(cause),
        ) {
            CheckpointStateView::Unwinding(_, _, after) => error.message.is_prefix_of(after.message)
                && cause.is_suffix_of(after.message),
            _ => false,
        },
{
    reveal_strlit("; ");
    let label = cleanup_label(cleanup_plan(step)[index]);
    let told = with_cleanup_failure(error, label, cause).message;
    assert(told.subrange(told.len() - cause.len(), told.len() as int) =~= cause);
    let first = with_cleanup_failure(error, "source freezer recheck"@, cause).message;
    assert(first.subrange(first.len() - cause.len(), first.len() as int) =~= cause);
    assert(told.take(error.message.len() as int) =~= error.message);
    assert(first.take(error.message.len() as int) =~= error.message);
}

} // verus!
