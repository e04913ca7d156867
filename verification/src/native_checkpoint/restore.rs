//! The course of a restore operation and of its recovery after a restart.

use vstd::prelude::*;
use crate::error::{append_failure, checkpoint_error, Error, ErrorCode};
use crate::model::ContainerState;
use crate::native_checkpoint::operation::{with_cleanup_failure, ErrorView};
use crate::native_checkpoint::state::FileKind;
use crate::native_checkpoint::tool::flag_text;

verus! {

/// One step of a restore.
#[derive(Clone, Copy, Debug, PartialEq, Eq, Structural)]
pub enum RestoreStep {
    /// Check the request and read the journal.
    LoadJournal,
    /// Record the request.
    StoreRequest,
    /// Open the stage that the journal keeps.
    OpenStage,
    /// Check the images and the manifest that the journal keeps.
    CheckRetained,
    /// Record that the images are read anew.
    StoreAllocated,
    /// Create the stage.
    CreateStage,
    /// Read the artifact into the stage and check its manifest.
    Extract,
    /// Record that the stage holds all images.
    StorePrepared,
    /// Remove what an earlier try left in the work directory.
    ResetWork,
    /// Let CRIU restore the process tree.
    Restore,
    /// Check what was restored.
    MarkRestored,
    /// Record that the container runs again.
    StoreRestored,
}

/// What came of a step of a restore.
#[derive(Debug)]
pub enum RestoreEvent {
    /// There is no journal.
    NoJournal,
    /// There is a journal for this request, without images.
    FoundRequest,
    /// There is a journal for this request that keeps images.
    FoundImages,
    /// The step succeeded.
    Done,
    /// What was to be opened is not there.
    Missing,
    /// The step failed.
    Failed(Error),
    /// A rollback or a cleanup failed, for this cause.
    CleanupFailed(String),
}

/// What came of a step of a restore, as values.
pub enum RestoreEventView {
    NoJournal,
    FoundRequest,
    FoundImages,
    Done,
    Missing,
    Failed(ErrorView),
    CleanupFailed(Seq<char>),
}

impl View for RestoreEvent {
    type V = RestoreEventView;

    open spec fn view(&self) -> RestoreEventView {
        match *self {
            RestoreEvent::NoJournal => RestoreEventView::NoJournal,
            RestoreEvent::FoundRequest => RestoreEventView::FoundRequest,
            RestoreEvent::FoundImages => RestoreEventView::FoundImages,
            RestoreEvent::Done => RestoreEventView::Done,
            RestoreEvent::Missing => RestoreEventView::Missing,
            RestoreEvent::Failed(error) => RestoreEventView::Failed(error@),
            RestoreEvent::CleanupFailed(cause) => RestoreEventView::CleanupFailed(cause@),
        }
    }
}

/// Where a restore stands; each state says what is done next.
#[derive(Debug)]
pub enum RestoreState {
    /// The step is done next.
    At(RestoreStep),
    /// The generation is rolled back.
    RollingBack(Error),
    /// The generation was rolled back; the stage is removed.
    CleaningStage(Error),
    /// The stage was removed; the journal is removed.
    RemovingJournal(Error),
    /// The restored state is handed to the caller.
    Succeeded,
    /// The failure is handed to the caller.
    Refused(Error),
    /// The event was not one that the step can have.
    Confused,
}

/// Where a restore stands, as values.
pub enum RestoreStateView {
    At(RestoreStep),
    RollingBack(ErrorView),
    CleaningStage(ErrorView),
    RemovingJournal(ErrorView),
    Succeeded,
    Refused(ErrorView),
    Confused,
}

impl View for RestoreState {
    type V = RestoreStateView;

    open spec fn view(&self) -> RestoreStateView {
        match *self {
            RestoreState::At(step) => RestoreStateView::At(step),
            RestoreState::RollingBack(error) => RestoreStateView::RollingBack(error@),
            RestoreState::CleaningStage(error) => RestoreStateView::CleaningStage(error@),
            RestoreState::RemovingJournal(error) => RestoreStateView::RemovingJournal(error@),
            RestoreState::Succeeded => RestoreStateView::Succeeded,
            RestoreState::Refused(error) => RestoreStateView::Refused(error@),
            RestoreState::Confused => RestoreStateView::Confused,
        }
    }
}

/// Whether the failure of a step rolls the generation back.
pub open spec fn rolls_back(step: RestoreStep) -> bool {
    !(step is LoadJournal) && !(step is StoreRequest)
}

/// The step that follows when a step of a restore succeeds.
pub open spec fn restore_successor(step: RestoreStep) -> Option<RestoreStep> {
    match step {
        RestoreStep::LoadJournal => None,
        RestoreStep::StoreRequest => Some(RestoreStep::StoreAllocated),
        RestoreStep::OpenStage => Some(RestoreStep::CheckRetained),
        RestoreStep::CheckRetained => Some(RestoreStep::ResetWork),
        RestoreStep::StoreAllocated => Some(RestoreStep::CreateStage),
        RestoreStep::CreateStage => Some(RestoreStep::Extract),
        RestoreStep::Extract => Some(RestoreStep::StorePrepared),
        RestoreStep::StorePrepared => Some(RestoreStep::ResetWork),
        RestoreStep::ResetWork => Some(RestoreStep::Restore),
        RestoreStep::Restore => Some(RestoreStep::MarkRestored),
        RestoreStep::MarkRestored => Some(RestoreStep::StoreRestored),
        RestoreStep::StoreRestored => None,
    }
}

/// Where a restore stands after an event at a step.
pub open spec fn after_restore_step(
    step: RestoreStep,
    event: RestoreEventView,
) -> RestoreStateView {
    match event {
        RestoreEventView::NoJournal => if step is LoadJournal {
            RestoreStateView::At(RestoreStep::StoreRequest)
        } else {
            RestoreStateView::Confused
        },
        RestoreEventView::FoundRequest => if step is LoadJournal {
            RestoreStateView::At(RestoreStep::StoreAllocated)
        } else {
            RestoreStateView::Confused
        },
        RestoreEventView::FoundImages => if step is LoadJournal {
            RestoreStateView::At(RestoreStep::OpenStage)
        } else {
            RestoreStateView::Confused
        },
        RestoreEventView::Done => match restore_successor(step) {
            Some(next) => RestoreStateView::At(next),
            None => if step is LoadJournal {
                RestoreStateView::Confused
            } else {
                RestoreStateView::Succeeded
            },
        },
        RestoreEventView::Missing => if step is OpenStage {
            RestoreStateView::At(RestoreStep::StoreAllocated)
        } else {
            RestoreStateView::Confused
        },
        RestoreEventView::Failed(error) => if rolls_back(step) {
            RestoreStateView::RollingBack(error)
        } else {
            RestoreStateView::Refused(error)
        },
        RestoreEventView::CleanupFailed(cause) => RestoreStateView::Confused,
    }
}

/// Where a restore stands after an event.
pub open spec fn next_restore_state(
    state: RestoreStateView,
    event: RestoreEventView,
) -> RestoreStateView {
    match state {
        RestoreStateView::At(step) => after_restore_step(step, event),
        RestoreStateView::RollingBack(error) => match event {
            RestoreEventView::Done => RestoreStateView::CleaningStage(error),
            RestoreEventView::CleanupFailed(cause) => RestoreStateView::Refused(
                with_cleanup_failure(error, "restored generation rollback"@, cause),
            ),
            _ => RestoreStateView::Confused,
        },
        RestoreStateView::CleaningStage(error) => match event {
            RestoreEventView::Done => RestoreStateView::RemovingJournal(error),
            RestoreEventView::CleanupFailed(cause) => RestoreStateView::Refused(
                with_cleanup_failure(error, "restore journal cleanup"@, cause),
            ),
            _ => RestoreStateView::Confused,
        },
        RestoreStateView::RemovingJournal(error) => match event {
            RestoreEventView::Done => RestoreStateView::Refused(error),
            RestoreEventView::CleanupFailed(cause) => RestoreStateView::Refused(
                with_cleanup_failure(error, "restore journal cleanup"@, cause),
            ),
            _ => RestoreStateView::Confused,
        },
        _ => RestoreStateView::Confused,
    }
}

impl RestoreState {
    /// The start of a restore.
    pub fn start() -> (state: RestoreState)
        ensures
            state@ == RestoreStateView::At(RestoreStep::LoadJournal),
    {
        RestoreState::At(RestoreStep::LoadJournal)
    }

    /// Where a restore stands after an event.
    pub fn advance(self, event: RestoreEvent) -> (state: RestoreState)
        ensures
            state@ == next_restore_state(self@, event@),
    {
        match self {
            RestoreState::At(step) => Self::advance_step(step, event),
            RestoreState::RollingBack(error) => match event {
                RestoreEvent::Done => RestoreState::CleaningStage(error),
                RestoreEvent::CleanupFailed(cause) => {
                    let mut error = error;
                    append_failure(&mut error, "restored generation rollback", &cause);
                    RestoreState::Refused(error)
                },
                _ => RestoreState::Confused,
            },
            RestoreState::CleaningStage(error) => match event {
                RestoreEvent::Done => RestoreState::RemovingJournal(error),
                RestoreEvent::CleanupFailed(cause) => {
                    let mut error = error;
                    append_failure(&mut error, "restore journal cleanup", &cause);
                    RestoreState::Refused(error)
                },
                _ => RestoreState::Confused,
            },
            RestoreState::RemovingJournal(error) => match event {
                RestoreEvent::Done => RestoreState::Refused(error),
                RestoreEvent::CleanupFailed(cause) => {
                    let mut error = error;
                    append_failure(&mut error, "restore journal cleanup", &cause);
                    RestoreState::Refused(error)
                },
                _ => RestoreState::Confused,
            },
            _ => RestoreState::Confused,
        }
    }

    fn advance_step(step: RestoreStep, event: RestoreEvent) -> (state: RestoreState)
        ensures
            state@ == after_restore_step(step, event@),
    {
        let loading = match step {
            RestoreStep::LoadJournal => true,
            _ => false,
        };
        match event {
            RestoreEvent::NoJournal => if loading {
                RestoreState::At(RestoreStep::StoreRequest)
            } else {
                RestoreState::Confused
            },
            RestoreEvent::FoundRequest => if loading {
                RestoreState::At(RestoreStep::StoreAllocated)
            } else {
                RestoreState::Confused
            },
            RestoreEvent::FoundImages => if loading {
                RestoreState::At(RestoreStep::OpenStage)
            } else {
                RestoreState::Confused
            },
            RestoreEvent::Done => match step {
                RestoreStep::LoadJournal => RestoreState::Confused,
                RestoreStep::StoreRequest => RestoreState::At(RestoreStep::StoreAllocated),
                RestoreStep::OpenStage => RestoreState::At(RestoreStep::CheckRetained),
                RestoreStep::CheckRetained => RestoreState::At(RestoreStep::ResetWork),
                RestoreStep::StoreAllocated => RestoreState::At(RestoreStep::CreateStage),
                RestoreStep::CreateStage => RestoreState::At(RestoreStep::Extract),
                RestoreStep::Extract => RestoreState::At(RestoreStep::StorePrepared),
                RestoreStep::StorePrepared => RestoreState::At(RestoreStep::ResetWork),
                RestoreStep::ResetWork => RestoreState::At(RestoreStep::Restore),
                RestoreStep::Restore => RestoreState::At(RestoreStep::MarkRestored),
                RestoreStep::MarkRestored => RestoreState::At(RestoreStep::StoreRestored),
                RestoreStep::StoreRestored => RestoreState::Succeeded,
            },
            RestoreEvent::Missing => match step {
                RestoreStep::OpenStage => RestoreState::At(RestoreStep::StoreAllocated),
                _ => RestoreState::Confused,
            },
            RestoreEvent::Failed(error) => match step {
                RestoreStep::LoadJournal => RestoreState::Refused(error),
                RestoreStep::StoreRequest => RestoreState::Refused(error),
                _ => RestoreState::RollingBack(error),
            },
            RestoreEvent::CleanupFailed(_) => RestoreState::Confused,
        }
    }
}

/// The restore journal is removed only after the generation was rolled back and its
/// stage removed, in this order and without a failure, so a generation that could
/// not be rolled back keeps its journal.
pub proof fn journal_outlives_failed_rollback(state: RestoreStateView, event: RestoreEventView)
    ensures
        next_restore_state(state, event) is RemovingJournal ==> state is CleaningStage
            && event is Done,
        next_restore_state(state, event) is CleaningStage ==> state is RollingBack && event is Done,
{
}

/// A restore succeeds only after the running container was recorded.
pub proof fn restore_success_is_recorded(state: RestoreStateView, event: RestoreEventView)
    requires
        next_restore_state(state, event) is Succeeded,
    ensures
        state == RestoreStateView::At(RestoreStep::StoreRestored),
        event is Done,
{
}

/// Where a restore stands after a series of events.
pub open spec fn restore_course(events: Seq<RestoreEventView>) -> RestoreStateView
    decreases events.len(),
{
    if events.len() == 0 {
        RestoreStateView::At(RestoreStep::LoadJournal)
    } else {
        next_restore_state(restore_course(events.drop_last()), events.last())
    }
}

/// The event at a place of a series is the success of a step.
pub open spec fn restore_performed(
    events: Seq<RestoreEventView>,
    place: int,
    step: RestoreStep,
) -> bool {
    &&& 0 <= place < events.len()
    &&& restore_course(events.take(place)) == RestoreStateView::At(step)
    &&& events[place] is Done
}

/// A first event, and behind it only successes.
pub open spec fn undisturbed_restore(first: RestoreEventView, successes: nat) -> Seq<
    RestoreEventView,
> {
    seq![first] + Seq::new(successes, |i: int| RestoreEventView::Done)
}

proof fn restore_course_moves(events: Seq<RestoreEventView>, place: int)
    requires
        0 <= place < events.len(),
    ensures
        restore_course(events.take(place + 1)) == next_restore_state(
            restore_course(events.take(place)),
            events[place],
        ),
        restore_course(events.take(0)) == RestoreStateView::At(RestoreStep::LoadJournal),
        events.take(events.len() as int) == events,
{
    assert(events.take(place + 1).drop_last() =~= events.take(place));
    assert(events.take(0) =~= Seq::empty());
    assert(events.take(events.len() as int) =~= events);
}

/// The step whose success is the only way to a step.
spec fn restore_predecessor(step: RestoreStep) -> Option<RestoreStep> {
    match step {
        RestoreStep::StoreRestored => Some(RestoreStep::MarkRestored),
        RestoreStep::MarkRestored => Some(RestoreStep::Restore),
        RestoreStep::Restore => Some(RestoreStep::ResetWork),
        RestoreStep::StorePrepared => Some(RestoreStep::Extract),
        RestoreStep::Extract => Some(RestoreStep::CreateStage),
        RestoreStep::CreateStage => Some(RestoreStep::StoreAllocated),
        RestoreStep::CheckRetained => Some(RestoreStep::OpenStage),
        _ => None,
    }
}

proof fn restore_entered_by_success(
    events: Seq<RestoreEventView>,
    place: int,
    step: RestoreStep,
)
    requires
        0 <= place <= events.len(),
        restore_course(events.take(place)) == RestoreStateView::At(step),
        restore_predecessor(step) is Some,
    ensures
        restore_performed(events, place - 1, restore_predecessor(step)->0),
{
    if place == 0 {
        assert(events.take(0) =~= Seq::empty());
    } else {
        restore_course_moves(events, place - 1);
    }
}

/// A restore that succeeds has let CRIU restore the process tree from a stage whose
/// images were checked: images that the journal keeps, or images that were read from
/// the artifact into a new stage and recorded. What was restored was checked and
/// recorded behind it, in this order.
pub proof fn successful_restores_restore(events: Seq<RestoreEventView>)
    requires
        restore_course(events) is Succeeded,
    ensures
        ({
            let last = events.len() - 1;
            &&& restore_performed(events, last, RestoreStep::StoreRestored)
            &&& restore_performed(events, last - 1, RestoreStep::MarkRestored)
            &&& restore_performed(events, last - 2, RestoreStep::Restore)
            &&& restore_performed(events, last - 3, RestoreStep::ResetWork)
            &&& {
                ||| {
                    &&& restore_performed(events, last - 4, RestoreStep::StorePrepared)
                    &&& restore_performed(events, last - 5, RestoreStep::Extract)
                    &&& restore_performed(events, last - 6, RestoreStep::CreateStage)
                    &&& restore_performed(events, last - 7, RestoreStep::StoreAllocated)
                }
                ||| {
                    &&& restore_performed(events, last - 4, RestoreStep::CheckRetained)
                    &&& restore_performed(events, last - 5, RestoreStep::OpenStage)
                    &&& events[0] is FoundImages
                }
            }
        }),
{
    let last = events.len() - 1;
    assert(events.len() > 0);
    restore_course_moves(events, last);
    restore_entered_by_success(events, last, RestoreStep::StoreRestored);
    restore_entered_by_success(events, last - 1, RestoreStep::MarkRestored);
    restore_entered_by_success(events, last - 2, RestoreStep::Restore);
    assert(last - 3 > 0) by {
        restore_course_moves(events, 0);
    }
    restore_course_moves(events, last - 4);
    if restore_course(events.take(last - 4)) == RestoreStateView::At(RestoreStep::StorePrepared) {
        restore_entered_by_success(events, last - 4, RestoreStep::StorePrepared);
        restore_entered_by_success(events, last - 5, RestoreStep::Extract);
        restore_entered_by_success(events, last - 6, RestoreStep::CreateStage);
    } else {
        restore_entered_by_success(events, last - 4, RestoreStep::CheckRetained);
        kept_stages_are_opened_first(events, last - 5);
    }
}

proof fn kept_stages_are_opened_first(events: Seq<RestoreEventView>, place: int)
    requires
        0 <= place < events.len(),
        restore_course(events.take(place)) == RestoreStateView::At(RestoreStep::OpenStage),
    ensures
        place == 1,
        events[0] is FoundImages,
{
    restore_course_moves(events, 0);
    assert(place > 0);
    restore_course_moves(events, place - 1);
    if place > 1 {
        restore_loads_once(events.take(place - 1));
    }
}

proof fn restore_loads_once(events: Seq<RestoreEventView>)
    requires
        events.len() > 0,
    ensures
        restore_course(events) != RestoreStateView::At(RestoreStep::LoadJournal),
{
}

/// A restore without a journal records its request before it does anything else.
pub proof fn restore_requests_are_recorded_first(events: Seq<RestoreEventView>, place: int)
    requires
        0 < place <= events.len(),
        events[0] is NoJournal,
        restore_course(events.take(place)) is At || restore_course(events.take(place)) is Succeeded,
        place > 1,
    ensures
        restore_performed(events, 1, RestoreStep::StoreRequest),
    decreases place,
{
    restore_course_moves(events, 0);
    restore_course_moves(events, 1);
    restore_course_moves(events, place - 1);
    if place > 2 {
        restore_requests_are_recorded_first(events, place - 1);
    }
}

proof fn restore_success_moves_on(first: RestoreEventView, successes: nat)
    ensures
        restore_course(undisturbed_restore(first, successes + 1)) == next_restore_state(
            restore_course(undisturbed_restore(first, successes)),
            RestoreEventView::Done,
        ),
{
    assert(undisturbed_restore(first, successes + 1).drop_last() =~= undisturbed_restore(
        first,
        successes,
    ));
}

/// How many steps of a restore are left behind a step.
spec fn restore_steps_left(step: RestoreStep) -> nat {
    match step {
        RestoreStep::StoreRestored => 0,
        RestoreStep::MarkRestored => 1,
        RestoreStep::Restore => 2,
        RestoreStep::ResetWork => 3,
        RestoreStep::StorePrepared | RestoreStep::CheckRetained => 4,
        RestoreStep::Extract | RestoreStep::OpenStage => 5,
        RestoreStep::CreateStage => 6,
        RestoreStep::StoreAllocated => 7,
        RestoreStep::StoreRequest => 8,
        RestoreStep::LoadJournal => 9,
    }
}

proof fn restore_successes_lead_to_success(
    first: RestoreEventView,
    successes: nat,
    step: RestoreStep,
)
    requires
        restore_course(undisturbed_restore(first, successes)) == RestoreStateView::At(step),
        !(step is LoadJournal),
    ensures
        exists|enough: nat|
            #[trigger] restore_course(undisturbed_restore(first, enough)) is Succeeded,
    decreases restore_steps_left(step),
{
    restore_success_moves_on(first, successes);
    match restore_successor(step) {
        Some(next) => restore_successes_lead_to_success(first, successes + 1, next),
        None => {
            assert(restore_course(undisturbed_restore(first, successes + 1)) is Succeeded);
        },
    }
}

/// A restore whose every step succeeds succeeds, whatever an earlier try left.
pub proof fn undisturbed_restores_succeed(first: RestoreEventView)
    requires
        first is NoJournal || first is FoundRequest || first is FoundImages,
    ensures
        exists|enough: nat|
            #[trigger] restore_course(undisturbed_restore(first, enough)) is Succeeded,
{
    let only = undisturbed_restore(first, 0);
    assert(only.drop_last() =~= Seq::empty());
    assert(only.last() == first);
    reveal_with_fuel(restore_course, 2);
    match after_restore_step(RestoreStep::LoadJournal, first) {
        RestoreStateView::At(step) => restore_successes_lead_to_success(first, 0, step),
        _ => {},
    }
}

/// A step that fails fails the restore with exactly its error. The generation is rolled
/// back, unless the request was not even on record.
pub proof fn failed_restore_steps_roll_back(step: RestoreStep, error: ErrorView)
    ensures
        match after_restore_step(step, RestoreEventView::Failed(error)) {
            RestoreStateView::RollingBack(reported) => reported == error && !(step is LoadJournal
                || step is StoreRequest),
            RestoreStateView::Refused(reported) => reported == error && (step is LoadJournal || step
                is StoreRequest),
            _ => false,
        },
{
}

/// A restore that has failed neither goes on nor succeeds. Its failure is the first one:
/// a rollback or a cleanup that fails too only adds to the message, and ends it.
pub proof fn failed_restores_report_the_first_failure(
    state: RestoreStateView,
    event: RestoreEventView,
    error: ErrorView,
)
    requires
        state == RestoreStateView::RollingBack(error) || state == RestoreStateView::CleaningStage(
            error,
        ) || state == RestoreStateView::RemovingJournal(error),
        event is Done || event is CleanupFailed,
    ensures
        match next_restore_state(state, event) {
            RestoreStateView::CleaningStage(after) => after == error && event is Done,
            RestoreStateView::RemovingJournal(after) => after == error && event is Done,
            RestoreStateView::Refused(after) => {
                &&& after.code == error.code
                &&& after.operation == error.operation
                &&& after.retryable == error.retryable
                &&& error.message.is_prefix_of(after.message)
                &&& event is Done ==> after == error && state is RemovingJournal
                &&& event matches RestoreEventView::CleanupFailed(cause) ==> cause.is_suffix_of(
                    after.message,
                )
            },
            _ => false,
        },
{
    match event {
        RestoreEventView::CleanupFailed(cause) => {
            let label = if state is RollingBack {
                "restored generation rollback"@
            } else {
                "restore journal cleanup"@
            };
            let longer = crate::error::with_failure(error.message, label, cause);
            assert(error.message =~= longer.subrange(0, error.message.len() as int));
            assert(cause =~= longer.subrange(longer.len() - cause.len(), longer.len() as int));
        },
        _ => {
            assert(error.message =~= error.message.subrange(0, error.message.len() as int));
        },
    }
}

/// A restore that was refused, or that has succeeded, is over.
pub proof fn finished_restores_are_over(state: RestoreStateView, event: RestoreEventView)
    requires
        state is Refused || state is Succeeded,
    ensures
        next_restore_state(state, event) is Confused,
{
}

/// A stage that the journal keeps and that is gone is made anew from the artifact. No
/// other step goes on without what it looks for.
pub proof fn lost_stages_are_made_anew(step: RestoreStep)
    ensures
        after_restore_step(step, RestoreEventView::Missing) == if step is OpenStage {
            RestoreStateView::At(RestoreStep::StoreAllocated)
        } else {
            RestoreStateView::Confused
        },
{
}

/// A state in words, as the OCI runtime specification has them.
pub open spec fn state_words(state: ContainerState) -> Seq<char> {
    match state {
        ContainerState::Creating => "creating"@,
        ContainerState::Created => "created"@,
        ContainerState::Running => "running"@,
        ContainerState::Stopped => "stopped"@,
    }
}

/// A state in words.
pub fn state_text(state: ContainerState) -> (text: &'static str)
    ensures
        text@ == state_words(state),
{
    match state {
        ContainerState::Creating => "creating",
        ContainerState::Created => "created",
        ContainerState::Running => "running",
        ContainerState::Stopped => "stopped",
    }
}

/// One step of recovering a restore after a restart.
#[derive(Clone, Copy, Debug, PartialEq, Eq, Structural)]
pub enum RecoverStep {
    /// Look for a journal of the container.
    Find,
    /// Read that journal under the lock of its operation.
    Load,
    /// Check that the container is the one that the journal made.
    Validate,
    /// Record that the journal keeps images.
    StorePrepared,
    /// Look for processes of the stale generation.
    RecoverStale,
    /// Remove what is left of the stale generation.
    DeleteStale,
    /// Open the stage that the journal keeps.
    OpenStage,
    /// Check the images and the manifest that the journal keeps.
    CheckRetained,
    /// Remove what an earlier try left in the work directory.
    ResetWork,
    /// Let CRIU restore the process tree.
    Restore,
    /// Check what was restored.
    MarkRestored,
    /// Record that the container runs again.
    StoreRestored,
}

/// What decides how a restore is recovered.
#[derive(Clone, Copy, Debug, PartialEq, Eq, Structural)]
pub struct RecoverFacts {
    /// The durable state of the container.
    pub status: ContainerState,
    /// Whether the container is paused.
    pub paused: bool,
    /// Whether the journal keeps images.
    pub keeps_images: bool,
}

/// What came of a step of a recovery.
#[derive(Debug)]
pub enum RecoverEvent {
    /// The step succeeded, or what was looked for is there.
    Done,
    /// What was looked for is not there.
    Missing,
    /// The step failed.
    Failed(Error),
    /// The rollback failed, for this cause.
    CleanupFailed(String),
}

/// What came of a step of a recovery, as values.
pub enum RecoverEventView {
    Done,
    Missing,
    Failed(ErrorView),
    CleanupFailed(Seq<char>),
}

impl View for RecoverEvent {
    type V = RecoverEventView;

    open spec fn view(&self) -> RecoverEventView {
        match *self {
            RecoverEvent::Done => RecoverEventView::Done,
            RecoverEvent::Missing => RecoverEventView::Missing,
            RecoverEvent::Failed(error) => RecoverEventView::Failed(error@),
            RecoverEvent::CleanupFailed(cause) => RecoverEventView::CleanupFailed(cause@),
        }
    }
}

/// Where a recovery stands; each state says what is done next.
#[derive(Debug)]
pub enum RecoverState {
    /// The step is done next.
    At(RecoverStep),
    /// The generation is rolled back.
    RollingBack(Error),
    /// The container was not made by a restore.
    NotRestored,
    /// The restore never finished and is to be asked for again.
    Pending,
    /// The container was restored again.
    Recreated,
    /// The failure is handed to the caller.
    Refused(Error),
    /// The event was not one that the step can have.
    Confused,
}

/// Where a recovery stands, as values.
pub enum RecoverStateView {
    At(RecoverStep),
    RollingBack(ErrorView),
    NotRestored,
    Pending,
    Recreated,
    Refused(ErrorView),
    Confused,
}

impl View for RecoverState {
    type V = RecoverStateView;

    open spec fn view(&self) -> RecoverStateView {
        match *self {
            RecoverState::At(step) => RecoverStateView::At(step),
            RecoverState::RollingBack(error) => RecoverStateView::RollingBack(error@),
            RecoverState::NotRestored => RecoverStateView::NotRestored,
            RecoverState::Pending => RecoverStateView::Pending,
            RecoverState::Recreated => RecoverStateView::Recreated,
            RecoverState::Refused(error) => RecoverStateView::Refused(error@),
            RecoverState::Confused => RecoverStateView::Confused,
        }
    }
}

/// A failure of the checkpoint backend, as values.
pub open spec fn checkpoint_failure(code: ErrorCode, message: Seq<char>) -> ErrorView {
    ErrorView {
        code,
        message,
        operation: Some(crate::error::CHECKPOINT_OPERATION@),
        retryable: false,
    }
}

/// The message for a container in a state that no restore leaves behind.
pub open spec fn unrecoverable_message(id: Seq<char>, facts: RecoverFacts) -> Seq<char> {
    "native restore journal cannot recover durable container "@ + id + " while "@ + state_words(
        facts.status,
    ) + " with paused="@ + flag_text(facts.paused)
}

/// Where a recovery goes once nothing is left of the stale generation.
pub open spec fn recover_branch(id: Seq<char>, facts: RecoverFacts) -> RecoverStateView {
    if facts.status is Creating {
        RecoverStateView::Pending
    } else if facts.status is Running && facts.paused {
        if facts.keeps_images {
            RecoverStateView::At(RecoverStep::OpenStage)
        } else {
            RecoverStateView::Refused(
                checkpoint_failure(
                    ErrorCode::FailedPrecondition,
                    "completed native restore has no retained prepared image manifest"@,
                ),
            )
        }
    } else {
        RecoverStateView::Refused(
            checkpoint_failure(
                ErrorCode::FailedPrecondition,
                unrecoverable_message(id, facts),
            ),
        )
    }
}

/// Where a recovery stands after a step succeeded.
pub open spec fn after_recover_success(
    step: RecoverStep,
    id: Seq<char>,
    facts: RecoverFacts,
) -> RecoverStateView {
    match step {
        RecoverStep::Find => RecoverStateView::At(RecoverStep::Load),
        RecoverStep::Load => RecoverStateView::At(RecoverStep::Validate),
        RecoverStep::Validate => if facts.keeps_images {
            RecoverStateView::At(RecoverStep::StorePrepared)
        } else {
            RecoverStateView::At(RecoverStep::RecoverStale)
        },
        RecoverStep::StorePrepared => RecoverStateView::At(RecoverStep::RecoverStale),
        RecoverStep::RecoverStale => RecoverStateView::At(RecoverStep::DeleteStale),
        RecoverStep::DeleteStale => recover_branch(id, facts),
        RecoverStep::OpenStage => RecoverStateView::At(RecoverStep::CheckRetained),
        RecoverStep::CheckRetained => RecoverStateView::At(RecoverStep::ResetWork),
        RecoverStep::ResetWork => RecoverStateView::At(RecoverStep::Restore),
        RecoverStep::Restore => RecoverStateView::At(RecoverStep::MarkRestored),
        RecoverStep::MarkRestored => RecoverStateView::At(RecoverStep::StoreRestored),
        RecoverStep::StoreRestored => RecoverStateView::Recreated,
    }
}

/// Where a recovery stands after a step found nothing.
pub open spec fn after_recover_miss(
    step: RecoverStep,
    id: Seq<char>,
    facts: RecoverFacts,
) -> RecoverStateView {
    match step {
        RecoverStep::Find => RecoverStateView::NotRestored,
        RecoverStep::Load => RecoverStateView::Refused(
            checkpoint_failure(
                ErrorCode::Conflict,
                "native restore journal disappeared during recovery"@,
            ),
        ),
        RecoverStep::RecoverStale => recover_branch(id, facts),
        RecoverStep::OpenStage => RecoverStateView::Refused(
            checkpoint_failure(
                ErrorCode::FailedPrecondition,
                "completed native restore lost its retained image stage"@,
            ),
        ),
        _ => RecoverStateView::Confused,
    }
}

/// Where a recovery stands after an event.
pub open spec fn next_recover_state(
    state: RecoverStateView,
    event: RecoverEventView,
    id: Seq<char>,
    facts: RecoverFacts,
) -> RecoverStateView {
    match state {
        RecoverStateView::At(step) => match event {
            RecoverEventView::Done => after_recover_success(step, id, facts),
            RecoverEventView::Missing => after_recover_miss(step, id, facts),
            RecoverEventView::Failed(error) => if step is StoreRestored {
                RecoverStateView::RollingBack(error)
            } else {
                RecoverStateView::Refused(error)
            },
            RecoverEventView::CleanupFailed(cause) => RecoverStateView::Confused,
        },
        RecoverStateView::RollingBack(error) => match event {
            RecoverEventView::Done => RecoverStateView::Refused(error),
            RecoverEventView::CleanupFailed(cause) => RecoverStateView::Refused(
                with_cleanup_failure(error, "recreated restore rollback"@, cause),
            ),
            _ => RecoverStateView::Confused,
        },
        _ => RecoverStateView::Confused,
    }
}

fn branch(id: &str, facts: RecoverFacts) -> (state: RecoverState)
    ensures
        state@ == recover_branch(id@, facts),
{
    match facts.status {
        ContainerState::Creating => return RecoverState::Pending,
        ContainerState::Running => {
            if facts.paused {
                if facts.keeps_images {
                    return RecoverState::At(RecoverStep::OpenStage);
                }
                return RecoverState::Refused(
                    checkpoint_error(
                        ErrorCode::FailedPrecondition,
                        "completed native restore has no retained prepared image manifest",
                    ),
                );
            }
        },
        _ => {},
    }
    let mut message = "native restore journal cannot recover durable container ".to_owned();
    message.append(id);
    message.append(" while ");
    message.append(state_text(facts.status));
    message.append(" with paused=");
    if facts.paused {
        message.append("true");
    } else {
        message.append("false");
    }
    RecoverState::Refused(checkpoint_error(ErrorCode::FailedPrecondition, &message))
}

impl RecoverState {
    /// The start of a recovery.
    pub fn start() -> (state: RecoverState)
        ensures
            state@ == RecoverStateView::At(RecoverStep::Find),
    {
        RecoverState::At(RecoverStep::Find)
    }

    /// Where a recovery stands after an event.
    pub fn advance(self, event: RecoverEvent, id: &str, facts: RecoverFacts) -> (state:
        RecoverState)
        ensures
            state@ == next_recover_state(self@, event@, id@, facts),
    {
        match self {
            RecoverState::At(step) => match event {
                RecoverEvent::Done => Self::succeed(step, id, facts),
                RecoverEvent::Missing => Self::miss(step, id, facts),
                RecoverEvent::Failed(error) => match step {
                    RecoverStep::StoreRestored => RecoverState::RollingBack(error),
                    _ => RecoverState::Refused(error),
                },
                RecoverEvent::CleanupFailed(_) => RecoverState::Confused,
            },
            RecoverState::RollingBack(error) => match event {
                RecoverEvent::Done => RecoverState::Refused(error),
                RecoverEvent::CleanupFailed(cause) => {
                    let mut error = error;
                    append_failure(&mut error, "recreated restore rollback", &cause);
                    RecoverState::Refused(error)
                },
                _ => RecoverState::Confused,
            },
            _ => RecoverState::Confused,
        }
    }

    fn succeed(step: RecoverStep, id: &str, facts: RecoverFacts) -> (state: RecoverState)
        ensures
            state@ == after_recover_success(step, id@, facts),
    {
        match step {
            RecoverStep::Find => RecoverState::At(RecoverStep::Load),
            RecoverStep::Load => RecoverState::At(RecoverStep::Validate),
            RecoverStep::Validate => if facts.keeps_images {
                RecoverState::At(RecoverStep::StorePrepared)
            } else {
                RecoverState::At(RecoverStep::RecoverStale)
            },
            RecoverStep::StorePrepared => RecoverState::At(RecoverStep::RecoverStale),
            RecoverStep::RecoverStale => RecoverState::At(RecoverStep::DeleteStale),
            RecoverStep::DeleteStale => branch(id, facts),
            RecoverStep::OpenStage => RecoverState::At(RecoverStep::CheckRetained),
            RecoverStep::CheckRetained => RecoverState::At(RecoverStep::ResetWork),
            RecoverStep::ResetWork => RecoverState::At(RecoverStep::Restore),
            RecoverStep::Restore => RecoverState::At(RecoverStep::MarkRestored),
            RecoverStep::MarkRestored => RecoverState::At(RecoverStep::StoreRestored),
            RecoverStep::StoreRestored => RecoverState::Recreated,
        }
    }

    fn miss(step: RecoverStep, id: &str, facts: RecoverFacts) -> (state: RecoverState)
        ensures
            state@ == after_recover_miss(step, id@, facts),
    {
        match step {
            RecoverStep::Find => RecoverState::NotRestored,
            RecoverStep::Load => RecoverState::Refused(
                checkpoint_error(
                    ErrorCode::Conflict,
                    "native restore journal disappeared during recovery",
                ),
            ),
            RecoverStep::RecoverStale => branch(id, facts),
            RecoverStep::OpenStage => RecoverState::Refused(
                checkpoint_error(
                    ErrorCode::FailedPrecondition,
                    "completed native restore lost its retained image stage",
                ),
            ),
            _ => RecoverState::Confused,
        }
    }
}

/// A container is restored again only where its durable record says that it was
/// running and paused and its journal keeps the images.
pub proof fn only_paused_containers_are_recreated(id: Seq<char>, facts: RecoverFacts)
    requires
        recover_branch(id, facts) is At,
    ensures
        facts.status is Running,
        facts.paused,
        facts.keeps_images,
        recover_branch(id, facts) == RecoverStateView::At(RecoverStep::OpenStage),
{
}

/// Where the recovery of a restore stands after a series of events.
pub open spec fn recover_course(
    events: Seq<RecoverEventView>,
    id: Seq<char>,
    facts: RecoverFacts,
) -> RecoverStateView
    decreases events.len(),
{
    if events.len() == 0 {
        RecoverStateView::At(RecoverStep::Find)
    } else {
        next_recover_state(recover_course(events.drop_last(), id, facts), events.last(), id, facts)
    }
}

/// The event at a place of a series is the success of a step.
pub open spec fn recover_performed(
    events: Seq<RecoverEventView>,
    id: Seq<char>,
    facts: RecoverFacts,
    place: int,
    step: RecoverStep,
) -> bool {
    &&& 0 <= place < events.len()
    &&& recover_course(events.take(place), id, facts) == RecoverStateView::At(step)
    &&& events[place] is Done
}

/// Nothing is left of a stale generation: nothing was found of it, or what was found was
/// removed.
pub open spec fn stale_generation_gone(
    events: Seq<RecoverEventView>,
    id: Seq<char>,
    facts: RecoverFacts,
    place: int,
) -> bool {
    ||| recover_performed(events, id, facts, place, RecoverStep::DeleteStale)
    ||| 0 <= place < events.len() && events[place] is Missing && recover_course(
        events.take(place),
        id,
        facts,
    ) == RecoverStateView::At(RecoverStep::RecoverStale)
}

proof fn recover_course_moves(
    events: Seq<RecoverEventView>,
    id: Seq<char>,
    facts: RecoverFacts,
    place: int,
)
    requires
        0 <= place < events.len(),
    ensures
        recover_course(events.take(place + 1), id, facts) == next_recover_state(
            recover_course(events.take(place), id, facts),
            events[place],
            id,
            facts,
        ),
        recover_course(events.take(0), id, facts) == RecoverStateView::At(RecoverStep::Find),
        events.take(events.len() as int) == events,
{
    assert(events.take(place + 1).drop_last() =~= events.take(place));
    assert(events.take(0) =~= Seq::empty());
    assert(events.take(events.len() as int) =~= events);
}

/// The step whose success is the only way to a step of a recovery.
spec fn recover_predecessor(step: RecoverStep) -> Option<RecoverStep> {
    match step {
        RecoverStep::StoreRestored => Some(RecoverStep::MarkRestored),
        RecoverStep::MarkRestored => Some(RecoverStep::Restore),
        RecoverStep::Restore => Some(RecoverStep::ResetWork),
        RecoverStep::ResetWork => Some(RecoverStep::CheckRetained),
        RecoverStep::CheckRetained => Some(RecoverStep::OpenStage),
        RecoverStep::DeleteStale => Some(RecoverStep::RecoverStale),
        RecoverStep::StorePrepared => Some(RecoverStep::Validate),
        RecoverStep::Validate => Some(RecoverStep::Load),
        RecoverStep::Load => Some(RecoverStep::Find),
        _ => None,
    }
}

proof fn recover_entered_by_success(
    events: Seq<RecoverEventView>,
    id: Seq<char>,
    facts: RecoverFacts,
    place: int,
    step: RecoverStep,
)
    requires
        0 <= place <= events.len(),
        recover_course(events.take(place), id, facts) == RecoverStateView::At(step),
        recover_predecessor(step) is Some,
    ensures
        recover_performed(events, id, facts, place - 1, recover_predecessor(step)->0),
{
    if place == 0 {
        assert(events.take(0) =~= Seq::empty());
    } else {
        recover_course_moves(events, id, facts, place - 1);
    }
}

proof fn stale_generations_are_validated(
    events: Seq<RecoverEventView>,
    id: Seq<char>,
    facts: RecoverFacts,
    place: int,
)
    requires
        0 <= place < events.len(),
        recover_course(events.take(place), id, facts) == RecoverStateView::At(
            RecoverStep::RecoverStale,
        ),
    ensures
        recover_performed(events, id, facts, 2, RecoverStep::Validate),
        place >= 3,
        facts.keeps_images ==> recover_performed(events, id, facts, 3, RecoverStep::StorePrepared),
{
    recover_course_moves(events, id, facts, 0);
    assert(place > 0);
    recover_course_moves(events, id, facts, place - 1);
    let validated = if recover_course(events.take(place - 1), id, facts) == RecoverStateView::At(
        RecoverStep::StorePrepared,
    ) {
        recover_entered_by_success(events, id, facts, place - 1, RecoverStep::StorePrepared);
        recover_course_moves(events, id, facts, place - 2);
        place - 2
    } else {
        place - 1
    };
    recover_entered_by_success(events, id, facts, validated, RecoverStep::Validate);
    recover_entered_by_success(events, id, facts, validated - 1, RecoverStep::Load);
    recover_finds_once(events, id, facts, validated - 2);
}

proof fn recover_finds_once(
    events: Seq<RecoverEventView>,
    id: Seq<char>,
    facts: RecoverFacts,
    place: int,
)
    requires
        0 <= place < events.len(),
        recover_course(events.take(place), id, facts) == RecoverStateView::At(RecoverStep::Find),
    ensures
        place == 0,
{
    if place > 0 {
        recover_course_moves(events, id, facts, place - 1);
    }
}

/// A container is restored again only in this order: its journal was found and fits the
/// container, the journal says that images are kept, nothing is left of the stale
/// generation, the kept images were checked, CRIU restored the process tree, and what
/// was restored was checked and recorded. The container was running and paused.
pub proof fn recreated_containers_were_restored(
    events: Seq<RecoverEventView>,
    id: Seq<char>,
    facts: RecoverFacts,
)
    requires
        recover_course(events, id, facts) is Recreated,
    ensures
        facts.status is Running,
        facts.paused,
        facts.keeps_images,
        recover_performed(events, id, facts, 2, RecoverStep::Validate),
        recover_performed(events, id, facts, 3, RecoverStep::StorePrepared),
        ({
            let last = events.len() - 1;
            &&& recover_performed(events, id, facts, last, RecoverStep::StoreRestored)
            &&& recover_performed(events, id, facts, last - 1, RecoverStep::MarkRestored)
            &&& recover_performed(events, id, facts, last - 2, RecoverStep::Restore)
            &&& recover_performed(events, id, facts, last - 3, RecoverStep::ResetWork)
            &&& recover_performed(events, id, facts, last - 4, RecoverStep::CheckRetained)
            &&& recover_performed(events, id, facts, last - 5, RecoverStep::OpenStage)
            &&& stale_generation_gone(events, id, facts, last - 6)
            &&& last - 6 > 3
        }),
{
    let last = events.len() - 1;
    assert(events.len() > 0);
    recover_course_moves(events, id, facts, last);
    recover_entered_by_success(events, id, facts, last, RecoverStep::StoreRestored);
    recover_entered_by_success(events, id, facts, last - 1, RecoverStep::MarkRestored);
    recover_entered_by_success(events, id, facts, last - 2, RecoverStep::Restore);
    recover_entered_by_success(events, id, facts, last - 3, RecoverStep::ResetWork);
    recover_entered_by_success(events, id, facts, last - 4, RecoverStep::CheckRetained);
    recover_course_moves(events, id, facts, 0);
    assert(last - 5 > 0);
    branches_follow_cleanup(events, id, facts, last - 6);
}

proof fn branches_follow_cleanup(
    events: Seq<RecoverEventView>,
    id: Seq<char>,
    facts: RecoverFacts,
    place: int,
)
    requires
        0 <= place < events.len(),
        recover_course(events.take(place + 1), id, facts) == RecoverStateView::At(
            RecoverStep::OpenStage,
        ) || recover_course(events.take(place + 1), id, facts) is Pending,
    ensures
        stale_generation_gone(events, id, facts, place),
        recover_performed(events, id, facts, 2, RecoverStep::Validate),
        place > 2,
        facts.keeps_images ==> place > 3 && recover_performed(
            events,
            id,
            facts,
            3,
            RecoverStep::StorePrepared,
        ),
        recover_course(events.take(place + 1), id, facts) is Pending ==> facts.status is Creating,
        !(recover_course(events.take(place + 1), id, facts) is Pending) ==> facts.status is Running
            && facts.paused && facts.keeps_images,
{
    recover_course_moves(events, id, facts, place);
    if recover_course(events.take(place), id, facts) == RecoverStateView::At(
        RecoverStep::DeleteStale,
    ) {
        recover_entered_by_success(events, id, facts, place, RecoverStep::DeleteStale);
        stale_generations_are_validated(events, id, facts, place - 1);
    } else {
        stale_generations_are_validated(events, id, facts, place);
    }
}

/// A restore is left to be asked for again only where the container was still being
/// created, its journal fits it, and nothing is left of the stale generation.
pub proof fn pending_restores_left_nothing(
    events: Seq<RecoverEventView>,
    id: Seq<char>,
    facts: RecoverFacts,
)
    requires
        recover_course(events, id, facts) is Pending,
    ensures
        facts.status is Creating,
        recover_performed(events, id, facts, 2, RecoverStep::Validate),
        stale_generation_gone(events, id, facts, events.len() - 1),
{
    recover_course_moves(events, id, facts, events.len() - 1);
    branches_follow_cleanup(events, id, facts, events.len() - 1);
}

/// A container counts as one that no restore made only where no journal was found.
pub proof fn containers_without_journal_were_not_restored(
    events: Seq<RecoverEventView>,
    id: Seq<char>,
    facts: RecoverFacts,
)
    requires
        recover_course(events, id, facts) is NotRestored,
    ensures
        events.len() == 1,
        events[0] is Missing,
{
    let last = events.len() - 1;
    recover_course_moves(events, id, facts, last);
    recover_finds_once(events, id, facts, last);
}

/// A step of a recovery that fails fails it with exactly its error. What was restored is
/// rolled back where it could not be recorded.
pub proof fn failed_recover_steps_are_reported(
    step: RecoverStep,
    error: ErrorView,
    id: Seq<char>,
    facts: RecoverFacts,
)
    ensures
        match next_recover_state(
            RecoverStateView::At(step),
            RecoverEventView::Failed(error),
            id,
            facts,
        ) {
            RecoverStateView::RollingBack(reported) => step is StoreRestored && reported == error,
            RecoverStateView::Refused(reported) => !(step is StoreRestored) && reported == error,
            _ => false,
        },
{
}

/// A rollback ends a recovery with the failure that made it necessary. One that fails
/// too only adds to the message.
pub proof fn recover_rollbacks_end_in_refusal(
    error: ErrorView,
    event: RecoverEventView,
    id: Seq<char>,
    facts: RecoverFacts,
)
    requires
        event is Done || event is CleanupFailed,
    ensures
        next_recover_state(RecoverStateView::RollingBack(error), event, id, facts) matches RecoverStateView::Refused(
            after,
        ) && after.code == error.code && after.operation == error.operation && after.retryable
            == error.retryable && error.message.is_prefix_of(after.message) && (event is Done
            ==> after == error) && (event matches RecoverEventView::CleanupFailed(cause)
            ==> cause.is_suffix_of(after.message)),
{
    match event {
        RecoverEventView::CleanupFailed(cause) => {
            let longer = crate::error::with_failure(
                error.message,
                "recreated restore rollback"@,
                cause,
            );
            assert(error.message =~= longer.subrange(0, error.message.len() as int));
            assert(cause =~= longer.subrange(longer.len() - cause.len(), longer.len() as int));
        },
        _ => {
            assert(error.message =~= error.message.subrange(0, error.message.len() as int));
        },
    }
}

/// Only successes.
pub open spec fn recover_successes(count: nat) -> Seq<RecoverEventView> {
    Seq::new(count, |i: int| RecoverEventView::Done)
}

/// How many steps of a recovery are left behind a step.
spec fn recover_steps_left(step: RecoverStep) -> nat {
    match step {
        RecoverStep::StoreRestored => 0,
        RecoverStep::MarkRestored => 1,
        RecoverStep::Restore => 2,
        RecoverStep::ResetWork => 3,
        RecoverStep::CheckRetained => 4,
        RecoverStep::OpenStage => 5,
        RecoverStep::DeleteStale => 6,
        RecoverStep::RecoverStale => 7,
        RecoverStep::StorePrepared => 8,
        RecoverStep::Validate => 9,
        RecoverStep::Load => 10,
        RecoverStep::Find => 11,
    }
}

proof fn recover_successes_lead_on(
    id: Seq<char>,
    facts: RecoverFacts,
    count: nat,
    step: RecoverStep,
)
    requires
        recover_course(recover_successes(count), id, facts) == RecoverStateView::At(step),
    ensures
        exists|enough: nat|
            match #[trigger] recover_course(recover_successes(enough), id, facts) {
                RecoverStateView::Recreated => true,
                RecoverStateView::Pending => facts.status is Creating,
                RecoverStateView::Refused(error) => !(facts.status is Creating) && !(facts.status
                    is Running && facts.paused && facts.keeps_images) && error.code
                    is FailedPrecondition,
                _ => false,
            },
    decreases recover_steps_left(step),
{
    let longer = recover_successes(count + 1);
    assert(longer.drop_last() =~= recover_successes(count));
    match after_recover_success(step, id, facts) {
        RecoverStateView::At(next) => recover_successes_lead_on(id, facts, count + 1, next),
        _ => {
            assert(recover_course(longer, id, facts) == after_recover_success(step, id, facts));
        },
    }
}

/// A recovery whose every step succeeds comes to what the durable record asks for: a
/// paused running container with kept images is restored again, one that was still
/// being created is left to be asked for again, and any other is refused.
pub proof fn undisturbed_recoveries_follow_the_record(id: Seq<char>, facts: RecoverFacts)
    ensures
        exists|enough: nat|
            match #[trigger] recover_course(recover_successes(enough), id, facts) {
                RecoverStateView::Recreated => facts.status is Running && facts.paused
                    && facts.keeps_images,
                RecoverStateView::Pending => facts.status is Creating,
                RecoverStateView::Refused(error) => !(facts.status is Creating) && !(facts.status
                    is Running && facts.paused && facts.keeps_images) && error.code
                    is FailedPrecondition,
                _ => false,
            },
{
    assert(recover_successes(0) =~= Seq::empty());
    recover_successes_lead_on(id, facts, 0, RecoverStep::Find);
    let enough = choose|enough: nat|
        match #[trigger] recover_course(recover_successes(enough), id, facts) {
            RecoverStateView::Recreated => true,
            RecoverStateView::Pending => facts.status is Creating,
            RecoverStateView::Refused(error) => !(facts.status is Creating) && !(facts.status
                is Running && facts.paused && facts.keeps_images) && error.code
                is FailedPrecondition,
            _ => false,
        };
    if recover_course(recover_successes(enough), id, facts) is Recreated {
        recreated_containers_were_restored(recover_successes(enough), id, facts);
    }
}

/// What is missing fails a recovery, except where it says that there is nothing to do.
pub proof fn missing_parts_fail_a_recovery(step: RecoverStep, id: Seq<char>, facts: RecoverFacts)
    ensures
        match after_recover_miss(step, id, facts) {
            RecoverStateView::NotRestored => step is Find,
            RecoverStateView::Refused(error) => (step is Load && error.code is Conflict) || (step
                is OpenStage && error.code is FailedPrecondition) || (step is RecoverStale
                && error.code is FailedPrecondition),
            RecoverStateView::At(next) => step is RecoverStale && next is OpenStage,
            RecoverStateView::Pending => step is RecoverStale,
            RecoverStateView::Confused => !(step is Find || step is Load || step is OpenStage
                || step is RecoverStale),
            _ => false,
        },
{
}

/// What lies at the path of a file in a work directory.
#[derive(Clone, Copy, Debug, PartialEq, Eq, Structural)]
pub enum WorkEntry {
    Missing,
    Present(FileKind),
}

/// Whether an entry of a work directory is removed, if it may be there.
pub open spec fn work_entry_removed(entry: WorkEntry) -> Option<bool> {
    match entry {
        WorkEntry::Missing => Some(false),
        WorkEntry::Present(kind) => if kind is Regular || kind is Symlink {
            Some(true)
        } else {
            None
        },
    }
}

/// Whether a file that an earlier restore left behind is to be removed. Only
/// files and links are.
pub fn reset_work_entry(path: &str, entry: WorkEntry) -> (result: Result<bool, Error>)
    ensures
        match entry {
            WorkEntry::Missing => result == Ok::<bool, Error>(false),
            WorkEntry::Present(kind) => if kind is Regular || kind is Symlink {
                result == Ok::<bool, Error>(true)
            } else {
                result matches Err(error) && error.is_checkpoint(
                    ErrorCode::PermissionDenied,
                    "retained restore work entry is not a file: "@ + path@,
                )
            },
        },
        result is Ok <==> work_entry_removed(entry) is Some,
        result matches Ok(removed) ==> work_entry_removed(entry) == Some(removed),
{
    match entry {
        WorkEntry::Missing => Ok(false),
        WorkEntry::Present(kind) => match kind {
            FileKind::Regular => Ok(true),
            FileKind::Symlink => Ok(true),
            _ => {
                let mut message = "retained restore work entry is not a file: ".to_owned();
                message.append(path);
                Err(checkpoint_error(ErrorCode::PermissionDenied, &message))
            },
        },
    }
}

/// States are told apart by their words.
pub proof fn states_have_their_own_words(first: ContainerState, second: ContainerState)
    requires
        state_words(first) == state_words(second),
    ensures
        first == second,
{
    reveal_strlit("creating");
    reveal_strlit("created");
    reveal_strlit("running");
    reveal_strlit("stopped");
    assert("creating"@.len() == 8 && "created"@.len() == 7 && "running"@.len() == 7
        && "stopped"@.len() == 7);
    assert("created"@[0] == 'c' && "running"@[0] == 'r' && "stopped"@[0] == 's');
}

/// Only files and links that an earlier restore left are removed: a directory, or anything
/// else that no restore leaves, is a failure and stays where it is.
pub proof fn only_files_are_removed_from_work(entry: WorkEntry)
    ensures
        work_entry_removed(entry) == Some(true) <==> entry is Present && (entry->Present_0
            is Regular || entry->Present_0 is Symlink),
        work_entry_removed(entry) == Some(false) <==> entry is Missing,
        entry is Present && entry->Present_0 is Directory ==> work_entry_removed(entry) is None,
{
}

} // verus!
