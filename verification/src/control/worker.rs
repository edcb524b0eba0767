//! Runs one admitted operation to its durable end.

use vstd::prelude::*;

use crate::contract::control::{
    state_failure, Operation, OperationState, OperationView, OperatorError, OperatorErrorView,
    TerminalOutcome, TerminalOutcomeView,
};
use crate::contract::identity::SessionId;
use crate::contract::target::{TargetOutcome, TargetOutcomeView};
use crate::control::operation::{conclude, concluded, OperationMove, OperationMoveView};
use crate::state::decision::answer;

verus! {

/// What the worker of an operation does next.
#[derive(Debug, PartialEq, Eq)]
pub enum WorkerStep {
    /// Record that the operation was cancelled before its target was launched.
    ConcludeCancelled { conclusion: OperationMove },
    /// Read the cancelled operation.
    ReadCancelled,
    /// Report to the starter that nothing was launched.
    ReportCancelled { cancelled: Operation },
    /// Read the operation that is to run.
    ReadOperation,
    /// Run the target.
    RunTarget { operation: Operation },
    /// Record how the target ended.
    Conclude { conclusion: OperationMove },
    /// Record that the target was cancelled before it was launched.
    ConcludeUnlaunched { conclusion: OperationMove },
    /// Read the operation whose target was not launched.
    ReadUnlaunched,
    /// Hand the cancelled operation to the starter.
    SendCancelled { cancelled: Operation },
    /// Hand a failure to the starter, and refuse all later requests with it.
    SendFailure { failure: OperatorError },
    /// Release the operation.
    Release,
    /// Refuse all later requests.
    Refuse { failure: OperatorError },
    /// The worker has ended.
    Done,
}

/// The mathematical content of [`WorkerStep`].
#[verifier::ext_equal]
pub enum WorkerStepView {
    ConcludeCancelled { conclusion: OperationMoveView },
    ReadCancelled,
    ReportCancelled { cancelled: OperationView },
    ReadOperation,
    RunTarget { operation: OperationView },
    Conclude { conclusion: OperationMoveView },
    ConcludeUnlaunched { conclusion: OperationMoveView },
    ReadUnlaunched,
    SendCancelled { cancelled: OperationView },
    SendFailure { failure: OperatorErrorView },
    Release,
    Refuse { failure: OperatorErrorView },
    Done,
}

impl View for WorkerStep {
    type V = WorkerStepView;

    open spec fn view(&self) -> WorkerStepView {
        match *self {
            WorkerStep::ConcludeCancelled { conclusion } => WorkerStepView::ConcludeCancelled {
                conclusion: conclusion@,
            },
            WorkerStep::ReadCancelled => WorkerStepView::ReadCancelled,
            WorkerStep::ReportCancelled { cancelled } => WorkerStepView::ReportCancelled {
                cancelled: cancelled@,
            },
            WorkerStep::ReadOperation => WorkerStepView::ReadOperation,
            WorkerStep::RunTarget { operation } => WorkerStepView::RunTarget {
                operation: operation@,
            },
            WorkerStep::Conclude { conclusion } => WorkerStepView::Conclude {
                conclusion: conclusion@,
            },
            WorkerStep::ConcludeUnlaunched { conclusion } => WorkerStepView::ConcludeUnlaunched {
                conclusion: conclusion@,
            },
            WorkerStep::ReadUnlaunched => WorkerStepView::ReadUnlaunched,
            WorkerStep::SendCancelled { cancelled } => WorkerStepView::SendCancelled {
                cancelled: cancelled@,
            },
            WorkerStep::SendFailure { failure } => WorkerStepView::SendFailure {
                failure: failure@,
            },
            WorkerStep::Release => WorkerStepView::Release,
            WorkerStep::Refuse { failure } => WorkerStepView::Refuse {
                failure: failure@,
            },
            WorkerStep::Done => WorkerStepView::Done,
        }
    }
}

/// What became of a step.
#[derive(Debug, PartialEq, Eq)]
pub enum WorkerEvent {
    Moved(Result<Operation, OperatorError>),
    Read(Result<Operation, OperatorError>),
    Reported { received: bool },
    /// How the target ended.
    Ran(TargetOutcome),
    Sent,
    Released(Result<(), OperatorError>),
    Refused,
}

/// The mathematical content of [`WorkerEvent`].
#[verifier::ext_equal]
pub enum WorkerEventView {
    Moved(Result<OperationView, OperatorErrorView>),
    Read(Result<OperationView, OperatorErrorView>),
    Reported { received: bool },
    Ran(TargetOutcomeView),
    Sent,
    Released(Result<(), OperatorErrorView>),
    Refused,
}

impl View for WorkerEvent {
    type V = WorkerEventView;

    open spec fn view(&self) -> WorkerEventView {
        match *self {
            WorkerEvent::Moved(value) => WorkerEventView::Moved(answer(value)),
            WorkerEvent::Read(value) => WorkerEventView::Read(answer(value)),
            WorkerEvent::Reported { received } => WorkerEventView::Reported {
                received,
            },
            WorkerEvent::Ran(value) => WorkerEventView::Ran(value@),
            WorkerEvent::Sent => WorkerEventView::Sent,
            WorkerEvent::Released(value) => WorkerEventView::Released(answer(value)),
            WorkerEvent::Refused => WorkerEventView::Refused,
        }
    }
}

/// The first step of a worker: an operation that was cancelled already is never launched.
pub open spec fn worker_begun(cancelled: bool) -> WorkerStepView {
    if cancelled {
        WorkerStepView::ConcludeCancelled {
            conclusion: concluded(
                OperationState::Cancelled,
                TerminalOutcomeView::Cancelled(
                    "operation cancellation was observed before target launch"@,
                ),
            ),
        }
    } else {
        WorkerStepView::ReadOperation
    }
}

/// Begins the work on an operation, which may be cancelled already.
pub fn begin(cancelled: bool) -> (step: WorkerStep)
    ensures
        step@ == worker_begun(cancelled),
{
    if cancelled {
        WorkerStep::ConcludeCancelled {
            conclusion: conclude(
                OperationState::Cancelled,
                TerminalOutcome::Cancelled(
                    "operation cancellation was observed before target launch".to_owned(),
                ),
            ),
        }
    } else {
        WorkerStep::ReadOperation
    }
}

/// What the worker does with how the target ended. A target that could not be spawned was reported
/// to the starter, which records it.
pub open spec fn target_ended(outcome: TargetOutcomeView) -> WorkerStepView {
    match outcome {
        TargetOutcomeView::SpawnFailed(_) => WorkerStepView::Release,
        TargetOutcomeView::Success(success) => WorkerStepView::Conclude {
            conclusion: OperationMoveView {
                next: OperationState::Succeeded,
                outcome: TerminalOutcomeView::Succeeded(success.result),
                session: Some(SessionId(success.observed_session_id.0)),
                model: Some(success.observed_model),
                version: success.observed_version,
            },
        },
        TargetOutcomeView::Failed(message) => WorkerStepView::Conclude {
            conclusion: concluded(OperationState::Failed, TerminalOutcomeView::Failed(message)),
        },
        TargetOutcomeView::Cancelled(message) => WorkerStepView::Conclude {
            conclusion: concluded(
                OperationState::Cancelled,
                TerminalOutcomeView::Cancelled(message),
            ),
        },
        TargetOutcomeView::CancelledBeforeLaunch(message) => WorkerStepView::ConcludeUnlaunched {
            conclusion: concluded(
                OperationState::Cancelled,
                TerminalOutcomeView::Cancelled(message),
            ),
        },
        TargetOutcomeView::Indeterminate(message) => WorkerStepView::Conclude {
            conclusion: concluded(
                OperationState::Indeterminate,
                TerminalOutcomeView::Indeterminate(message),
            ),
        },
    }
}

/// Decides what the worker does with how the target ended.
pub fn run_target(outcome: TargetOutcome) -> (step: WorkerStep)
    ensures
        step@ == target_ended(outcome@),
{
    match outcome {
        TargetOutcome::SpawnFailed(_) => WorkerStep::Release,
        TargetOutcome::Success(success) => WorkerStep::Conclude {
            conclusion: OperationMove {
                next: OperationState::Succeeded,
                outcome: TerminalOutcome::Succeeded(success.result),
                session: Some(SessionId::new_exact(success.observed_session_id.0)),
                model: Some(success.observed_model),
                version: success.observed_version,
            },
        },
        TargetOutcome::Failed(message) => WorkerStep::Conclude {
            conclusion: conclude(OperationState::Failed, TerminalOutcome::Failed(message)),
        },
        TargetOutcome::Cancelled(message) => WorkerStep::Conclude {
            conclusion: conclude(OperationState::Cancelled, TerminalOutcome::Cancelled(message)),
        },
        TargetOutcome::CancelledBeforeLaunch(message) => WorkerStep::ConcludeUnlaunched {
            conclusion: conclude(OperationState::Cancelled, TerminalOutcome::Cancelled(message)),
        },
        TargetOutcome::Indeterminate(message) => WorkerStep::Conclude {
            conclusion: conclude(
                OperationState::Indeterminate,
                TerminalOutcome::Indeterminate(message),
            ),
        },
    }
}

/// What the worker does after a step became what the event says. An event that does not belong to
/// the step changes nothing.
pub open spec fn worker_moved(step: WorkerStepView, event: WorkerEventView) -> WorkerStepView {
    match (step, event) {
        (
            WorkerStepView::ConcludeCancelled { conclusion: _ },
            WorkerEventView::Moved(moved),
        ) => match moved {
            Ok(_) => WorkerStepView::ReadCancelled,
            Err(failure) => WorkerStepView::SendFailure { failure },
        },
        (WorkerStepView::ReadCancelled, WorkerEventView::Read(read)) => match read {
            Ok(cancelled) => WorkerStepView::ReportCancelled { cancelled },
            Err(failure) => WorkerStepView::SendFailure { failure },
        },
        (
            WorkerStepView::ReportCancelled { cancelled },
            WorkerEventView::Reported { received },
        ) => if received {
            WorkerStepView::SendCancelled { cancelled }
        } else {
            WorkerStepView::SendFailure {
                failure: state_failure(
                    "operation starter stopped before durable cancellation acknowledgement"@,
                ),
            }
        },
        (WorkerStepView::ReadOperation, WorkerEventView::Read(read)) => match read {
            Ok(operation) => WorkerStepView::RunTarget { operation },
            Err(failure) => WorkerStepView::SendFailure { failure },
        },
        (
            WorkerStepView::RunTarget { operation: _ },
            WorkerEventView::Ran(outcome),
        ) => target_ended(outcome),
        (
            WorkerStepView::Conclude { conclusion: _ },
            WorkerEventView::Moved(moved),
        ) => match moved {
            Ok(_) => WorkerStepView::Release,
            Err(failure) => WorkerStepView::SendFailure { failure },
        },
        (
            WorkerStepView::ConcludeUnlaunched { conclusion: _ },
            WorkerEventView::Moved(moved),
        ) => match moved {
            Ok(_) => WorkerStepView::ReadUnlaunched,
            Err(failure) => WorkerStepView::SendFailure { failure },
        },
        (WorkerStepView::ReadUnlaunched, WorkerEventView::Read(read)) => match read {
            Ok(cancelled) => WorkerStepView::SendCancelled { cancelled },
            Err(failure) => WorkerStepView::SendFailure { failure },
        },
        (
            WorkerStepView::SendCancelled { cancelled: _ },
            WorkerEventView::Sent,
        ) => WorkerStepView::Release,
        (
            WorkerStepView::SendFailure { failure: _ },
            WorkerEventView::Sent,
        ) => WorkerStepView::Release,
        (WorkerStepView::Release, WorkerEventView::Released(released)) => match released {
            Ok(()) => WorkerStepView::Done,
            Err(failure) => WorkerStepView::Refuse { failure },
        },
        (WorkerStepView::Refuse { failure: _ }, WorkerEventView::Refused) => WorkerStepView::Done,
        _ => step,
    }
}

/// Moves the worker of an operation.
pub fn execute(step: WorkerStep, event: WorkerEvent) -> (next: WorkerStep)
    ensures
        next@ == worker_moved(step@, event@),
{
    match (step, event) {
        (
            WorkerStep::ConcludeCancelled { conclusion: _ },
            WorkerEvent::Moved(moved),
        ) => match moved {
            Ok(_) => WorkerStep::ReadCancelled,
            Err(failure) => WorkerStep::SendFailure { failure },
        },
        (WorkerStep::ReadCancelled, WorkerEvent::Read(read)) => match read {
            Ok(cancelled) => WorkerStep::ReportCancelled { cancelled },
            Err(failure) => WorkerStep::SendFailure { failure },
        },
        (WorkerStep::ReportCancelled { cancelled }, WorkerEvent::Reported { received }) => {
            if received {
                WorkerStep::SendCancelled { cancelled }
            } else {
                WorkerStep::SendFailure {
                    failure: OperatorError::State(
                        "operation starter stopped before durable cancellation acknowledgement".to_owned(),
                    ),
                }
            }
        },
        (WorkerStep::ReadOperation, WorkerEvent::Read(read)) => match read {
            Ok(operation) => WorkerStep::RunTarget { operation },
            Err(failure) => WorkerStep::SendFailure { failure },
        },
        (WorkerStep::RunTarget { operation: _ }, WorkerEvent::Ran(outcome)) => run_target(outcome),
        (WorkerStep::Conclude { conclusion: _ }, WorkerEvent::Moved(moved)) => match moved {
            Ok(_) => WorkerStep::Release,
            Err(failure) => WorkerStep::SendFailure { failure },
        },
        (
            WorkerStep::ConcludeUnlaunched { conclusion: _ },
            WorkerEvent::Moved(moved),
        ) => match moved {
            Ok(_) => WorkerStep::ReadUnlaunched,
            Err(failure) => WorkerStep::SendFailure { failure },
        },
        (WorkerStep::ReadUnlaunched, WorkerEvent::Read(read)) => match read {
            Ok(cancelled) => WorkerStep::SendCancelled { cancelled },
            Err(failure) => WorkerStep::SendFailure { failure },
        },
        (WorkerStep::SendCancelled { cancelled: _ }, WorkerEvent::Sent) => WorkerStep::Release,
        (WorkerStep::SendFailure { failure: _ }, WorkerEvent::Sent) => WorkerStep::Release,
        (WorkerStep::Release, WorkerEvent::Released(released)) => match released {
            Ok(()) => WorkerStep::Done,
            Err(failure) => WorkerStep::Refuse { failure },
        },
        (WorkerStep::Refuse { failure: _ }, WorkerEvent::Refused) => WorkerStep::Done,
        (step, _) => step,
    }
}

/// Whether a conclusion names the state that its outcome stands for.
pub open spec fn conclusion_agrees(conclusion: OperationMoveView) -> bool {
    match conclusion.outcome {
        TerminalOutcomeView::Succeeded(_) => conclusion.next is Succeeded,
        TerminalOutcomeView::Failed(_) => conclusion.next is Failed,
        TerminalOutcomeView::Cancelled(_) => conclusion.next is Cancelled,
        TerminalOutcomeView::Indeterminate(_) => conclusion.next is Indeterminate,
    }
}

/// What the worker records of a target is terminal and in the state that its outcome stands for;
/// a session and a model are recorded exactly where the target succeeded.
pub proof fn target_conclusions_agree(outcome: TargetOutcomeView)
    ensures
        match target_ended(outcome) {
            WorkerStepView::Conclude { conclusion } => conclusion_agrees(conclusion)
                && conclusion.next.is_terminal() && (conclusion.session is Some <==> outcome
                is Success) && (conclusion.model is Some <==> outcome is Success),
            WorkerStepView::ConcludeUnlaunched { conclusion } => conclusion_agrees(conclusion)
                && conclusion.next is Cancelled && conclusion.session is None
                && conclusion.model is None,
            WorkerStepView::Release => outcome is SpawnFailed,
            _ => false,
        },
{
}

/// Whether a worker has nothing left to launch.
pub open spec fn past_launch(step: WorkerStepView) -> bool {
    ||| step is ConcludeCancelled
    ||| step is ReadCancelled
    ||| step is ReportCancelled
    ||| step is SendCancelled
    ||| step is SendFailure
    ||| step is Release
    ||| step is Refuse
    ||| step is Done
}

/// An operation that was cancelled before its worker began is never launched.
pub proof fn cancelled_operation_is_not_launched(step: WorkerStepView, event: WorkerEventView)
    requires
        past_launch(step),
    ensures
        past_launch(worker_begun(true)),
        past_launch(worker_moved(step, event)),
{
}

/// A worker ends only after it released its operation.
pub proof fn worker_releases_before_it_ends(step: WorkerStepView, event: WorkerEventView)
    requires
        !(step is Done),
        worker_moved(step, event) is Done,
    ensures
        step is Release || step is Refuse,
{
}

} // verus!
