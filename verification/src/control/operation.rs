//! Orders durable acceptance, direct execution, and cancellation of one-shot operations.

use vstd::prelude::*;
use vstd::string::*;

use crate::contract::control::{
    invalid_request, state_failure, Operation, OperationIntent, OperationStart,
    OperationStartView, OperationState, OperationView, OperatorError, OperatorErrorView,
    ProjectRegistration, ProjectRegistrationView, TerminalOutcome, TerminalOutcomeView,
};
use crate::contract::identity::{ConversationId, OperationId, SessionId};
use crate::contract::target::{
    TargetCommand, TargetCommandView, TargetIntent, TargetLaunch, TargetLaunchView,
    TargetOperationId, TargetSessionId,
};
use crate::control::admission::{fingerprint, hexadecimal, sha256, validate_start};
use crate::control::project::{resolve, resolved};
use crate::control::refusal::Refusal;
use crate::control::runtime::CancellationOutcome;
use crate::control::session_writer::{admit_exact, writer_admission, AdmittedWriter};
use crate::identifier::uuid_text;
use crate::keyed::lookup;
use crate::state::decision::{answer, decision, Decided};
use crate::state::operation::transitioned;
use crate::state::tables::{ChangeView, Tables, TablesView};
use crate::text::{joined, optional, told};

verus! {

/// The terminal transition of an operation, with what the target observed.
#[derive(Debug, PartialEq, Eq)]
pub struct OperationMove {
    pub next: OperationState,
    pub outcome: TerminalOutcome,
    pub session: Option<SessionId>,
    pub model: Option<String>,
    pub version: Option<String>,
}

/// The mathematical content of [`OperationMove`].
#[verifier::ext_equal]
pub struct OperationMoveView {
    pub next: OperationState,
    pub outcome: TerminalOutcomeView,
    pub session: Option<SessionId>,
    pub model: Option<Seq<char>>,
    pub version: Option<Seq<char>>,
}

impl View for OperationMove {
    type V = OperationMoveView;

    open spec fn view(&self) -> OperationMoveView {
        OperationMoveView {
            next: self.next,
            outcome: self.outcome@,
            session: self.session,
            model: optional(self.model),
            version: optional(self.version),
        }
    }
}

impl Clone for OperationMove {
    fn clone(&self) -> (copy: Self)
        ensures
            copy@ == self@,
    {
        OperationMove {
            next: self.next,
            outcome: self.outcome.clone(),
            session: self.session,
            model: self.model.clone(),
            version: self.version.clone(),
        }
    }
}

/// What the start of a one-shot operation does next.
#[derive(Debug, PartialEq, Eq)]
pub enum StartStep {
    /// Register the operation so that it can be cancelled.
    OpenGate,
    /// Start the worker.
    SpawnWorker,
    /// Wait for what became of the launch.
    AwaitLaunch,
    /// Record that the operation runs.
    MarkRunning,
    /// Permit the target to go on.
    Grant { running: Operation },
    /// Tell the target that it may not go on.
    Withhold { refusal: OperatorError, message: String },
    /// Record how the operation ended.
    Conclude { conclusion: OperationMove, release: bool },
    /// Release the operation.
    Release { outcome: Result<Operation, OperatorError> },
    /// Wait for the result of the worker.
    AwaitCompletion,
    /// The request is answered.
    Done(Result<Operation, OperatorError>),
}

/// The mathematical content of [`StartStep`].
#[verifier::ext_equal]
pub enum StartStepView {
    OpenGate,
    SpawnWorker,
    AwaitLaunch,
    MarkRunning,
    Grant { running: OperationView },
    Withhold { refusal: OperatorErrorView, message: Seq<char> },
    Conclude { conclusion: OperationMoveView, release: bool },
    Release { outcome: Result<OperationView, OperatorErrorView> },
    AwaitCompletion,
    Done(Result<OperationView, OperatorErrorView>),
}

impl View for StartStep {
    type V = StartStepView;

    open spec fn view(&self) -> StartStepView {
        match *self {
            StartStep::OpenGate => StartStepView::OpenGate,
            StartStep::SpawnWorker => StartStepView::SpawnWorker,
            StartStep::AwaitLaunch => StartStepView::AwaitLaunch,
            StartStep::MarkRunning => StartStepView::MarkRunning,
            StartStep::Grant { running } => StartStepView::Grant {
                running: running@,
            },
            StartStep::Withhold { refusal, message } => StartStepView::Withhold {
                refusal: refusal@,
                message: message@,
            },
            StartStep::Conclude { conclusion, release } => StartStepView::Conclude {
                conclusion: conclusion@,
                release,
            },
            StartStep::Release { outcome } => StartStepView::Release {
                outcome: answer(outcome),
            },
            StartStep::AwaitCompletion => StartStepView::AwaitCompletion,
            StartStep::Done(value) => StartStepView::Done(answer(value)),
        }
    }
}

/// What became of a step.
#[derive(Debug, PartialEq, Eq)]
pub enum StartEvent {
    GateOpened(Result<(), OperatorError>),
    WorkerSpawned(Result<(), String>),
    /// What the target reported, or that it ended without a report.
    Launch { report: Option<TargetLaunch> },
    Moved(Result<Operation, OperatorError>),
    Told { received: bool },
    Released(Result<(), OperatorError>),
    /// What the worker reported.
    Completed(Result<Operation, OperatorError>),
    /// The worker ended without a report.
    CompletionLost,
}

/// The mathematical content of [`StartEvent`].
#[verifier::ext_equal]
pub enum StartEventView {
    GateOpened(Result<(), OperatorErrorView>),
    WorkerSpawned(Result<(), Seq<char>>),
    Launch { report: Option<TargetLaunchView> },
    Moved(Result<OperationView, OperatorErrorView>),
    Told { received: bool },
    Released(Result<(), OperatorErrorView>),
    Completed(Result<OperationView, OperatorErrorView>),
    CompletionLost,
}

impl View for StartEvent {
    type V = StartEventView;

    open spec fn view(&self) -> StartEventView {
        match *self {
            StartEvent::GateOpened(value) => StartEventView::GateOpened(answer(value)),
            StartEvent::WorkerSpawned(value) => StartEventView::WorkerSpawned(told(value)),
            StartEvent::Launch { report } => StartEventView::Launch {
                report: optional(report),
            },
            StartEvent::Moved(value) => StartEventView::Moved(answer(value)),
            StartEvent::Told { received } => StartEventView::Told {
                received,
            },
            StartEvent::Released(value) => StartEventView::Released(answer(value)),
            StartEvent::Completed(value) => StartEventView::Completed(answer(value)),
            StartEvent::CompletionLost => StartEventView::CompletionLost,
        }
    }
}

/// A conclusion without observations.
pub open spec fn concluded(next: OperationState, outcome: TerminalOutcomeView) -> OperationMoveView {
    OperationMoveView { next, outcome, session: None, model: None, version: None }
}

/// Makes a conclusion without observations.
pub(crate) fn conclude(next: OperationState, outcome: TerminalOutcome) -> (conclusion: OperationMove)
    ensures
        conclusion@ == concluded(next, outcome@),
{
    OperationMove { next, outcome, session: None, model: None, version: None }
}

/// What a conclusion yields when it is recorded.
pub open spec fn conclusion_recorded(
    tables: TablesView,
    operation_id: OperationId,
    conclusion: OperationMoveView,
) -> Result<(OperationView, Seq<ChangeView>), OperatorErrorView> {
    transitioned(
        tables,
        operation_id,
        conclusion.next,
        Some(conclusion.outcome),
        conclusion.session,
        conclusion.model,
        conclusion.version,
    )
}

/// Records a conclusion.
pub fn transition(tables: &Tables, operation_id: OperationId, conclusion: OperationMove) -> (
recorded: Result<Decided<Operation>, OperatorError>)
    requires
        tables.well_formed(),
    ensures
        decision(recorded) == conclusion_recorded(tables@, operation_id, conclusion@),
{
    tables.transition(
        operation_id,
        conclusion.next,
        Some(conclusion.outcome),
        conclusion.session,
        conclusion.model,
        conclusion.version,
    )
}

/// What a request for a one-shot operation yields before anything runs: it must be complete, its
/// project must be registered with a directory, and it must be admitted as the one writer of its
/// session. Its encoding gives its fingerprint.
pub open spec fn start_requested(
    tables: TablesView,
    start: OperationStartView,
    is_directory: bool,
    encoded: Result<Seq<u8>, Seq<char>>,
    session: SessionId,
    fresh: OperationId,
) -> Result<((OperationView, bool), Seq<ChangeView>), OperatorErrorView> {
    if start.prompt.len() == 0 {
        Err(invalid_request("prompt must not be empty"@))
    } else {
        match resolved(tables, start.project_id, is_directory) {
            Err(error) => Err(error),
            Ok(_) => match encoded {
                Err(message) => Err(state_failure(message)),
                Ok(bytes) => writer_admission(
                    tables,
                    start,
                    hexadecimal(sha256(bytes)),
                    session,
                    fresh,
                ),
            },
        }
    }
}

/// Admits a one-shot operation, where its encoding and both fresh identities are given, and the
/// flag tells whether its project's working directory is a directory.
pub fn request_start(
    tables: &Tables,
    start: &OperationStart,
    is_directory: bool,
    encoded: Result<Vec<u8>, String>,
    session: SessionId,
    fresh: OperationId,
) -> (admitted: Result<Decided<AdmittedWriter>, OperatorError>)
    requires
        tables.well_formed(),
    ensures
        decision(admitted) == start_requested(
            tables@,
            start@,
            is_directory,
            told(encoded),
            session,
            fresh,
        ),
{
    match validate_start(start) {
        Ok(()) => {},
        Err(error) => {
            return Err(error);
        },
    }
    match resolve(tables, &start.project_id, is_directory) {
        Ok(_) => {},
        Err(error) => {
            return Err(error);
        },
    }
    match encoded {
        Err(message) => Err(OperatorError::State(message)),
        Ok(bytes) => {
            let fingerprint = fingerprint(bytes.as_slice());
            admit_exact(tables, start, fingerprint.as_str(), session, fresh)
        },
    }
}

/// The first step for an admitted operation: one that was there before runs already.
pub open spec fn start_begun(operation: OperationView, inserted: bool) -> StartStepView {
    if inserted {
        StartStepView::OpenGate
    } else {
        StartStepView::Done(Ok(operation))
    }
}

/// Begins the start of an admitted operation.
pub fn begin(admitted: AdmittedWriter) -> (step: StartStep)
    ensures
        step@ == start_begun(admitted@.0, admitted@.1),
{
    if admitted.inserted {
        StartStep::OpenGate
    } else {
        StartStep::Done(Ok(admitted.operation))
    }
}

/// What the start does after a step became what the event says. An event that does not belong to
/// the step changes nothing.
pub open spec fn start_moved(step: StartStepView, event: StartEventView) -> StartStepView {
    match (step, event) {
        (StartStepView::OpenGate, StartEventView::GateOpened(opened)) => match opened {
            Ok(()) => StartStepView::SpawnWorker,
            Err(error) => StartStepView::Done(Err(error)),
        },
        (StartStepView::SpawnWorker, StartEventView::WorkerSpawned(spawned)) => match spawned {
            Ok(()) => StartStepView::AwaitLaunch,
            Err(message) => StartStepView::Conclude {
                conclusion: concluded(
                    OperationState::Failed,
                    TerminalOutcomeView::Failed("operation worker could not start: "@ + message),
                ),
                release: true,
            },
        },
        (StartStepView::AwaitLaunch, StartEventView::Launch { report }) => match report {
            Some(TargetLaunchView::Launched) => StartStepView::MarkRunning,
            Some(TargetLaunchView::SpawnFailed(message)) => StartStepView::Conclude {
                conclusion: concluded(
                    OperationState::Failed,
                    TerminalOutcomeView::Failed(message),
                ),
                release: false,
            },
            Some(TargetLaunchView::CancelledBeforeLaunch) => StartStepView::AwaitCompletion,
            None => StartStepView::Conclude {
                conclusion: concluded(
                    OperationState::Indeterminate,
                    TerminalOutcomeView::Indeterminate("target ended before proving launch state"@),
                ),
                release: false,
            },
        },
        (StartStepView::MarkRunning, StartEventView::Moved(moved)) => match moved {
            Ok(running) => StartStepView::Grant { running },
            Err(refusal) => StartStepView::Withhold { refusal, message: refusal.text() },
        },
        (StartStepView::Grant { running }, StartEventView::Told { received }) => if received {
            StartStepView::Done(Ok(running))
        } else {
            StartStepView::Done(
                Err(
                    OperatorErrorView::Indeterminate(
                        "target stopped after direct child launch before durable execution"@,
                    ),
                ),
            )
        },
        (
            StartStepView::Withhold { refusal, message: _ },
            StartEventView::Told { received: _ },
        ) => StartStepView::Done(Err(refusal)),
        (
            StartStepView::Conclude { conclusion: _, release },
            StartEventView::Moved(outcome),
        ) => if release {
            StartStepView::Release { outcome }
        } else {
            StartStepView::Done(outcome)
        },
        (
            StartStepView::Release { outcome },
            StartEventView::Released(released),
        ) => match released {
            Ok(()) => StartStepView::Done(outcome),
            Err(error) => StartStepView::Done(Err(error)),
        },
        (
            StartStepView::AwaitCompletion,
            StartEventView::Completed(outcome),
        ) => StartStepView::Done(outcome),
        (StartStepView::AwaitCompletion, StartEventView::CompletionLost) => StartStepView::Done(
            Err(
                OperatorErrorView::Indeterminate(
                    "pre-launch cancellation was reported without a durable worker result"@,
                ),
            ),
        ),
        _ => step,
    }
}

/// Moves the start of a one-shot operation.
pub fn start(step: StartStep, event: StartEvent) -> (next: StartStep)
    ensures
        next@ == start_moved(step@, event@),
{
    match (step, event) {
        (StartStep::OpenGate, StartEvent::GateOpened(opened)) => match opened {
            Ok(()) => StartStep::SpawnWorker,
            Err(error) => StartStep::Done(Err(error)),
        },
        (StartStep::SpawnWorker, StartEvent::WorkerSpawned(spawned)) => match spawned {
            Ok(()) => StartStep::AwaitLaunch,
            Err(message) => StartStep::Conclude {
                conclusion: conclude(
                    OperationState::Failed,
                    TerminalOutcome::Failed(
                        joined("operation worker could not start: ", message.as_str()),
                    ),
                ),
                release: true,
            },
        },
        (StartStep::AwaitLaunch, StartEvent::Launch { report }) => match report {
            Some(TargetLaunch::Launched) => StartStep::MarkRunning,
            Some(TargetLaunch::SpawnFailed(message)) => StartStep::Conclude {
                conclusion: conclude(OperationState::Failed, TerminalOutcome::Failed(message)),
                release: false,
            },
            Some(TargetLaunch::CancelledBeforeLaunch) => StartStep::AwaitCompletion,
            None => StartStep::Conclude {
                conclusion: conclude(
                    OperationState::Indeterminate,
                    TerminalOutcome::Indeterminate(
                        "target ended before proving launch state".to_owned(),
                    ),
                ),
                release: false,
            },
        },
        (StartStep::MarkRunning, StartEvent::Moved(moved)) => match moved {
            Ok(running) => StartStep::Grant { running },
            Err(refusal) => {
                let message = refusal.to_text();
                StartStep::Withhold { refusal, message }
            },
        },
        (StartStep::Grant { running }, StartEvent::Told { received }) => {
            if received {
                StartStep::Done(Ok(running))
            } else {
                StartStep::Done(
                    Err(
                        OperatorError::Indeterminate(
                            "target stopped after direct child launch before durable execution".to_owned(),
                        ),
                    ),
                )
            }
        },
        (
            StartStep::Withhold { refusal, message: _ },
            StartEvent::Told { received: _ },
        ) => StartStep::Done(Err(refusal)),
        (StartStep::Conclude { conclusion: _, release }, StartEvent::Moved(outcome)) => {
            if release {
                StartStep::Release { outcome }
            } else {
                StartStep::Done(outcome)
            }
        },
        (StartStep::Release { outcome }, StartEvent::Released(released)) => match released {
            Ok(()) => StartStep::Done(outcome),
            Err(error) => StartStep::Done(Err(error)),
        },
        (StartStep::AwaitCompletion, StartEvent::Completed(outcome)) => StartStep::Done(outcome),
        (StartStep::AwaitCompletion, StartEvent::CompletionLost) => StartStep::Done(
            Err(
                OperatorError::Indeterminate(
                    "pre-launch cancellation was reported without a durable worker result".to_owned(),
                ),
            ),
        ),
        (step, _) => step,
    }
}

/// The intent of a request in the target's terms.
pub open spec fn target_intent(intent: OperationIntent) -> TargetIntent {
    match intent {
        OperationIntent::New => TargetIntent::New,
        OperationIntent::ResumeExact { session_id } => TargetIntent::ResumeExact {
            session_id: TargetSessionId(session_id.0),
        },
    }
}

/// Tells the intent of a request in the target's terms.
pub fn map_intent(intent: OperationIntent) -> (mapped: TargetIntent)
    ensures
        mapped == target_intent(intent),
{
    match intent {
        OperationIntent::New => TargetIntent::New,
        OperationIntent::ResumeExact { session_id } => TargetIntent::ResumeExact {
            session_id: TargetSessionId(session_id.value()),
        },
    }
}

/// The launch facts of an admitted operation.
pub open spec fn launch_facts(
    operation: OperationView,
    project: ProjectRegistrationView,
    start: OperationStartView,
) -> TargetCommandView {
    TargetCommandView {
        operation_id: TargetOperationId(operation.operation_id.0),
        working_directory: project.working_directory,
        executable: project.claude_executable,
        expected_model: project.expected_opus_model,
        intent: target_intent(start.intent),
        session_id: TargetSessionId(operation.session_id.0),
        prompt: start.prompt,
    }
}

/// Makes the launch facts of an admitted operation.
pub fn target_command(
    operation: &Operation,
    project: ProjectRegistration,
    start: OperationStart,
) -> (command: TargetCommand)
    ensures
        command@ == launch_facts(operation@, project@, start@),
{
    TargetCommand {
        operation_id: TargetOperationId(operation.operation_id.value()),
        working_directory: project.working_directory,
        executable: project.claude_executable,
        expected_model: project.expected_opus_model,
        intent: map_intent(start.intent),
        session_id: TargetSessionId(operation.session_id.value()),
        prompt: start.prompt,
    }
}

/// What a cancellation has to do.
#[derive(Debug, PartialEq, Eq)]
pub enum CancelPlan {
    /// The operation has ended.
    Ended(Operation),
    /// Stop the live conversation that the operation carries, and wait.
    StopConversation(ConversationId),
    /// Signal the one-shot operation.
    Signal,
}

/// The mathematical content of [`CancelPlan`].
#[verifier::ext_equal]
pub enum CancelPlanView {
    Ended(OperationView),
    StopConversation(ConversationId),
    Signal,
}

impl View for CancelPlan {
    type V = CancelPlanView;

    open spec fn view(&self) -> CancelPlanView {
        match *self {
            CancelPlan::Ended(operation) => CancelPlanView::Ended(operation@),
            CancelPlan::StopConversation(id) => CancelPlanView::StopConversation(id),
            CancelPlan::Signal => CancelPlanView::Signal,
        }
    }
}

/// The operation under an identity.
pub open spec fn operation_read(tables: TablesView, operation_id: OperationId) -> Result<
    OperationView,
    OperatorErrorView,
> {
    match tables.operation(operation_id) {
        Some(operation) => Ok(operation),
        None => Err(OperatorErrorView::UnknownOperation(uuid_text(operation_id.0))),
    }
}

/// How an operation is cancelled.
pub open spec fn cancellation(tables: TablesView, operation_id: OperationId) -> Result<
    CancelPlanView,
    OperatorErrorView,
> {
    match operation_read(tables, operation_id) {
        Err(error) => Err(error),
        Ok(operation) => Ok(
            if operation.state.is_terminal() {
                CancelPlanView::Ended(operation)
            } else if lookup(tables.conversations, ConversationId(operation_id)) is Some {
                CancelPlanView::StopConversation(ConversationId(operation_id))
            } else {
                CancelPlanView::Signal
            },
        ),
    }
}

/// Plans a cancellation.
pub fn cancel(tables: &Tables, operation_id: OperationId) -> (plan: Result<
    CancelPlan,
    OperatorError,
>)
    requires
        tables.well_formed(),
    ensures
        answer(plan) == cancellation(tables@, operation_id),
{
    let current = match tables.get_operation(operation_id) {
        Ok(current) => current,
        Err(error) => {
            return Err(error);
        },
    };
    if current.state.terminal() {
        return Ok(CancelPlan::Ended(current));
    }
    let conversation = ConversationId::new(operation_id);
    match tables.get_conversation(conversation) {
        Ok(_) => Ok(CancelPlan::StopConversation(conversation)),
        Err(_) => Ok(CancelPlan::Signal),
    }
}

/// What a one-shot cancellation yields: where it was signalled, its end has to be awaited.
pub open spec fn signal_outcome(
    tables: TablesView,
    operation_id: OperationId,
    outcome: CancellationOutcome,
) -> Result<Option<OperationView>, OperatorErrorView> {
    match outcome {
        CancellationOutcome::Signalled => Ok(None),
        CancellationOutcome::GateAbsent => match operation_read(tables, operation_id) {
            Err(error) => Err(error),
            Ok(operation) => if operation.state.is_terminal() {
                Ok(Some(operation))
            } else {
                Err(state_failure("nonterminal operation has no runtime cancellation gate"@))
            },
        },
    }
}

/// Tells what a one-shot cancellation yields; nothing yet where its end has to be awaited.
pub fn cancel_one_shot(tables: &Tables, operation_id: OperationId, outcome: CancellationOutcome) -> (
ended: Result<Option<Operation>, OperatorError>)
    requires
        tables.well_formed(),
    ensures
        match ended {
            Ok(operation) => signal_outcome(tables@, operation_id, outcome) == Ok::<
                _,
                OperatorErrorView,
            >(optional(operation)),
            Err(error) => signal_outcome(tables@, operation_id, outcome) == Err::<
                Option<OperationView>,
                _,
            >(error@),
        },
{
    match outcome {
        CancellationOutcome::Signalled => Ok(None),
        CancellationOutcome::GateAbsent => {
            let observed = match tables.get_operation(operation_id) {
                Ok(observed) => observed,
                Err(error) => {
                    return Err(error);
                },
            };
            if observed.state.terminal() {
                Ok(Some(observed))
            } else {
                Err(
                    OperatorError::State(
                        "nonterminal operation has no runtime cancellation gate".to_owned(),
                    ),
                )
            }
        },
    }
}

/// Refuses a wait whose end cannot be represented.
pub fn bounded_wait(representable: bool) -> (bounded: Result<(), OperatorError>)
    ensures
        match bounded {
            Ok(()) => representable,
            Err(error) => !representable && error@ == invalid_request(
                "wait duration cannot be represented"@,
            ),
        },
{
    if representable {
        Ok(())
    } else {
        Err(OperatorError::InvalidRequest("wait duration cannot be represented".to_owned()))
    }
}

/// Reads an operation for a waiting caller: nothing is read once a refusal was recorded.
pub fn poll(refusal: &Refusal, tables: &Tables, operation_id: OperationId) -> (found: Result<
    Operation,
    OperatorError,
>)
    requires
        tables.well_formed(),
    ensures
        answer(found) == (match refusal@ {
            Some(error) => Err(error),
            None => operation_read(tables@, operation_id),
        }),
{
    match refusal.check() {
        Ok(()) => tables.get_operation(operation_id),
        Err(error) => Err(error),
    }
}

/// Whether a wait ends with an operation as it was read.
pub fn wait_ends(current: &Operation, deadline_passed: bool) -> (ends: bool)
    ensures
        ends == (current@.state.is_terminal() || deadline_passed),
{
    current.state.terminal() || deadline_passed
}

/// The target is permitted to go on only once the operation is durably running.
pub proof fn permission_follows_durable_running(step: StartStepView, event: StartEventView)
    requires
        !(step is Grant),
    ensures
        start_moved(step, event) matches StartStepView::Grant { running } ==> step is MarkRunning
            && event == StartEventView::Moved(Ok(running)),
{
}

/// A launched operation that could not be marked running answers with exactly that refusal, and the
/// target is told that it may not go on.
pub proof fn refused_running_is_withheld(refusal: OperatorErrorView, received: bool)
    ensures
        start_moved(StartStepView::MarkRunning, StartEventView::Moved(Err(refusal)))
            == (StartStepView::Withhold { refusal, message: refusal.text() }),
        start_moved(
            StartStepView::Withhold { refusal, message: refusal.text() },
            StartEventView::Told { received },
        ) == StartStepView::Done(Err(refusal)),
{
}

/// A request that was answered stays answered.
pub proof fn answered_start_is_final(
    outcome: Result<OperationView, OperatorErrorView>,
    event: StartEventView,
)
    ensures
        start_moved(StartStepView::Done(outcome), event) == StartStepView::Done(outcome),
{
}

} // verus!
