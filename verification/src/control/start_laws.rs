//! What becomes of a one-shot operation from its request to its durable end, told of the request
//! and of the records themselves.

use vstd::prelude::*;

use crate::contract::control::{
    OperationDiagnostic, OperationDiagnosticPayload, OperationIntent, OperationStartView,
    OperationState, OperationView, OperatorErrorView, ProjectRegistrationView,
    TerminalOutcomeView,
};
use crate::contract::identity::{ConversationId, OperationId, SessionId};
use crate::contract::target::{
    TargetDiagnostic, TargetIntent, TargetLaunchView, TargetOutcomeView, TargetSuccessView,
};
use crate::control::admission::{hexadecimal, sha256};
use crate::control::diagnostic::recorded_as;
use crate::control::operation::{
    cancellation, conclusion_recorded, launch_facts, signal_outcome, start_begun, start_moved,
    start_requested, CancelPlanView, StartEventView, StartStepView,
};
use crate::control::runtime::CancellationOutcome;
use crate::control::session_writer::session_of_intent;
use crate::control::worker::{
    worker_begun, worker_moved, WorkerEventView, WorkerStepView,
};
use crate::identifier::{random_uuid_layout, uuid_text};
use crate::state::diagnostic::{diagnostic_recorded, diagnostics_read};
use crate::state::laws::{
    diagnostic_cursor_reads_the_rest, diagnostics_numbered, lemma_admitted,
    lemma_highest_diagnostic,
};
use crate::state::operation::transitioned;
use crate::state::recovery::recovered;
use crate::state::tables::{
    lemma_after_one, lemma_after_two, ChangeView, Claim, DiagnosticRecordView, TablesView,
};

verus! {

/// What a request for an operation yields.
pub type Requested = Result<((OperationView, bool), Seq<ChangeView>), OperatorErrorView>;

/// Whether a request is refused with an error.
pub open spec fn denied(result: Requested, error: OperatorErrorView) -> bool {
    result matches Err(told) && told == error
}

/// Whether nothing bears an identity.
pub open spec fn unused(tables: TablesView, fresh: OperationId) -> bool {
    &&& !tables.operations.contains_key(fresh)
    &&& !tables.diagnostics.contains_key(fresh)
    &&& !tables.conversations.contains_key(ConversationId(fresh))
    &&& forall|session: SessionId| #[trigger]
        tables.claims.contains_key(session) ==> tables.claims[session].operation_id != fresh
}

/// Whether no operation was admitted for a request.
pub open spec fn new_request(tables: TablesView, start: OperationStartView) -> bool {
    forall|id: OperationId| #[trigger]
        tables.operations.contains_key(id) ==> tables.operations[id].operation.request_id
            != start.request_id
}

/// A complete new request of a registered project, whose session nobody holds, is admitted: as an
/// operation that is accepted and has observed nothing, that alone claims its session, and whose
/// diagnostics are covered. Nothing else changes.
pub proof fn new_request_is_admitted(
    tables: TablesView,
    start: OperationStartView,
    encoded: Seq<u8>,
    session: SessionId,
    fresh: OperationId,
)
    requires
        tables.consistent(),
        start.prompt.len() > 0,
        tables.projects.contains_key(start.project_id),
        new_request(tables, start),
        !tables.claims.contains_key(session),
        unused(tables, fresh),
    ensures
        start_requested(tables, start, true, Ok(encoded), session, fresh) matches Ok((
            (operation, inserted),
            changes,
        )) && inserted && operation.operation_id == fresh && operation.request_id
            == start.request_id && operation.project_id == start.project_id && operation.intent
            == start.intent && operation.session_id == session && operation.state is Accepted
            && operation.observed_session_id is None && operation.observed_model is None
            && operation.observed_claude_version is None && operation.terminal_outcome is None && ({
            let after = tables.after_all(changes);
            &&& after.operations.contains_key(fresh)
            &&& after.operations[fresh].operation == operation
            &&& after.operations[fresh].fingerprint == hexadecimal(sha256(encoded))
            &&& after.operations.remove(fresh) == tables.operations
            &&& after.claims == tables.claims.insert(
                session,
                Claim { session_id: session, operation_id: fresh },
            )
            &&& after.diagnostics == tables.diagnostics.insert(
                fresh,
                DiagnosticRecordView { operation_id: fresh, diagnostics: Seq::empty() },
            )
            &&& after.projects == tables.projects
            &&& after.conversations == tables.conversations
            &&& after.bindings == tables.bindings
        }),
{
    assert(!tables.has_request(start.request_id));
    assert(!tables.has_claim(fresh));
    let ((operation, inserted), changes) = start_requested(
        tables,
        start,
        true,
        Ok(encoded),
        session,
        fresh,
    )->Ok_0;
    let fingerprint = hexadecimal(sha256(encoded));
    lemma_admitted(tables, start, session, fingerprint, fresh, operation, changes);
    assert(tables.after_all(changes).operations.remove(fresh) =~= tables.operations);
}

/// A session that is held gets no other writer: while its holder is unfinished that is a conflict,
/// and where its holder was interrupted the session is unclassified.
pub proof fn held_session_is_refused(
    tables: TablesView,
    start: OperationStartView,
    encoded: Seq<u8>,
    session: SessionId,
    fresh: OperationId,
)
    requires
        start.prompt.len() > 0,
        tables.projects.contains_key(start.project_id),
        new_request(tables, start),
        tables.claims.contains_key(session),
        tables.operations.contains_key(tables.claims[session].operation_id),
    ensures
        ({
            let result = start_requested(tables, start, true, Ok(encoded), session, fresh);
            let holder = tables.operations[tables.claims[session].operation_id].operation;
            &&& holder.state is Accepted || holder.state is Running ==> denied(
                result,
                OperatorErrorView::Conflict("session already has an active writer"@),
            )
            &&& holder.state is Indeterminate ==> denied(
                result,
                OperatorErrorView::UnclassifiedSession(
                    "session was held by an operation interrupted by daemon restart"@,
                ),
            )
            &&& result is Err
        }),
{
    assert(!tables.has_request(start.request_id));
}

/// The same request again is answered with its operation and writes nothing; its identity with
/// other content is a conflict.
pub proof fn request_is_admitted_once(
    tables: TablesView,
    start: OperationStartView,
    encoded: Seq<u8>,
    session: SessionId,
    fresh: OperationId,
    admitted: OperationId,
)
    requires
        tables.consistent(),
        start.prompt.len() > 0,
        tables.projects.contains_key(start.project_id),
        tables.operations.contains_key(admitted),
        tables.operations[admitted].operation.request_id == start.request_id,
    ensures
        ({
            let result = start_requested(tables, start, true, Ok(encoded), session, fresh);
            let record = tables.operations[admitted];
            if record.fingerprint == hexadecimal(sha256(encoded)) {
                result matches Ok(((operation, inserted), changes)) && operation
                    == record.operation && !inserted && changes.len() == 0
            } else {
                denied(
                    result,
                    OperatorErrorView::Conflict(
                        "request_id was already used with a different complete request"@,
                    ),
                )
            }
        }),
{
    assert(tables.has_request(start.request_id));
}

/// A request without a prompt, of a project that is not registered or has no directory, or that
/// cannot be encoded, is refused before anything is admitted, and says which.
pub proof fn incomplete_request_is_refused(
    tables: TablesView,
    start: OperationStartView,
    is_directory: bool,
    encoded: Result<Seq<u8>, Seq<char>>,
    session: SessionId,
    fresh: OperationId,
)
    ensures
        ({
            let result = start_requested(tables, start, is_directory, encoded, session, fresh);
            if start.prompt.len() == 0 {
                denied(result, OperatorErrorView::InvalidRequest("prompt must not be empty"@))
            } else if !tables.projects.contains_key(start.project_id) {
                denied(result, OperatorErrorView::UnknownProject(start.project_id))
            } else if !is_directory {
                denied(
                    result,
                    OperatorErrorView::InvalidRequest(
                        "registered working_directory is not a directory"@,
                    ),
                )
            } else {
                encoded matches Err(message) ==> denied(result, OperatorErrorView::State(message))
            }
        }),
{
}

/// A launch is told the directory, the executable and the model of the project, the prompt of the
/// request, and the session of the operation, unchanged.
pub proof fn launch_is_told_what_was_registered(
    operation: OperationView,
    project: ProjectRegistrationView,
    start: OperationStartView,
)
    ensures
        ({
            let command = launch_facts(operation, project, start);
            &&& command.operation_id.0 == operation.operation_id.0
            &&& command.working_directory == project.working_directory
            &&& command.executable == project.claude_executable
            &&& command.expected_model == project.expected_opus_model
            &&& command.session_id.0 == operation.session_id.0
            &&& command.prompt == start.prompt
            &&& start.intent is New <==> command.intent is New
            &&& start.intent matches OperationIntent::ResumeExact { session_id } ==> (command.intent
                matches TargetIntent::ResumeExact { session_id: told } && told.0 == session_id.0)
        }),
{
}

/// Where a start stands after events, one after the other.
pub open spec fn start_after(step: StartStepView, events: Seq<StartEventView>) -> StartStepView
    decreases events.len(),
{
    if events.len() == 0 {
        step
    } else {
        start_moved(start_after(step, events.drop_last()), events.last())
    }
}

/// The first events of a start whose worker was spawned.
pub open spec fn spawned() -> Seq<StartEventView> {
    seq![StartEventView::GateOpened(Ok(())), StartEventView::WorkerSpawned(Ok(()))]
}

/// One more event.
proof fn lemma_start_after(step: StartStepView, events: Seq<StartEventView>, event: StartEventView)
    ensures
        start_after(step, events.push(event)) == start_moved(start_after(step, events), event),
{
    assert(events.push(event).drop_last() =~= events);
}

/// A start whose worker was spawned waits for the launch.
proof fn lemma_spawned(operation: OperationView)
    ensures
        start_after(start_begun(operation, true), spawned()) is AwaitLaunch,
{
    let none = Seq::<StartEventView>::empty();
    let begun = start_begun(operation, true);
    let opened = StartEventView::GateOpened(Ok(()));
    let worker = StartEventView::WorkerSpawned(Ok(()));
    lemma_start_after(begun, none, opened);
    lemma_start_after(begun, none.push(opened), worker);
    assert(spawned() =~= none.push(opened).push(worker));
}

/// A new operation that was launched and durably runs is answered as it runs, once its target took
/// the permission; a target that did not take it leaves the outcome indeterminate.
pub proof fn launched_start_is_answered(
    admitted: OperationView,
    running: OperationView,
    received: bool,
)
    ensures
        ({
            let launch = StartEventView::Launch { report: Some(TargetLaunchView::Launched) };
            let moved = StartEventView::Moved(Ok(running));
            let told = StartEventView::Told { received };
            start_after(
                start_begun(admitted, true),
                spawned().push(launch).push(moved).push(told),
            ) matches StartStepView::Done(result) && if received {
                result matches Ok(operation) && operation == running
            } else {
                result matches Err(error) && error == OperatorErrorView::Indeterminate(
                    "target stopped after direct child launch before durable execution"@,
                )
            }
        }),
{
    let launch = StartEventView::Launch { report: Some(TargetLaunchView::Launched) };
    let moved = StartEventView::Moved(Ok(running));
    let told = StartEventView::Told { received };
    let begun = start_begun(admitted, true);
    lemma_spawned(admitted);
    lemma_start_after(begun, spawned(), launch);
    lemma_start_after(begun, spawned().push(launch), moved);
    lemma_start_after(begun, spawned().push(launch).push(moved), told);
}

/// A new operation whose target was not launched is concluded: as failed for the reason that was
/// told, or as indeterminate where the target told nothing; the request is answered with what was
/// recorded.
pub proof fn unlaunched_start_is_concluded(
    admitted: OperationView,
    message: Seq<char>,
    recorded: Result<OperationView, OperatorErrorView>,
)
    ensures
        ({
            let begun = start_begun(admitted, true);
            let refused = StartEventView::Launch {
                report: Some(TargetLaunchView::SpawnFailed(message)),
            };
            let silent = StartEventView::Launch { report: None };
            let moved = StartEventView::Moved(recorded);
            &&& start_after(begun, spawned().push(refused)) matches StartStepView::Conclude {
                conclusion,
                release,
            } && conclusion.next is Failed && conclusion.outcome == TerminalOutcomeView::Failed(
                message,
            ) && conclusion.session is None && conclusion.model is None && !release
            &&& start_after(begun, spawned().push(silent)) matches StartStepView::Conclude {
                conclusion,
                release,
            } && conclusion.next is Indeterminate && conclusion.outcome
                == TerminalOutcomeView::Indeterminate("target ended before proving launch state"@)
                && conclusion.session is None && conclusion.model is None && !release
            &&& start_after(begun, spawned().push(refused).push(moved)) == StartStepView::Done(
                recorded,
            )
            &&& start_after(begun, spawned().push(silent).push(moved)) == StartStepView::Done(
                recorded,
            )
        }),
{
    let begun = start_begun(admitted, true);
    let refused = StartEventView::Launch { report: Some(TargetLaunchView::SpawnFailed(message)) };
    let silent = StartEventView::Launch { report: None };
    let moved = StartEventView::Moved(recorded);
    lemma_spawned(admitted);
    lemma_start_after(begun, spawned(), refused);
    lemma_start_after(begun, spawned(), silent);
    lemma_start_after(begun, spawned().push(refused), moved);
    lemma_start_after(begun, spawned().push(silent), moved);
}

/// A new operation that was cancelled before its launch is answered with what its worker recorded.
pub proof fn cancelled_start_is_answered(
    admitted: OperationView,
    recorded: Result<OperationView, OperatorErrorView>,
)
    ensures
        ({
            let cancelled = StartEventView::Launch {
                report: Some(TargetLaunchView::CancelledBeforeLaunch),
            };
            start_after(
                start_begun(admitted, true),
                spawned().push(cancelled).push(StartEventView::Completed(recorded)),
            ) == StartStepView::Done(recorded)
        }),
{
    let begun = start_begun(admitted, true);
    let cancelled = StartEventView::Launch {
        report: Some(TargetLaunchView::CancelledBeforeLaunch),
    };
    lemma_spawned(admitted);
    lemma_start_after(begun, spawned(), cancelled);
    lemma_start_after(begun, spawned().push(cancelled), StartEventView::Completed(recorded));
}

/// A worker that could not be spawned fails its operation with the reason, and the operation is
/// released before the request is answered with what was recorded.
pub proof fn unspawned_worker_fails_its_operation(
    admitted: OperationView,
    message: Seq<char>,
    recorded: Result<OperationView, OperatorErrorView>,
)
    ensures
        ({
            let begun = start_begun(admitted, true);
            let opened = seq![StartEventView::GateOpened(Ok(()))];
            let failed = opened.push(StartEventView::WorkerSpawned(Err(message)));
            let moved = failed.push(StartEventView::Moved(recorded));
            &&& start_after(begun, failed) matches StartStepView::Conclude { conclusion, release }
                && conclusion.next is Failed && conclusion.outcome == TerminalOutcomeView::Failed(
                "operation worker could not start: "@ + message,
            ) && release
            &&& start_after(begun, moved) is Release
            &&& start_after(begun, moved.push(StartEventView::Released(Ok(()))))
                == StartStepView::Done(recorded)
        }),
{
    let begun = start_begun(admitted, true);
    let none = Seq::<StartEventView>::empty();
    let event = StartEventView::GateOpened(Ok(()));
    let opened = seq![event];
    let failed = opened.push(StartEventView::WorkerSpawned(Err(message)));
    let moved = failed.push(StartEventView::Moved(recorded));
    lemma_start_after(begun, none, event);
    assert(opened =~= none.push(event));
    lemma_start_after(begun, opened, StartEventView::WorkerSpawned(Err(message)));
    lemma_start_after(begun, failed, StartEventView::Moved(recorded));
    lemma_start_after(begun, moved, StartEventView::Released(Ok(())));
}

/// An operation that was there before is answered as it is, and nothing is started.
pub proof fn earlier_operation_is_answered(operation: OperationView)
    ensures
        start_begun(operation, false) == StartStepView::Done(Ok(operation)),
{
}

/// Whether a conclusion is recorded of a stored operation: it has ended in the state, with the
/// outcome, and with what was observed; what it was asked for stays; and it holds no session.
pub open spec fn recorded_end(
    tables: TablesView,
    id: OperationId,
    step: WorkerStepView,
    state: OperationState,
    outcome: TerminalOutcomeView,
) -> bool {
    let conclusion = match step {
        WorkerStepView::Conclude { conclusion } => Some(conclusion),
        WorkerStepView::ConcludeUnlaunched { conclusion } => Some(conclusion),
        WorkerStepView::ConcludeCancelled { conclusion } => Some(conclusion),
        _ => None,
    };
    conclusion is Some && (conclusion_recorded(tables, id, conclusion->Some_0) matches Ok((
        moved,
        changes,
    )) && ({
        let before = tables.operations[id].operation;
        let after = tables.after_all(changes);
        &&& after.operations.contains_key(id)
        &&& after.operations[id].operation == moved
        &&& moved.state == state
        &&& moved.terminal_outcome == Some(outcome)
        &&& moved.operation_id == before.operation_id
        &&& moved.request_id == before.request_id
        &&& moved.project_id == before.project_id
        &&& moved.intent == before.intent
        &&& moved.session_id == before.session_id
        &&& forall|session: SessionId| #[trigger]
            after.claims.contains_key(session) ==> after.claims[session].operation_id != id
        &&& forall|session: SessionId| #[trigger]
            tables.claims.contains_key(session) && tables.claims[session].operation_id != id
                ==> after.claims.contains_key(session)
    }))
}

/// What a terminal transition leaves in the tables.
proof fn lemma_moved(
    tables: TablesView,
    id: OperationId,
    next: OperationState,
    outcome: TerminalOutcomeView,
    session: Option<SessionId>,
    model: Option<Seq<char>>,
    version: Option<Seq<char>>,
)
    requires
        tables.consistent(),
        tables.operations.contains_key(id),
        next.is_terminal(),
        transitioned(tables, id, next, Some(outcome), session, model, version) is Ok,
    ensures
        ({
            let (moved, changes) = transitioned(
                tables,
                id,
                next,
                Some(outcome),
                session,
                model,
                version,
            )->Ok_0;
            let after = tables.after_all(changes);
            &&& after.operations.contains_key(id)
            &&& after.operations[id].operation == moved
            &&& forall|held: SessionId| #[trigger]
                after.claims.contains_key(held) ==> after.claims[held].operation_id != id
            &&& forall|held: SessionId| #[trigger]
                tables.claims.contains_key(held) && tables.claims[held].operation_id != id
                    ==> after.claims.contains_key(held)
        }),
{
    let (moved, changes) = transitioned(
        tables,
        id,
        next,
        Some(outcome),
        session,
        model,
        version,
    )->Ok_0;
    let update = ChangeView::UpdateOperation(moved);
    let release = ChangeView::ReleaseSession { operation_id: moved.operation_id };
    lemma_after_two(tables, update, release);
    assert(changes =~= seq![update, release]);
}

/// A running operation whose target succeeded is recorded as succeeded with exactly its result, and
/// with the session, the model and the version that its target observed.
pub proof fn successful_review_is_recorded(
    tables: TablesView,
    id: OperationId,
    success: TargetSuccessView,
)
    requires
        tables.consistent(),
        tables.operations.contains_key(id),
        tables.operations[id].operation.state is Running,
    ensures
        ({
            let operation = tables.operations[id].operation;
            let step = worker_moved(
                WorkerStepView::RunTarget { operation },
                WorkerEventView::Ran(TargetOutcomeView::Success(success)),
            );
            &&& recorded_end(
                tables,
                id,
                step,
                OperationState::Succeeded,
                TerminalOutcomeView::Succeeded(success.result),
            )
            &&& step matches WorkerStepView::Conclude { conclusion } && (conclusion_recorded(
                tables,
                id,
                conclusion,
            ) matches Ok((moved, _)) && moved.observed_session_id == Some(
                SessionId(success.observed_session_id.0),
            ) && moved.observed_model == Some(success.observed_model) && (
            success.observed_version is Some ==> moved.observed_claude_version
                == success.observed_version))
        }),
{
    let operation = tables.operations[id].operation;
    let step = worker_moved(
        WorkerStepView::RunTarget { operation },
        WorkerEventView::Ran(TargetOutcomeView::Success(success)),
    );
    let conclusion = step->Conclude_conclusion;
    lemma_moved(
        tables,
        id,
        conclusion.next,
        conclusion.outcome,
        conclusion.session,
        conclusion.model,
        conclusion.version,
    );
}

/// Every other end of a target is recorded of its unfinished operation as what it was: a failure as
/// failed, a cancellation as cancelled, an unknown end as indeterminate, each with exactly the
/// message that was told.
pub proof fn other_ends_are_recorded(
    tables: TablesView,
    id: OperationId,
    message: Seq<char>,
)
    requires
        tables.consistent(),
        tables.operations.contains_key(id),
        tables.operations[id].operation.state is Accepted
            || tables.operations[id].operation.state is Running,
    ensures
        ({
            let operation = tables.operations[id].operation;
            let run = WorkerStepView::RunTarget { operation };
            &&& recorded_end(
                tables,
                id,
                worker_moved(run, WorkerEventView::Ran(TargetOutcomeView::Failed(message))),
                OperationState::Failed,
                TerminalOutcomeView::Failed(message),
            )
            &&& recorded_end(
                tables,
                id,
                worker_moved(run, WorkerEventView::Ran(TargetOutcomeView::Cancelled(message))),
                OperationState::Cancelled,
                TerminalOutcomeView::Cancelled(message),
            )
            &&& recorded_end(
                tables,
                id,
                worker_moved(
                    run,
                    WorkerEventView::Ran(TargetOutcomeView::CancelledBeforeLaunch(message)),
                ),
                OperationState::Cancelled,
                TerminalOutcomeView::Cancelled(message),
            )
            &&& recorded_end(
                tables,
                id,
                worker_moved(run, WorkerEventView::Ran(TargetOutcomeView::Indeterminate(message))),
                OperationState::Indeterminate,
                TerminalOutcomeView::Indeterminate(message),
            )
            &&& recorded_end(
                tables,
                id,
                worker_begun(true),
                OperationState::Cancelled,
                TerminalOutcomeView::Cancelled(
                    "operation cancellation was observed before target launch"@,
                ),
            )
        }),
{
    let early = "operation cancellation was observed before target launch"@;
    lemma_moved(
        tables,
        id,
        OperationState::Failed,
        TerminalOutcomeView::Failed(message),
        None,
        None,
        None,
    );
    lemma_moved(
        tables,
        id,
        OperationState::Cancelled,
        TerminalOutcomeView::Cancelled(message),
        None,
        None,
        None,
    );
    lemma_moved(
        tables,
        id,
        OperationState::Indeterminate,
        TerminalOutcomeView::Indeterminate(message),
        None,
        None,
        None,
    );
    lemma_moved(
        tables,
        id,
        OperationState::Cancelled,
        TerminalOutcomeView::Cancelled(early),
        None,
        None,
        None,
    );
}

/// An accepted operation can be marked running, and nothing else changes of it; it keeps its
/// session.
pub proof fn accepted_operation_runs(tables: TablesView, id: OperationId)
    requires
        tables.consistent(),
        tables.operations.contains_key(id),
        tables.operations[id].operation.state is Accepted,
    ensures
        transitioned(tables, id, OperationState::Running, None, None, None, None) matches Ok((
            moved,
            changes,
        )) && moved == (OperationView {
            state: OperationState::Running,
            terminal_outcome: None,
            ..tables.operations[id].operation
        }) && tables.after_all(changes).operations[id].operation == moved && tables.after_all(
            changes,
        ).claims == tables.claims,
{
    let (moved, changes) = transitioned(
        tables,
        id,
        OperationState::Running,
        None,
        None,
        None,
        None,
    )->Ok_0;
    lemma_after_one(tables, ChangeView::UpdateOperation(moved));
    assert(changes =~= seq![ChangeView::UpdateOperation(moved)]);
}

/// An operation succeeds only once it runs, and a finished one takes no further transition.
pub proof fn transition_out_of_order_is_refused(
    tables: TablesView,
    id: OperationId,
    next: OperationState,
    outcome: Option<TerminalOutcomeView>,
    session: Option<SessionId>,
    model: Option<Seq<char>>,
    version: Option<Seq<char>>,
)
    requires
        tables.operations.contains_key(id),
        ({
            let state = tables.operations[id].operation.state;
            (state is Accepted && next is Succeeded) || (!(state is Accepted) && !(
            state is Running)) || next is Accepted || (state is Running && next is Running)
        }),
    ensures
        transitioned(tables, id, next, outcome, session, model, version) == Err::<
            (OperationView, Seq<ChangeView>),
            _,
        >(OperatorErrorView::Conflict("operation transition is not permitted"@)),
{
}

/// A finished operation is answered to its cancellation as it is; an unfinished one is stopped
/// through its conversation where it carries one, and signalled where it does not.
pub proof fn cancellation_reaches_the_writer(tables: TablesView, id: OperationId)
    ensures
        !tables.operations.contains_key(id) ==> cancellation(tables, id) == Err::<
            CancelPlanView,
            _,
        >(OperatorErrorView::UnknownOperation(uuid_text(id.0))),
        tables.operations.contains_key(id) ==> (cancellation(tables, id) matches Ok(plan) && ({
            let operation = tables.operations[id].operation;
            if !(operation.state is Accepted) && !(operation.state is Running) {
                plan == CancelPlanView::Ended(operation)
            } else if tables.conversations.contains_key(ConversationId(id)) {
                plan == CancelPlanView::StopConversation(ConversationId(id))
            } else {
                plan is Signal
            }
        })),
{
}

/// A cancellation that was signalled has to be awaited; without a gate a finished operation is
/// answered as it is, and an unfinished one is a failure of state.
pub proof fn signal_is_awaited(tables: TablesView, id: OperationId)
    requires
        tables.operations.contains_key(id),
    ensures
        signal_outcome(tables, id, CancellationOutcome::Signalled) == Ok::<_, OperatorErrorView>(
            None::<OperationView>,
        ),
        ({
            let operation = tables.operations[id].operation;
            let absent = signal_outcome(tables, id, CancellationOutcome::GateAbsent);
            if operation.state is Accepted || operation.state is Running {
                absent == Err::<Option<OperationView>, _>(
                    OperatorErrorView::State(
                        "nonterminal operation has no runtime cancellation gate"@,
                    ),
                )
            } else {
                absent == Ok::<_, OperatorErrorView>(Some(operation))
            }
        }),
{
}

/// A difficulty is recorded as the difficulty it is, with the same numbers.
pub proof fn difficulty_is_recorded_unchanged(attempt: u64, max_retries: u64, retry_delay_ms: u64)
    ensures
        recorded_as(
            TargetDiagnostic::ProviderRetrying { attempt, max_retries, retry_delay_ms },
        ) == (OperationDiagnosticPayload::ProviderRetrying {
            attempt,
            max_retries,
            retry_delay_ms,
        }),
        recorded_as(TargetDiagnostic::AuthenticationFailed)
            == OperationDiagnosticPayload::AuthenticationFailed,
        recorded_as(TargetDiagnostic::DiagnosticUnclassified)
            == OperationDiagnosticPayload::DiagnosticUnclassified,
{
}

/// Every valid difficulty of a running operation whose diagnostics are covered is recorded under
/// the next number, and read back by every cursor before it.
pub proof fn valid_difficulty_is_recorded(
    tables: TablesView,
    id: OperationId,
    payload: OperationDiagnosticPayload,
    cursor: u64,
)
    requires
        tables.operations.contains_key(id),
        tables.operations[id].operation.state is Running,
        !tables.conversations.contains_key(ConversationId(id)),
        tables.diagnostics.contains_key(id),
        diagnostics_numbered(tables.diagnostics[id].diagnostics),
        tables.diagnostics[id].diagnostics.len() < i64::MAX,
        payload matches OperationDiagnosticPayload::ProviderRetrying { attempt, max_retries, .. }
            ==> 1 <= attempt <= max_retries,
        cursor <= tables.diagnostics[id].diagnostics.len(),
    ensures
        diagnostic_recorded(tables, id, payload) matches Ok((recorded, changes))
            && recorded.operation_id == id && recorded.payload == payload
            && recorded.diagnostic_sequence == tables.diagnostics[id].diagnostics.len() + 1
            && (diagnostics_read(tables.after_all(changes), id, cursor) matches Ok(read)
            && read.operation == tables.operations[id].operation && read.diagnostics
            == tables.diagnostics[id].diagnostics.skip(cursor as int).push(recorded)),
{
    let before = tables.diagnostics[id].diagnostics;
    lemma_highest_diagnostic(before);
    let (recorded, changes) = diagnostic_recorded(tables, id, payload)->Ok_0;
    lemma_after_one(tables, ChangeView::AppendDiagnostic(recorded));
    assert(changes =~= seq![ChangeView::AppendDiagnostic(recorded)]);
    let after = before.push(recorded);
    assert(diagnostics_numbered(after)) by {
        assert forall|i: int| 0 <= i < after.len() implies (
        #[trigger] after[i]).diagnostic_sequence == i + 1 by {
            if i < before.len() {
                assert(after[i] == before[i]);
            }
        }
    }
    diagnostic_cursor_reads_the_rest(after, cursor);
    assert(after.skip(cursor as int) =~= before.skip(cursor as int).push(recorded));
}

/// A difficulty that is not valid, of an operation that does not run, or whose diagnostics are not
/// covered, is refused, and says why.
pub proof fn other_difficulty_is_refused(
    tables: TablesView,
    id: OperationId,
    payload: OperationDiagnosticPayload,
)
    ensures
        ({
            let result = diagnostic_recorded(tables, id, payload);
            let invalid = payload matches OperationDiagnosticPayload::ProviderRetrying {
                attempt,
                max_retries,
                ..
            } && !(1 <= attempt <= max_retries);
            if invalid {
                result == Err::<(OperationDiagnostic, Seq<ChangeView>), _>(
                    OperatorErrorView::InvalidRequest(
                        "provider retry attempt must be within its positive maximum"@,
                    ),
                )
            } else if !tables.operations.contains_key(id) {
                result == Err::<(OperationDiagnostic, Seq<ChangeView>), _>(
                    OperatorErrorView::UnknownOperation(uuid_text(id.0)),
                )
            } else if !(tables.operations[id].operation.state is Running) {
                result == Err::<(OperationDiagnostic, Seq<ChangeView>), _>(
                    OperatorErrorView::Conflict(
                        "operation diagnostics can be appended only while the operation is running"@,
                    ),
                )
            } else {
                !tables.diagnostics.contains_key(id) ==> result == Err::<
                    (OperationDiagnostic, Seq<ChangeView>),
                    _,
                >(OperatorErrorView::DiagnosticsUnavailable(uuid_text(id.0)))
            }
        }),
{
}

/// After a restart every operation that was unfinished is indeterminate and says why, every other
/// operation is as it was, and no claim, project, binding or diagnostic was touched.
pub proof fn restart_classifies_what_was_unfinished(tables: TablesView, id: OperationId)
    requires
        tables.consistent(),
        tables.operations.contains_key(id),
        tables.conversations.contains_key(ConversationId(id)) ==> (tables.conversations[
            ConversationId(id)
        ].conversation.state is Open || tables.conversations[
            ConversationId(id)
        ].conversation.state is Closing <==> tables.operations[id].operation.state is Accepted
            || tables.operations[id].operation.state is Running),
    ensures
        ({
            let before = tables.operations[id].operation;
            let after = recovered(tables).operations[id].operation;
            let carries = tables.conversations.contains_key(ConversationId(id));
            if before.state is Accepted || before.state is Running {
                after == (OperationView {
                    state: OperationState::Indeterminate,
                    terminal_outcome: Some(
                        TerminalOutcomeView::Indeterminate(
                            if carries {
                                "daemon restarted before persistent conversation was classified"@
                            } else {
                                "daemon restarted before direct child was classified"@
                            },
                        ),
                    ),
                    ..before
                })
            } else {
                after == before
            }
        }),
        recovered(tables).operations.contains_key(id),
        recovered(tables).claims == tables.claims,
        recovered(tables).projects == tables.projects,
        recovered(tables).bindings == tables.bindings,
        recovered(tables).diagnostics == tables.diagnostics,
{
}

/// A worker whose end was recorded releases its operation and is done; one that could not record or
/// read something hands the failure to the starter first, and refuses later requests where the
/// release fails.
pub proof fn worker_hands_its_failure_over(
    step: WorkerStepView,
    moved: OperationView,
    failure: OperatorErrorView,
)
    ensures
        ({
            let sent = worker_moved(WorkerStepView::SendFailure { failure }, WorkerEventView::Sent);
            &&& step is Conclude ==> worker_moved(step, WorkerEventView::Moved(Ok(moved)))
                is Release
            &&& step is Conclude || step is ConcludeCancelled || step is ConcludeUnlaunched
                ==> worker_moved(step, WorkerEventView::Moved(Err(failure)))
                == (WorkerStepView::SendFailure { failure })
            &&& step is ReadOperation || step is ReadCancelled || step is ReadUnlaunched
                ==> worker_moved(step, WorkerEventView::Read(Err(failure)))
                == (WorkerStepView::SendFailure { failure })
            &&& sent is Release
            &&& worker_moved(sent, WorkerEventView::Released(Ok(()))) is Done
            &&& worker_moved(sent, WorkerEventView::Released(Err(failure)))
                == (WorkerStepView::Refuse { failure })
            &&& worker_moved(WorkerStepView::Refuse { failure }, WorkerEventView::Refused) is Done
        }),
{
}

/// A worker runs the operation that it read, unless it was cancelled before: a cancelled operation
/// is recorded, read, reported and handed to the starter, and released at last.
pub proof fn worker_runs_or_reports(
    operation: OperationView,
    recorded: OperationView,
    message: Seq<char>,
)
    ensures
        worker_moved(worker_begun(false), WorkerEventView::Read(Ok(operation)))
            == (WorkerStepView::RunTarget { operation }),
        ({
            let read = worker_moved(worker_begun(true), WorkerEventView::Moved(Ok(recorded)));
            let report = worker_moved(read, WorkerEventView::Read(Ok(operation)));
            let send = worker_moved(report, WorkerEventView::Reported { received: true });
            let lost = worker_moved(report, WorkerEventView::Reported { received: false });
            &&& report == (WorkerStepView::ReportCancelled { cancelled: operation })
            &&& send == (WorkerStepView::SendCancelled { cancelled: operation })
            &&& worker_moved(send, WorkerEventView::Sent) is Release
            &&& lost == (WorkerStepView::SendFailure {
                failure: OperatorErrorView::State(
                    "operation starter stopped before durable cancellation acknowledgement"@,
                ),
            })
        }),
        ({
            let cancelled = WorkerEventView::Ran(
                TargetOutcomeView::CancelledBeforeLaunch(message),
            );
            let ended = worker_moved(WorkerStepView::RunTarget { operation }, cancelled);
            let read = worker_moved(ended, WorkerEventView::Moved(Ok(recorded)));
            worker_moved(read, WorkerEventView::Read(Ok(operation)))
                == (WorkerStepView::SendCancelled { cancelled: operation })
        }),
        worker_moved(
            WorkerStepView::RunTarget { operation },
            WorkerEventView::Ran(TargetOutcomeView::SpawnFailed(message)),
        ) is Release,
{
}

/// A review that resumes a session gets exactly that session; a new one gets a random one.
pub proof fn intent_fixes_its_session(wanted: SessionId, session: SessionId)
    ensures
        session_of_intent(OperationIntent::ResumeExact { session_id: wanted }, session)
            <==> session == wanted,
        session_of_intent(OperationIntent::New, session) <==> random_uuid_layout(session.0),
{
}

/// A random identity reads as one: its version digit is four, and its variant digit is one of
/// eight, nine, a and b.
pub proof fn random_identity_reads_as_one(value: u128)
    requires
        random_uuid_layout(value),
    ensures
        uuid_text(value).len() == 36,
        uuid_text(value)[14] == '4',
        uuid_text(value)[19] == '8' || uuid_text(value)[19] == '9' || uuid_text(value)[19] == 'a'
            || uuid_text(value)[19] == 'b',
{
}

} // verus!
