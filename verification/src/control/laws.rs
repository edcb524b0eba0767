//! What holds of every request, of every launch, and of every observation of a live target.

use vstd::prelude::*;

use crate::contract::control::{
    ConversationEventPayloadView, ConversationState, DaemonRequestView, OperationIntent,
    OperationStartView, OperationView, OperatorErrorView, ProjectRegistrationView,
    SessionClaimDisposition, SessionDecisionEvidenceView, SessionDecisionRequestView,
    SessionDecisionView, TerminalOutcomeView, TurnState,
};
use crate::contract::identity::{ConversationId, OperationId, SessionId, TurnId};
use crate::contract::target::TargetLiveObservationView;
use crate::control::conversation::{carrying_state, ended, last_result, observation_applied};
use crate::control::dispatch::{handled, HandlingView};
use crate::control::operation::launch_facts;
use crate::control::session_decision::decided;
use crate::control::session_writer::writer_admission;
use crate::identifier::uuid_text;
use crate::state::conversation::{
    bare_turns, initialization_recorded, observation, termination,
};
use crate::state::conversation_laws::{
    initialization_keeps_numbering, numbered, observation_keeps_numbering,
    recovery_holds_interrupted_sessions, termination_keeps_writers,
};
use crate::state::laws::writers_claimed;
use crate::state::project::registered;
use crate::state::recovery::{live, recovered};
use crate::state::tables::{ChangeView, TablesView};
use crate::target::command::{arguments, InvocationMode};

verus! {

/// Whether an observation ends the conversation.
pub open spec fn is_end(observed: TargetLiveObservationView) -> bool {
    observed is Failed || observed is Indeterminate || observed is UnclassifiedWriter || observed
        is Cancelled || observed is Exited
}

/// A conversation that has ended takes no observation: whatever its target tells is refused or
/// writes nothing.
pub proof fn ended_conversation_takes_no_observation(
    tables: TablesView,
    id: ConversationId,
    observed: TargetLiveObservationView,
)
    requires
        tables.conversations.contains_key(id),
        tables.conversations[id].conversation.state.is_terminal(),
    ensures
        observation_applied(tables, id, observed) matches Ok(changes) ==> changes.len() == 0,
{
}

/// What the end of a live conversation leaves of its claim.
proof fn lemma_ended(
    tables: TablesView,
    id: ConversationId,
    state: ConversationState,
    outcome: TerminalOutcomeView,
    disposition: SessionClaimDisposition,
    changes: Seq<ChangeView>,
)
    requires
        tables.consistent(),
        writers_claimed(tables),
        live(tables, id),
        ended(tables, id, state, outcome, disposition) == Ok::<_, OperatorErrorView>(changes),
    ensures
        writers_claimed(tables.after_all(changes)),
        tables.after_all(changes).has_claim(id.0) <==> disposition is RetainUnclassifiedWriter,
        tables.after_all(changes).operation(id.0)->Some_0.terminal_outcome == Some(outcome),
        tables.after_all(changes).conversations[id].conversation.terminal_outcome == Some(outcome),
{
    let operation_state = carrying_state(state)->Some_0;
    let (conversation, _) = termination(
        tables,
        id,
        state,
        operation_state,
        outcome,
        disposition,
    )->Ok_0;
    termination_keeps_writers(
        tables,
        id,
        state,
        operation_state,
        outcome,
        disposition,
        conversation,
        changes,
    );
}

/// What a turn event leaves of the claims.
proof fn lemma_turn_event(
    tables: TablesView,
    id: ConversationId,
    observed: TargetLiveObservationView,
    changes: Seq<ChangeView>,
)
    requires
        tables.consistent(),
        live(tables, id),
        numbered(tables.conversations[id]),
        !is_end(observed),
        !(observed is Initialized),
        observation_applied(tables, id, observed) == Ok::<_, OperatorErrorView>(changes),
    ensures
        tables.after_all(changes).operations == tables.operations,
        tables.after_all(changes).claims == tables.claims,
{
    let none: Option<Seq<char>> = None;
    match observed {
        TargetLiveObservationView::TurnStarted { turn_id } => {
            let payload = ConversationEventPayloadView::TurnStarted {
                turn_id: TurnId(turn_id.0),
            };
            let state = Some(TurnState::Started);
            let told = observation(tables, id, TurnId(turn_id.0), state, none, payload)->Ok_0.0;
            observation_keeps_numbering(
                tables,
                id,
                TurnId(turn_id.0),
                state,
                none,
                payload,
                told,
                changes,
            );
        },
        TargetLiveObservationView::TurnAcknowledged { turn_id } => {
            let payload = ConversationEventPayloadView::TurnAcknowledged {
                turn_id: TurnId(turn_id.0),
            };
            let told = observation(tables, id, TurnId(turn_id.0), None, none, payload)->Ok_0.0;
            observation_keeps_numbering(
                tables,
                id,
                TurnId(turn_id.0),
                None,
                none,
                payload,
                told,
                changes,
            );
        },
        TargetLiveObservationView::AssistantTextDelta { turn_id, text } => {
            let payload = ConversationEventPayloadView::AssistantTextDelta {
                turn_id: TurnId(turn_id.0),
                text,
            };
            let told = observation(tables, id, TurnId(turn_id.0), None, none, payload)->Ok_0.0;
            observation_keeps_numbering(
                tables,
                id,
                TurnId(turn_id.0),
                None,
                none,
                payload,
                told,
                changes,
            );
        },
        TargetLiveObservationView::TurnCompleted { turn_id, result } => {
            let payload = ConversationEventPayloadView::TurnCompleted {
                turn_id: TurnId(turn_id.0),
                result,
            };
            let state = Some(TurnState::Completed);
            let told = observation(
                tables,
                id,
                TurnId(turn_id.0),
                state,
                Some(result),
                payload,
            )->Ok_0.0;
            observation_keeps_numbering(
                tables,
                id,
                TurnId(turn_id.0),
                state,
                Some(result),
                payload,
                told,
                changes,
            );
        },
        TargetLiveObservationView::TurnFailed { turn_id, message } => {
            let payload = ConversationEventPayloadView::TurnFailed {
                turn_id: TurnId(turn_id.0),
                message,
            };
            let state = Some(TurnState::Failed);
            let told = observation(tables, id, TurnId(turn_id.0), state, none, payload)->Ok_0.0;
            observation_keeps_numbering(
                tables,
                id,
                TurnId(turn_id.0),
                state,
                none,
                payload,
                told,
                changes,
            );
        },
        _ => {
            assert(changes =~= Seq::empty());
        },
    }
}

/// Every observation keeps each unfinished operation the one writer of its session, and a live
/// conversation keeps its claim until an observation ends it with its writer proven to have exited.
pub proof fn observations_keep_writers(
    tables: TablesView,
    id: ConversationId,
    observed: TargetLiveObservationView,
    changes: Seq<ChangeView>,
)
    requires
        tables.consistent(),
        writers_claimed(tables),
        live(tables, id),
        numbered(tables.conversations[id]),
        observation_applied(tables, id, observed) == Ok::<_, OperatorErrorView>(changes),
    ensures
        writers_claimed(tables.after_all(changes)),
        is_end(observed) ==> (tables.after_all(changes).has_claim(id.0) <==> observed
            is UnclassifiedWriter),
{
    match observed {
        TargetLiveObservationView::Initialized { session_id, model, version } => {
            let event = initialization_recorded(
                tables,
                id,
                SessionId(session_id.0),
                model,
                version,
            )->Ok_0.0;
            initialization_keeps_numbering(
                tables,
                id,
                SessionId(session_id.0),
                model,
                version,
                event,
                changes,
            );
        },
        TargetLiveObservationView::Failed(message) => lemma_ended(
            tables,
            id,
            ConversationState::Failed,
            TerminalOutcomeView::Failed(message),
            SessionClaimDisposition::ReleaseProvenWriter,
            changes,
        ),
        TargetLiveObservationView::Indeterminate(message) => lemma_ended(
            tables,
            id,
            ConversationState::Indeterminate,
            TerminalOutcomeView::Indeterminate(message),
            SessionClaimDisposition::ReleaseProvenWriter,
            changes,
        ),
        TargetLiveObservationView::UnclassifiedWriter(message) => lemma_ended(
            tables,
            id,
            ConversationState::Indeterminate,
            TerminalOutcomeView::Indeterminate(message),
            SessionClaimDisposition::RetainUnclassifiedWriter,
            changes,
        ),
        TargetLiveObservationView::Cancelled => lemma_ended(
            tables,
            id,
            ConversationState::Cancelled,
            TerminalOutcomeView::Cancelled("direct live child termination was observed"@),
            SessionClaimDisposition::ReleaseProvenWriter,
            changes,
        ),
        TargetLiveObservationView::Exited => {
            let result = last_result(bare_turns(tables.conversations[id].turns))->Some_0;
            lemma_ended(
                tables,
                id,
                ConversationState::Succeeded,
                TerminalOutcomeView::Succeeded(result),
                SessionClaimDisposition::ReleaseProvenWriter,
                changes,
            );
        },
        _ => {
            lemma_turn_event(tables, id, observed, changes);
        },
    }
}

/// A live conversation whose target exited succeeds with the result of its last turn that has one,
/// and so does its operation.
pub proof fn exit_succeeds_with_last_result(
    tables: TablesView,
    id: ConversationId,
    changes: Seq<ChangeView>,
)
    requires
        tables.consistent(),
        writers_claimed(tables),
        live(tables, id),
        observation_applied(tables, id, TargetLiveObservationView::Exited) == Ok::<
            _,
            OperatorErrorView,
        >(changes),
    ensures
        last_result(bare_turns(tables.conversations[id].turns)) matches Some(result)
            && tables.after_all(changes).operation(id.0)->Some_0.terminal_outcome == Some(
            TerminalOutcomeView::Succeeded(result),
        ) && tables.after_all(changes).conversations[id].conversation.terminal_outcome == Some(
            TerminalOutcomeView::Succeeded(result),
        ),
{
    let result = last_result(bare_turns(tables.conversations[id].turns))->Some_0;
    lemma_ended(
        tables,
        id,
        ConversationState::Succeeded,
        TerminalOutcomeView::Succeeded(result),
        SessionClaimDisposition::ReleaseProvenWriter,
        changes,
    );
}

/// Whether a request only asks for what is there.
pub open spec fn only_reads(request: DaemonRequestView) -> bool {
    request is ProjectGet || request is ProjectList || request is OperationGet || request
        is SessionInventory || request is SessionInspect || request is SessionDecide
}

/// A request that only asks for what is there is answered at once and writes nothing: a decision
/// creates no operation, launches nothing, and changes no binding.
pub proof fn reading_writes_nothing(
    refusal: Option<OperatorErrorView>,
    tables: TablesView,
    request: DaemonRequestView,
    handling: HandlingView,
    changes: Seq<ChangeView>,
)
    requires
        only_reads(request),
        handled(refusal, tables, request, Ok((handling, changes))),
    ensures
        handling is Answer,
        changes.len() == 0,
{
}

/// An independent review of a registered project always gets a new session.
pub proof fn independent_review_is_new(
    tables: TablesView,
    request: SessionDecisionRequestView,
    decision: Result<SessionDecisionView, OperatorErrorView>,
)
    requires
        request.continuity is Independent,
        registered(tables, request.project_id) is Ok,
        decided(tables, request, decision),
    ensures
        decision == Ok::<_, OperatorErrorView>(
            SessionDecisionView::New { evidence: SessionDecisionEvidenceView::Independent },
        ),
{
}

/// An exact resume reaches the command line with exactly the session that was asked for.
pub proof fn exact_resume_reaches_the_target(
    operation: OperationView,
    project: ProjectRegistrationView,
    start: OperationStartView,
    session_id: SessionId,
)
    requires
        start.intent == (OperationIntent::ResumeExact { session_id }),
    ensures
        ({
            let command = launch_facts(operation, project, start);
            let line = arguments(InvocationMode::OneShot, command.intent, command.session_id);
            &&& line[line.len() - 2] == "--resume"@
            &&& line[line.len() - 1] == uuid_text(session_id.0)
        }),
{
}

/// After a restart a session that an interrupted operation held is refused to every new request.
pub proof fn interrupted_session_is_refused(
    tables: TablesView,
    holder: OperationId,
    request: OperationStartView,
    fingerprint: Seq<char>,
    fresh: OperationId,
)
    requires
        tables.consistent(),
        writers_claimed(tables),
        tables.operations.contains_key(holder),
        !tables.operations[holder].operation.state.is_terminal(),
        !recovered(tables).has_request(request.request_id),
        tables.projects.contains_key(request.project_id),
    ensures
        writer_admission(
            recovered(tables),
            request,
            fingerprint,
            tables.operations[holder].operation.session_id,
            fresh,
        ) == Err::<((OperationView, bool), Seq<ChangeView>), _>(
            OperatorErrorView::UnclassifiedSession(
                "session was held by an operation interrupted by daemon restart"@,
            ),
        ),
{
    recovery_holds_interrupted_sessions(tables, holder, request, fingerprint, fresh);
}

} // verus!
