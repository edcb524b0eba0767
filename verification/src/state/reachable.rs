//! What every state that decisions can lead to keeps, and what reading such a state gives.

use vstd::prelude::*;

use crate::contract::control::{
    conflict, durable_range, invalid_request, ConversationEventPayloadView, ConversationEventView,
    ConversationSendView, ConversationStartAdmissionView,
    ConversationStartView, ConversationState, ConversationStopMode, ConversationTurnAdmissionView,
    InitiatorBindingView, OperationAdmissionView, OperationDiagnostic, OperationDiagnosticPayload,
    OperationDiagnosticsView, OperationStartView, OperationState, OperatorErrorView,
    ProjectRegistrationView, SessionClaimDisposition, TerminalOutcomeView, TurnState,
};
use crate::contract::identity::{ConversationId, OperationId, SessionId, TurnId};
use crate::state::conversation::{
    bare_turns, closing, conversation_read, ending, initialization_recorded, observation,
    start_admission, termination, turn_admission,
};
use crate::state::conversation_laws::{
    closing_keeps_the_rest, ended_record_is_complete, event_cursor_reads_the_rest,
    initialization_keeps_numbering, lemma_highest, lemma_initialized, lemma_observed,
    lemma_resolution_numbered, lemma_started, lemma_terminated, lemma_top, lemma_turn_inserted,
    numbered, observation_keeps_numbering,
    recovery_leaves_nothing_unfinished, start_keeps_writers, termination_keeps_writers,
    turn_admission_keeps_numbering,
};
use crate::state::conversation_timeline::{events_after, highest_sequence};
use crate::state::conversation_turn::last_position;
use crate::state::diagnostic::{diagnostic_recorded, diagnostics_after, diagnostics_read};
use crate::state::ending::{ended_record, lemma_ending, resolution_events};
use crate::state::initiator_binding::binding_persistence;
use crate::state::laws::{
    admission_keeps_writers, diagnostic_cursor_reads_the_rest, diagnostics_numbered,
    diagnostics_stay_numbered, empty_tables_claimed, lemma_admitted, transition_keeps_writers,
    writers_claimed, writes_keep_consistency,
};
use crate::state::operation::{admission, identity_free, transitioned};
use crate::state::project::registration;
use crate::state::recovery::{interrupted_conversation, interruption, live, recovered};
use crate::state::tables::{
    lemma_after_one, lemma_after_two, turns_belong, turns_distinct, ChangeView,
    ConversationRecordView, TablesView,
};

verus! {

/// Whether a timeline tells the end of its conversation exactly where it has ended: a conversation
/// that has not ended holds no terminal event, and one that has holds exactly one, its last, with
/// the outcome of the conversation.
pub open spec fn ends_once(record: ConversationRecordView) -> bool {
    let ended = record.conversation.state.is_terminal();
    &&& ended <==> record.conversation.terminal_outcome is Some
    &&& ended ==> record.events.len() > 0 && record.events.last().payload
        == (ConversationEventPayloadView::ConversationTerminal {
        outcome: record.conversation.terminal_outcome->Some_0,
    })
    &&& forall|i: int|
        0 <= i < record.events.len() ==> ((
        #[trigger] record.events[i]).payload is ConversationTerminal <==> ended && i
            == record.events.len() - 1)
}

/// Whether the record of a conversation is whole: it is numbered, has a first turn, tells its end
/// exactly once, and a closing one knows how it is closed.
pub open spec fn whole(record: ConversationRecordView) -> bool {
    &&& numbered(record)
    &&& record.turns.len() > 0
    &&& ends_once(record)
    &&& record.conversation.state is Closing ==> record.conversation.close_mode is Some
}

/// Whether durable state is in order: its rows stand under their keys, every unfinished operation
/// holds the claim to its session, every claim and every conversation has its operation, every
/// conversation is whole, and every sequence of diagnostics is numbered from one without a gap.
pub open spec fn in_order(tables: TablesView) -> bool {
    &&& tables.consistent()
    &&& writers_claimed(tables)
    &&& forall|id: ConversationId| #[trigger]
        tables.conversations.contains_key(id) ==> whole(tables.conversations[id])
            && tables.operations.contains_key(id.0)
    &&& forall|session: SessionId| #[trigger]
        tables.claims.contains_key(session) ==> tables.operations.contains_key(
            tables.claims[session].operation_id,
        )
    &&& forall|id: OperationId| #[trigger]
        tables.diagnostics.contains_key(id) ==> diagnostics_numbered(
            tables.diagnostics[id].diagnostics,
        )
}

/// Everything that durable state decides, with what it decides on.
pub enum DecisionView {
    RegisterProject(ProjectRegistrationView),
    BindInitiator(InitiatorBindingView),
    AdmitOperation {
        request: OperationStartView,
        session_id: SessionId,
        fingerprint: Seq<char>,
        fresh: OperationId,
    },
    Transition {
        operation_id: OperationId,
        next: OperationState,
        outcome: Option<TerminalOutcomeView>,
        observed_session: Option<SessionId>,
        observed_model: Option<Seq<char>>,
        observed_version: Option<Seq<char>>,
    },
    RecordDiagnostic { operation_id: OperationId, diagnostic: OperationDiagnosticPayload },
    AdmitConversation {
        start: ConversationStartView,
        session_id: SessionId,
        fingerprint: Seq<char>,
        fresh: OperationId,
    },
    AdmitTurn { send: ConversationSendView, fingerprint: Seq<char> },
    ObserveTurn {
        id: ConversationId,
        turn_id: TurnId,
        state: Option<TurnState>,
        result: Option<Seq<char>>,
        payload: ConversationEventPayloadView,
    },
    RecordInitialization {
        id: ConversationId,
        session_id: SessionId,
        model: Seq<char>,
        claude_version: Option<Seq<char>>,
    },
    Close { id: ConversationId, requested: ConversationStopMode },
    Terminate {
        id: ConversationId,
        conversation_state: ConversationState,
        operation_state: OperationState,
        terminal: TerminalOutcomeView,
        disposition: SessionClaimDisposition,
    },
    Recover,
}

/// The tables after a decision that yields an answer with writes, or is refused and writes nothing.
pub open spec fn written<T>(
    tables: TablesView,
    decided: Result<(T, Seq<ChangeView>), OperatorErrorView>,
) -> TablesView {
    match decided {
        Ok((_, changes)) => tables.after_all(changes),
        Err(_) => tables,
    }
}

/// The tables after a decision.
pub open spec fn decided(tables: TablesView, decision: DecisionView) -> TablesView {
    match decision {
        DecisionView::RegisterProject(project) => written(tables, registration(tables, project)),
        DecisionView::BindInitiator(binding) => tables.after_all(
            binding_persistence(tables, binding).1,
        ),
        DecisionView::AdmitOperation { request, session_id, fingerprint, fresh } => written(
            tables,
            admission(tables, request, session_id, fingerprint, fresh),
        ),
        DecisionView::Transition {
            operation_id,
            next,
            outcome,
            observed_session,
            observed_model,
            observed_version,
        } => written(
            tables,
            transitioned(
                tables,
                operation_id,
                next,
                outcome,
                observed_session,
                observed_model,
                observed_version,
            ),
        ),
        DecisionView::RecordDiagnostic { operation_id, diagnostic } => written(
            tables,
            diagnostic_recorded(tables, operation_id, diagnostic),
        ),
        DecisionView::AdmitConversation { start, session_id, fingerprint, fresh } => written(
            tables,
            start_admission(tables, start, session_id, fingerprint, fresh),
        ),
        DecisionView::AdmitTurn { send, fingerprint } => written(
            tables,
            turn_admission(tables, send, fingerprint),
        ),
        DecisionView::ObserveTurn { id, turn_id, state, result, payload } => written(
            tables,
            observation(tables, id, turn_id, state, result, payload),
        ),
        DecisionView::RecordInitialization { id, session_id, model, claude_version } => written(
            tables,
            initialization_recorded(tables, id, session_id, model, claude_version),
        ),
        DecisionView::Close { id, requested } => written(tables, closing(tables, id, requested)),
        DecisionView::Terminate {
            id,
            conversation_state,
            operation_state,
            terminal,
            disposition,
        } => written(
            tables,
            termination(tables, id, conversation_state, operation_state, terminal, disposition),
        ),
        DecisionView::Recover => if forall|id: ConversationId| #[trigger]
            live(tables, id) ==> interruption(tables, id) is Ok {
            recovered(tables)
        } else {
            tables
        },
    }
}

/// The tables after a sequence of decisions, from tables without a row.
pub open spec fn reached(decisions: Seq<DecisionView>) -> TablesView
    decreases decisions.len(),
{
    if decisions.len() == 0 {
        TablesView::empty()
    } else {
        decided(reached(decisions.drop_last()), decisions.last())
    }
}

/// Whatever is decided, and in whatever order, durable state is in order.
pub proof fn every_reachable_state_is_in_order(decisions: Seq<DecisionView>)
    ensures
        in_order(reached(decisions)),
    decreases decisions.len(),
{
    if decisions.len() == 0 {
        empty_tables_claimed();
    } else {
        every_reachable_state_is_in_order(decisions.drop_last());
        every_decision_keeps_order(reached(decisions.drop_last()), decisions.last());
    }
}

/// Every decision keeps durable state in order.
pub proof fn every_decision_keeps_order(tables: TablesView, decision: DecisionView)
    requires
        in_order(tables),
    ensures
        in_order(decided(tables, decision)),
{
    match decision {
        DecisionView::RegisterProject(project) => {
            if let Ok((_, changes)) = registration(tables, project) {
                writes_keep_consistency(tables, changes);
                if changes.len() == 0 {
                    assert(changes =~= Seq::empty());
                } else {
                    lemma_after_one(tables, ChangeView::InsertProject(project));
                    assert(changes =~= seq![ChangeView::InsertProject(project)]);
                }
            }
        },
        DecisionView::BindInitiator(binding) => {
            let changes = binding_persistence(tables, binding).1;
            writes_keep_consistency(tables, changes);
            if changes.len() == 0 {
                assert(changes =~= Seq::empty());
            } else {
                lemma_after_one(tables, ChangeView::InsertBinding(binding));
                assert(changes =~= seq![ChangeView::InsertBinding(binding)]);
            }
        },
        DecisionView::AdmitOperation { request, session_id, fingerprint, fresh } => {
            lemma_admission_keeps_order(tables, request, session_id, fingerprint, fresh);
        },
        DecisionView::Transition {
            operation_id,
            next,
            outcome,
            observed_session,
            observed_model,
            observed_version,
        } => {
            lemma_transition_keeps_order(
                tables,
                operation_id,
                next,
                outcome,
                observed_session,
                observed_model,
                observed_version,
            );
        },
        DecisionView::RecordDiagnostic { operation_id, diagnostic } => {
            lemma_diagnostic_keeps_order(tables, operation_id, diagnostic);
        },
        DecisionView::AdmitConversation { start, session_id, fingerprint, fresh } => {
            lemma_start_keeps_order(tables, start, session_id, fingerprint, fresh);
        },
        DecisionView::AdmitTurn { send, fingerprint } => {
            lemma_turn_keeps_order(tables, send, fingerprint);
        },
        DecisionView::ObserveTurn { id, turn_id, state, result, payload } => {
            lemma_observation_keeps_order(tables, id, turn_id, state, result, payload);
        },
        DecisionView::RecordInitialization { id, session_id, model, claude_version } => {
            lemma_initialization_keeps_order(tables, id, session_id, model, claude_version);
        },
        DecisionView::Close { id, requested } => {
            lemma_closing_keeps_order(tables, id, requested);
        },
        DecisionView::Terminate {
            id,
            conversation_state,
            operation_state,
            terminal,
            disposition,
        } => {
            lemma_termination_keeps_order(
                tables,
                id,
                conversation_state,
                operation_state,
                terminal,
                disposition,
            );
        },
        DecisionView::Recover => {
            if forall|id: ConversationId| #[trigger]
                live(tables, id) ==> interruption(tables, id) is Ok {
                lemma_recovery_keeps_order(tables);
            }
        },
    }
}

proof fn lemma_admission_keeps_order(
    tables: TablesView,
    request: OperationStartView,
    session_id: SessionId,
    fingerprint: Seq<char>,
    fresh: OperationId,
)
    requires
        in_order(tables),
    ensures
        in_order(written(tables, admission(tables, request, session_id, fingerprint, fresh))),
{
    if let Ok((admitted, changes)) = admission(tables, request, session_id, fingerprint, fresh) {
        admission_keeps_writers(
            tables,
            request,
            session_id,
            fingerprint,
            fresh,
            admitted,
            changes,
        );
        if let OperationAdmissionView::Inserted(operation) = admitted {
            lemma_admitted(
                tables,
                request,
                session_id,
                fingerprint,
                fresh,
                operation,
                changes,
            );
        } else {
            assert(changes =~= Seq::empty());
        }
    }
}

proof fn lemma_transition_keeps_order(
    tables: TablesView,
    operation_id: OperationId,
    next: OperationState,
    terminal: Option<TerminalOutcomeView>,
    observed_session: Option<SessionId>,
    observed_model: Option<Seq<char>>,
    observed_version: Option<Seq<char>>,
)
    requires
        in_order(tables),
    ensures
        in_order(
            written(
                tables,
                transitioned(
                    tables,
                    operation_id,
                    next,
                    terminal,
                    observed_session,
                    observed_model,
                    observed_version,
                ),
            ),
        ),
{
    if let Ok((moved, changes)) = transitioned(
        tables,
        operation_id,
        next,
        terminal,
        observed_session,
        observed_model,
        observed_version,
    ) {
        writes_keep_consistency(tables, changes);
        transition_keeps_writers(
            tables,
            operation_id,
            next,
            terminal,
            observed_session,
            observed_model,
            observed_version,
            moved,
            changes,
        );
        let update = ChangeView::UpdateOperation(moved);
        if next.is_terminal() {
            let release = ChangeView::ReleaseSession { operation_id: moved.operation_id };
            lemma_after_two(tables, update, release);
            assert(changes =~= seq![update, release]);
        } else {
            lemma_after_one(tables, update);
            assert(changes =~= seq![update]);
        }
    }
}

proof fn lemma_diagnostic_keeps_order(
    tables: TablesView,
    operation_id: OperationId,
    payload: OperationDiagnosticPayload,
)
    requires
        in_order(tables),
    ensures
        in_order(written(tables, diagnostic_recorded(tables, operation_id, payload))),
{
    if let Ok((recorded, changes)) = diagnostic_recorded(tables, operation_id, payload) {
        writes_keep_consistency(tables, changes);
        assert(tables.diagnostics.contains_key(operation_id));
        diagnostics_stay_numbered(tables, operation_id, payload, recorded, changes);
        lemma_after_one(tables, ChangeView::AppendDiagnostic(recorded));
        assert(changes =~= seq![ChangeView::AppendDiagnostic(recorded)]);
    }
}

proof fn lemma_start_keeps_order(
    tables: TablesView,
    request: ConversationStartView,
    session_id: SessionId,
    fingerprint: Seq<char>,
    fresh: OperationId,
)
    requires
        in_order(tables),
    ensures
        in_order(written(tables, start_admission(tables, request, session_id, fingerprint, fresh))),
{
    if let Ok((admitted, changes)) = start_admission(
        tables,
        request,
        session_id,
        fingerprint,
        fresh,
    ) {
        writes_keep_consistency(tables, changes);
        start_keeps_writers(tables, request, session_id, fingerprint, fresh, admitted, changes);
        if let ConversationStartAdmissionView::Inserted { operation, conversation, first_turn }
            = admitted {
            lemma_started(
                tables,
                request,
                session_id,
                fingerprint,
                fresh,
                operation,
                conversation,
                first_turn,
                changes,
            );
        } else {
            assert(changes =~= Seq::empty());
        }
    }
}

proof fn lemma_turn_keeps_order(
    tables: TablesView,
    request: ConversationSendView,
    fingerprint: Seq<char>,
)
    requires
        in_order(tables),
    ensures
        in_order(written(tables, turn_admission(tables, request, fingerprint))),
{
    if let Ok((admitted, changes)) = turn_admission(tables, request, fingerprint) {
        writes_keep_consistency(tables, changes);
        if let ConversationTurnAdmissionView::Inserted(turn) = admitted {
            lemma_turn_inserted(tables, request, fingerprint, turn, changes);
            turn_admission_keeps_numbering(tables, request, fingerprint, turn, changes);
            lemma_writers_stay(tables, tables.after_all(changes));
        } else {
            assert(changes =~= Seq::empty());
        }
    }
}

/// Writers stay claimed where neither operations nor claims change.
proof fn lemma_writers_stay(before: TablesView, after: TablesView)
    requires
        writers_claimed(before),
        after.operations == before.operations,
        after.claims == before.claims,
    ensures
        writers_claimed(after),
{
}

proof fn lemma_observation_keeps_order(
    tables: TablesView,
    id: ConversationId,
    turn_id: TurnId,
    state: Option<TurnState>,
    result: Option<Seq<char>>,
    payload: ConversationEventPayloadView,
)
    requires
        in_order(tables),
    ensures
        in_order(written(tables, observation(tables, id, turn_id, state, result, payload))),
{
    if let Ok((observed, changes)) = observation(tables, id, turn_id, state, result, payload) {
        writes_keep_consistency(tables, changes);
        lemma_observed(tables, id, turn_id, state, result, payload, observed, changes);
        observation_keeps_numbering(
            tables,
            id,
            turn_id,
            state,
            result,
            payload,
            observed,
            changes,
        );
        lemma_writers_stay(tables, tables.after_all(changes));
    }
}

proof fn lemma_initialization_keeps_order(
    tables: TablesView,
    id: ConversationId,
    session_id: SessionId,
    model: Seq<char>,
    claude_version: Option<Seq<char>>,
)
    requires
        in_order(tables),
    ensures
        in_order(
            written(tables, initialization_recorded(tables, id, session_id, model, claude_version)),
        ),
{
    if let Ok((event, changes)) = initialization_recorded(
        tables,
        id,
        session_id,
        model,
        claude_version,
    ) {
        writes_keep_consistency(tables, changes);
        lemma_initialized(tables, id, session_id, model, claude_version, event, changes);
        initialization_keeps_numbering(
            tables,
            id,
            session_id,
            model,
            claude_version,
            event,
            changes,
        );
    }
}

proof fn lemma_closing_keeps_order(
    tables: TablesView,
    id: ConversationId,
    requested: ConversationStopMode,
)
    requires
        in_order(tables),
    ensures
        in_order(written(tables, closing(tables, id, requested))),
{
    if let Ok((closed, changes)) = closing(tables, id, requested) {
        writes_keep_consistency(tables, changes);
        closing_keeps_the_rest(tables, id, requested, closed, changes);
        let after = tables.after_all(changes);
        lemma_writers_stay(tables, after);
        if changes.len() == 0 {
            assert(changes =~= Seq::empty());
        } else {
            let conversation = after.conversations[id].conversation;
            lemma_after_one(tables, ChangeView::UpdateConversation(conversation));
            assert(changes =~= seq![ChangeView::UpdateConversation(conversation)]);
        }
    }
}

/// A whole record stays whole when its conversation ends.
proof fn lemma_ended_record_whole(
    record: ConversationRecordView,
    ended: ConversationState,
    terminal: TerminalOutcomeView,
)
    requires
        whole(record),
        !record.conversation.state.is_terminal(),
        ended.is_terminal(),
        record.events.len() + resolution_events(
            record.turns,
            record.conversation.conversation_id,
            ended,
            highest_sequence(record.events),
        ).len() < u64::MAX,
    ensures
        whole(ended_record(record, ended, terminal)),
{
    ended_record_is_complete(record, ended, terminal);
    lemma_highest(record.events);
    let id = record.conversation.conversation_id;
    let highest = highest_sequence(record.events);
    let added = resolution_events(record.turns, id, ended, highest);
    lemma_resolution_numbered(record.turns, id, ended, highest);
    let done = ended_record(record, ended, terminal);
    assert forall|i: int| 0 <= i < done.events.len() implies ((
    #[trigger] done.events[i]).payload is ConversationTerminal <==> i == done.events.len() - 1) by {
        if i < record.events.len() {
            assert(done.events[i] == record.events[i]);
        } else if i < record.events.len() + added.len() {
            assert(done.events[i] == added[i - record.events.len()]);
        }
    }
}

proof fn lemma_termination_keeps_order(
    tables: TablesView,
    id: ConversationId,
    conversation_state: ConversationState,
    operation_state: OperationState,
    terminal: TerminalOutcomeView,
    disposition: SessionClaimDisposition,
)
    requires
        in_order(tables),
    ensures
        in_order(
            written(
                tables,
                termination(
                    tables,
                    id,
                    conversation_state,
                    operation_state,
                    terminal,
                    disposition,
                ),
            ),
        ),
{
    if let Ok((ended, changes)) = termination(
        tables,
        id,
        conversation_state,
        operation_state,
        terminal,
        disposition,
    ) {
        writes_keep_consistency(tables, changes);
        if live(tables, id) {
            let record = tables.conversations[id];
            let operation = tables.operation(id.0)->Some_0;
            let writes = ending(
                record,
                operation,
                conversation_state,
                operation_state,
                terminal,
            )->Ok_0;
            assert(record.conversation.conversation_id == id);
            lemma_ending(
                tables,
                record,
                operation,
                conversation_state,
                operation_state,
                terminal,
                writes,
            );
            lemma_highest(record.events);
            lemma_ended_record_whole(record, conversation_state, terminal);
            lemma_terminated(
                tables,
                id,
                conversation_state,
                operation_state,
                terminal,
                disposition,
                ended,
                changes,
            );
            termination_keeps_writers(
                tables,
                id,
                conversation_state,
                operation_state,
                terminal,
                disposition,
                ended,
                changes,
            );
        } else {
            assert(changes =~= Seq::empty());
        }
    }
}

proof fn lemma_recovery_keeps_order(tables: TablesView)
    requires
        in_order(tables),
        forall|id: ConversationId| #[trigger] live(tables, id) ==> interruption(tables, id) is Ok,
    ensures
        in_order(recovered(tables)),
{
    let after = recovered(tables);
    recovery_leaves_nothing_unfinished(tables);
    assert forall|id: ConversationId| #[trigger] after.conversations.contains_key(id) implies {
        &&& whole(after.conversations[id])
        &&& after.operations.contains_key(id.0)
        &&& after.conversations[id].conversation.conversation_id == id
        &&& turns_distinct(after.conversations[id].turns)
        &&& turns_belong(after.conversations[id].turns, id)
    } by {
        let record = tables.conversations[id];
        assert(tables.conversations.contains_key(id));
        if live(tables, id) {
            lemma_interrupted_record(tables, id);
        }
    }
    assert forall|id: OperationId| #[trigger] after.operations.contains_key(id) implies {
        &&& after.operations[id].operation.operation_id == id
        &&& after.operations[id].operation.request_id == tables.operations[id].operation.request_id
    } by {
        assert(tables.operations.contains_key(id));
    }
    assert forall|left: OperationId, right: OperationId|
        #![trigger after.operations.contains_key(left), after.operations.contains_key(right)]
        after.operations.contains_key(left) && after.operations.contains_key(right)
            && after.operations[left].operation.request_id
            == after.operations[right].operation.request_id implies left == right by {
        assert(tables.operations.contains_key(left));
        assert(tables.operations.contains_key(right));
    }
}

/// The record of a conversation that a restart interrupted stays whole, and its turns stay
/// distinct and its own.
proof fn lemma_interrupted_record(tables: TablesView, id: ConversationId)
    requires
        in_order(tables),
        live(tables, id),
        interruption(tables, id) is Ok,
    ensures
        whole(recovered(tables).conversations[id]),
        turns_distinct(recovered(tables).conversations[id].turns),
        turns_belong(recovered(tables).conversations[id].turns, id),
{
    let record = tables.conversations[id];
    let operation = tables.operation(id.0)->Some_0;
    assert(record.conversation.conversation_id == id);
    lemma_ending(
        tables,
        record,
        operation,
        ConversationState::Indeterminate,
        OperationState::Indeterminate,
        interrupted_conversation(),
        interruption(tables, id)->Ok_0,
    );
    lemma_highest(record.events);
    lemma_ended_record_whole(record, ConversationState::Indeterminate, interrupted_conversation());
    let before = record.turns;
    let after = recovered(tables).conversations[id].turns;
    assert forall|i: int| 0 <= i < before.len() implies (#[trigger] after[i]).turn.turn_id
        == before[i].turn.turn_id && after[i].turn.conversation_id
        == before[i].turn.conversation_id by {}
    assert forall|i: int, j: int|
        #![trigger after[i], after[j]]
        0 <= i < after.len() && 0 <= j < after.len() && after[i].turn.turn_id
            == after[j].turn.turn_id implies i == j by {
        assert(before[i].turn.turn_id == before[j].turn.turn_id);
    }
}

/// Every stored conversation tells its end exactly once, in its last event, and only when it has
/// ended.
pub proof fn one_terminal_event(tables: TablesView, id: ConversationId, i: int)
    requires
        in_order(tables),
        tables.conversations.contains_key(id),
        0 <= i < tables.conversations[id].events.len(),
    ensures
        ({
            let record = tables.conversations[id];
            let ended = record.conversation.state.is_terminal();
            &&& record.events[i].payload is ConversationTerminal <==> ended && i
                == record.events.len() - 1
            &&& ended ==> Some(
                record.events.last().payload->ConversationTerminal_outcome,
            ) == record.conversation.terminal_outcome
        }),
{
}

/// A stored conversation can always be asked to stop: the refusals of a conversation without a first
/// turn or without a close mode do not arise.
pub proof fn stored_conversation_can_close(
    tables: TablesView,
    id: ConversationId,
    requested: ConversationStopMode,
)
    requires
        in_order(tables),
        tables.conversations.contains_key(id),
    ensures
        closing(tables, id, requested) is Ok,
        last_position(tables.conversations[id].turns) == Ok::<_, OperatorErrorView>(
            tables.conversations[id].turns.len() as u64,
        ),
{
    lemma_top(tables.conversations[id].turns);
}

/// Admission always has an answer where the identity for a new operation is free: the refusals of a
/// claim without an operation and of a conversation without a first turn do not arise; and the
/// first turn that is told is the one at the first position.
pub proof fn admission_is_answered(
    tables: TablesView,
    request: OperationStartView,
    start: ConversationStartView,
    session_id: SessionId,
    fingerprint: Seq<char>,
    fresh: OperationId,
)
    requires
        in_order(tables),
        identity_free(tables, fresh),
    ensures
        admission(tables, request, session_id, fingerprint, fresh) is Ok,
        start_admission(tables, start, session_id, fingerprint, fresh) matches Ok((admitted, _))
            && (admitted matches ConversationStartAdmissionView::Existing { first_turn, .. }
            ==> first_turn.position == 1),
{
    if tables.has_request(start.request_id) {
        let id = choose|id: OperationId| #[trigger]
            tables.operations.contains_key(id) && tables.operations[id].operation.request_id
                == start.request_id;
        assert(tables.operations.contains_key(id));
        if tables.conversations.contains_key(ConversationId(id)) {
            assert(tables.conversations[ConversationId(id)].turns[0].turn.position == 1);
        }
    }
}

/// Whether events rise by their numbers.
pub open spec fn events_rise(events: Seq<ConversationEventView>) -> bool {
    forall|i: int, j: int|
        #![trigger events[i], events[j]]
        0 <= i < j < events.len() ==> events[i].sequence < events[j].sequence
}

/// Whether diagnostics rise by their numbers.
pub open spec fn diagnostics_rise(diagnostics: Seq<OperationDiagnostic>) -> bool {
    forall|i: int, j: int|
        #![trigger diagnostics[i], diagnostics[j]]
        0 <= i < j < diagnostics.len() ==> diagnostics[i].diagnostic_sequence
            < diagnostics[j].diagnostic_sequence
}

/// Reading a stored conversation after a cursor in the durable range gives its conversation, its
/// turns, and exactly the events beyond the cursor, rising and without a gap; a later cursor gives
/// the rest of them; a cursor beyond the range is a state failure.
pub proof fn stored_events_are_read_in_order(
    tables: TablesView,
    id: ConversationId,
    cursor: u64,
    later: u64,
)
    requires
        in_order(tables),
        tables.conversations.contains_key(id),
    ensures
        ({
            let record = tables.conversations[id];
            &&& durable_range(cursor) ==> (conversation_read(tables, id, cursor) matches Ok(read)
                && {
                &&& read.conversation == record.conversation
                &&& read.turns == bare_turns(record.turns)
                &&& read.events == (if cursor <= record.events.len() {
                    record.events.skip(cursor as int)
                } else {
                    Seq::empty()
                })
                &&& events_rise(read.events)
                &&& forall|event: ConversationEventView|
                    #![trigger read.events.contains(event)]
                    read.events.contains(event) <==> record.events.contains(event) && event.sequence
                        > cursor
            })
            &&& cursor <= later && durable_range(later) ==> (conversation_read(
                tables,
                id,
                later,
            ) matches Ok(rest) && (conversation_read(tables, id, cursor) matches Ok(read)
                && rest.events == events_after(read.events, later)))
            &&& !durable_range(cursor) ==> (conversation_read(tables, id, cursor) matches Err(error)
                && error is State)
        }),
{
    let events = tables.conversations[id].events;
    event_cursor_reads_the_rest(events, cursor);
    event_cursor_reads_the_rest(events, later);
    let read = events_after(events, cursor);
    assert forall|event: ConversationEventView|
        #![trigger read.contains(event)]
        read.contains(event) <==> events.contains(event) && event.sequence > cursor by {
        if read.contains(event) {
            let i = choose|i: int| 0 <= i < read.len() && read[i] == event;
            assert(events[i + cursor] == event);
        }
        if events.contains(event) && event.sequence > cursor {
            let i = choose|i: int| 0 <= i < events.len() && events[i] == event;
            assert(events[i].sequence == i + 1);
            assert(read[i - cursor] == event);
        }
    }
    if cursor <= later {
        lemma_events_after_twice(events, cursor, later);
    }
}

/// Events after a cursor and then after a later one are the events after the later one.
proof fn lemma_events_after_twice(events: Seq<ConversationEventView>, cursor: u64, later: u64)
    requires
        cursor <= later,
    ensures
        events_after(events_after(events, cursor), later) == events_after(events, later),
    decreases events.len(),
{
    reveal(Seq::filter);
    if events.len() > 0 {
        let rest = events.drop_last();
        lemma_events_after_twice(rest, cursor, later);
        let part = events_after(rest, cursor);
        if events.last().sequence > cursor {
            assert(part.push(events.last()).drop_last() =~= part);
        }
    }
}

/// Reading the diagnostics of a covered one-shot operation after a cursor in the durable range gives
/// the stored operation and exactly the diagnostics beyond the cursor, rising and without a gap,
/// which are the rest of all of them; a cursor beyond the range is refused, and so is a live
/// conversation.
pub proof fn stored_diagnostics_are_read_in_order(
    tables: TablesView,
    operation_id: OperationId,
    cursor: u64,
)
    requires
        in_order(tables),
        tables.operations.contains_key(operation_id),
    ensures
        ({
            let covered = tables.diagnostics.contains_key(operation_id)
                && !tables.conversations.contains_key(ConversationId(operation_id));
            let all = tables.diagnostics[operation_id].diagnostics;
            &&& covered && durable_range(cursor) ==> (diagnostics_read(
                tables,
                operation_id,
                cursor,
            ) matches Ok(read) && {
                &&& Some(read.operation) == tables.operation(operation_id)
                &&& read.diagnostics == (if cursor <= all.len() {
                    all.skip(cursor as int)
                } else {
                    Seq::empty()
                })
                &&& diagnostics_rise(read.diagnostics)
                &&& forall|diagnostic: OperationDiagnostic|
                    #![trigger read.diagnostics.contains(diagnostic)]
                    read.diagnostics.contains(diagnostic) <==> all.contains(diagnostic)
                        && diagnostic.diagnostic_sequence > cursor
            })
            &&& covered ==> diagnostics_read(tables, operation_id, 0) == Ok::<_, OperatorErrorView>(
                OperationDiagnosticsView {
                    operation: tables.operations[operation_id].operation,
                    diagnostics: all,
                },
            )
            &&& !durable_range(cursor) ==> diagnostics_read(tables, operation_id, cursor) == Err::<
                OperationDiagnosticsView,
                _,
            >(invalid_request("diagnostic cursor exceeds the supported durable range"@))
            &&& durable_range(cursor) && tables.conversations.contains_key(
                ConversationId(operation_id),
            ) ==> diagnostics_read(tables, operation_id, cursor) == Err::<
                OperationDiagnosticsView,
                _,
            >(conflict("operation diagnostics are unavailable for live conversations"@))
        }),
{
    if tables.diagnostics.contains_key(operation_id) {
        let all = tables.diagnostics[operation_id].diagnostics;
        diagnostic_cursor_reads_the_rest(all, cursor);
        diagnostic_cursor_reads_the_rest(all, 0);
        assert(all.skip(0) =~= all);
        let read = diagnostics_after(all, cursor);
        assert forall|diagnostic: OperationDiagnostic|
            #![trigger read.contains(diagnostic)]
            read.contains(diagnostic) <==> all.contains(diagnostic)
                && diagnostic.diagnostic_sequence > cursor by {
            if read.contains(diagnostic) {
                let i = choose|i: int| 0 <= i < read.len() && read[i] == diagnostic;
                assert(all[i + cursor] == diagnostic);
            }
            if all.contains(diagnostic) && diagnostic.diagnostic_sequence > cursor {
                let i = choose|i: int| 0 <= i < all.len() && all[i] == diagnostic;
                assert(all[i].diagnostic_sequence == i + 1);
                assert(read[i - cursor] == diagnostic);
            }
        }
    }
}

} // verus!
