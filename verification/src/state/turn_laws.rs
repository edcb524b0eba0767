//! What may follow what in the life of a turn, of a conversation and of its timeline.

use vstd::prelude::*;

use crate::contract::control::{
    ConversationEventPayloadView, ConversationEventView, ConversationState, ConversationTurnView,
    ConversationView, OperationState, OperatorErrorView, SessionClaimDisposition,
    TerminalOutcomeView, TurnState,
};
use crate::contract::identity::{ConversationId, SessionId, TurnId};
use crate::state::conversation::{initialization_recorded, termination};
use crate::state::conversation_laws::{lemma_highest, numbered};
use crate::state::conversation_timeline::event_after;
use crate::state::conversation_turn::{
    following_position, last_position, observed_turn, records_transition, resolving_event,
    resolving_state, top_position, turn_may_become, turn_observed,
};
use crate::state::tables::{
    lemma_turn_place, turns_distinct, ChangeView, TablesView, TurnRecordView,
};

verus! {

/// A queued turn may be started or come to any end but its completion; a started turn may come to
/// any end but to be discarded; and a turn that has ended stays as it is.
pub proof fn turns_go_forward(current: TurnState, next: TurnState)
    ensures
        turn_may_become(current, next) <==> match (current, next) {
            (TurnState::Queued, TurnState::Started) => true,
            (TurnState::Queued, TurnState::Cancelled) => true,
            (TurnState::Queued, TurnState::Discarded) => true,
            (TurnState::Queued, TurnState::Failed) => true,
            (TurnState::Queued, TurnState::Indeterminate) => true,
            (TurnState::Started, TurnState::Completed) => true,
            (TurnState::Started, TurnState::Cancelled) => true,
            (TurnState::Started, TurnState::Failed) => true,
            (TurnState::Started, TurnState::Indeterminate) => true,
            _ => false,
        },
{
}

/// Every event of a turn names its turn, and an event of the whole conversation names none.
pub proof fn events_name_their_turn(
    turn_id: TurnId,
    text: Seq<char>,
    session_id: SessionId,
    version: Option<Seq<char>>,
    outcome: TerminalOutcomeView,
)
    ensures
        observed_turn(ConversationEventPayloadView::TurnQueued { turn_id }) == Some(turn_id),
        observed_turn(ConversationEventPayloadView::TurnStarted { turn_id }) == Some(turn_id),
        observed_turn(ConversationEventPayloadView::TurnAcknowledged { turn_id }) == Some(turn_id),
        observed_turn(ConversationEventPayloadView::AssistantTextDelta { turn_id, text }) == Some(
            turn_id,
        ),
        observed_turn(ConversationEventPayloadView::TurnCompleted { turn_id, result: text })
            == Some(turn_id),
        observed_turn(ConversationEventPayloadView::TurnCancelled { turn_id, message: text })
            == Some(turn_id),
        observed_turn(ConversationEventPayloadView::TurnDiscarded { turn_id, message: text })
            == Some(turn_id),
        observed_turn(ConversationEventPayloadView::TurnFailed { turn_id, message: text }) == Some(
            turn_id,
        ),
        observed_turn(ConversationEventPayloadView::TurnIndeterminate { turn_id, message: text })
            == Some(turn_id),
        observed_turn(
            ConversationEventPayloadView::Initialized {
                session_id,
                model: text,
                claude_version: version,
            },
        ) is None,
        observed_turn(ConversationEventPayloadView::ConversationTerminal { outcome }) is None,
{
}

/// An event that ends a turn records exactly that end: a completion with its own result, every other
/// end without one; and an event that ends nothing records no transition.
pub proof fn events_record_their_own_transition(
    turn_id: TurnId,
    text: Seq<char>,
    state: Option<TurnState>,
    result: Option<Seq<char>>,
)
    ensures
        records_transition(
            state,
            result,
            ConversationEventPayloadView::TurnStarted { turn_id },
        ) <==> state == Some(TurnState::Started) && result is None,
        records_transition(
            state,
            result,
            ConversationEventPayloadView::TurnCompleted { turn_id, result: text },
        ) <==> state == Some(TurnState::Completed) && result == Some(text),
        records_transition(
            state,
            result,
            ConversationEventPayloadView::TurnCancelled { turn_id, message: text },
        ) <==> state == Some(TurnState::Cancelled) && result is None,
        records_transition(
            state,
            result,
            ConversationEventPayloadView::TurnDiscarded { turn_id, message: text },
        ) <==> state == Some(TurnState::Discarded) && result is None,
        records_transition(
            state,
            result,
            ConversationEventPayloadView::TurnFailed { turn_id, message: text },
        ) <==> state == Some(TurnState::Failed) && result is None,
        records_transition(
            state,
            result,
            ConversationEventPayloadView::TurnIndeterminate { turn_id, message: text },
        ) <==> state == Some(TurnState::Indeterminate) && result is None,
        records_transition(
            state,
            result,
            ConversationEventPayloadView::TurnAcknowledged { turn_id },
        ) <==> state is None && result is None,
        records_transition(
            state,
            result,
            ConversationEventPayloadView::AssistantTextDelta { turn_id, text },
        ) <==> state is None && result is None,
        !records_transition(state, result, ConversationEventPayloadView::TurnQueued { turn_id }),
{
}

/// A turn that was observed to end is rewritten with the state and the result that its event records,
/// and with nothing else; where the transition is not the one of the event, of another turn, or not
/// permitted, it is refused in words that say which.
pub proof fn observed_end_rewrites_its_turn(
    turns: Seq<TurnRecordView>,
    i: int,
    turn_id: TurnId,
    next: TurnState,
    result: Option<Seq<char>>,
    payload: ConversationEventPayloadView,
)
    requires
        turns_distinct(turns),
        0 <= i < turns.len(),
        turns[i].turn.turn_id == turn_id,
    ensures
        ({
            let answer = turn_observed(turns, turn_id, Some(next), result, payload);
            let refused = |error: OperatorErrorView| answer == Err::<
                (ConversationTurnView, Seq<ChangeView>),
                _,
            >(error);
            if observed_turn(payload) is None {
                refused(
                    OperatorErrorView::State("conversation-level event cannot observe a turn"@),
                )
            } else if observed_turn(payload) != Some(turn_id) {
                refused(
                    OperatorErrorView::State("turn observation event refers to another turn"@),
                )
            } else if !records_transition(Some(next), result, payload) {
                refused(
                    OperatorErrorView::State(
                        "turn observation event does not match the durable transition"@,
                    ),
                )
            } else if !turn_may_become(turns[i].turn.state, next) {
                refused(
                    OperatorErrorView::Conflict("conversation turn transition is not permitted"@),
                )
            } else {
                let turn = ConversationTurnView { state: next, result, ..turns[i].turn };
                answer == Ok::<_, OperatorErrorView>((turn, seq![ChangeView::UpdateTurn(turn)]))
            }
        }),
{
    lemma_turn_place(turns, i);
}

/// An end of a conversation resolves unfinished turns only where it explains them, and says of each
/// what the end was.
pub proof fn ends_explain_unfinished_turns(turn_id: TurnId, state: TurnState)
    ensures
        resolving_state(ConversationState::Cancelled) == Ok::<_, OperatorErrorView>(
            TurnState::Cancelled,
        ),
        resolving_state(ConversationState::Failed) == Ok::<_, OperatorErrorView>(TurnState::Failed),
        resolving_state(ConversationState::Indeterminate) == Ok::<_, OperatorErrorView>(
            TurnState::Indeterminate,
        ),
        resolving_state(ConversationState::Succeeded) == Err::<TurnState, _>(
            OperatorErrorView::State("succeeded conversation has unfinished turns"@),
        ),
        resolving_state(ConversationState::Open) == Err::<TurnState, _>(
            OperatorErrorView::State("nonterminal conversation cannot resolve unfinished turns"@),
        ),
        resolving_state(ConversationState::Closing) == Err::<TurnState, _>(
            OperatorErrorView::State("nonterminal conversation cannot resolve unfinished turns"@),
        ),
        resolving_event(turn_id, TurnState::Cancelled, ConversationState::Cancelled) == Ok::<
            _,
            OperatorErrorView,
        >(
            ConversationEventPayloadView::TurnCancelled {
                turn_id,
                message: "conversation cancellation was observed"@,
            },
        ),
        resolving_event(turn_id, TurnState::Discarded, ConversationState::Cancelled) == Ok::<
            _,
            OperatorErrorView,
        >(
            ConversationEventPayloadView::TurnDiscarded {
                turn_id,
                message: "conversation cancellation was observed"@,
            },
        ),
        resolving_event(turn_id, TurnState::Failed, ConversationState::Failed) == Ok::<
            _,
            OperatorErrorView,
        >(
            ConversationEventPayloadView::TurnFailed {
                turn_id,
                message: "conversation failed before this turn completed"@,
            },
        ),
        resolving_event(turn_id, TurnState::Indeterminate, ConversationState::Indeterminate) == Ok::<
            _,
            OperatorErrorView,
        >(
            ConversationEventPayloadView::TurnIndeterminate {
                turn_id,
                message: "conversation became indeterminate before this turn completed"@,
            },
        ),
        state is Queued || state is Started || state is Completed ==> resolving_event(
            turn_id,
            state,
            ConversationState::Failed,
        ) == Err::<ConversationEventPayloadView, _>(
            OperatorErrorView::State("terminal resolution selected a nonterminal turn event"@),
        ),
        resolving_event(turn_id, state, ConversationState::Succeeded) == Err::<
            ConversationEventPayloadView,
            _,
        >(
            OperatorErrorView::State(
                "non-failing terminal state cannot resolve unfinished turns"@,
            ),
        ),
{
}

/// An event takes the next number as long as durable storage can hold it.
pub proof fn events_are_numbered_within_storage(
    highest: u64,
    id: ConversationId,
    payload: ConversationEventPayloadView,
)
    ensures
        highest < i64::MAX ==> event_after(highest, id, payload) == Ok::<_, OperatorErrorView>(
            ConversationEventView {
                conversation_id: id,
                sequence: (highest + 1) as u64,
                payload,
            },
        ),
        i64::MAX <= highest < u64::MAX ==> event_after(highest, id, payload) == Err::<
            ConversationEventView,
            _,
        >(
            OperatorErrorView::State(
                "event sequence does not fit SQLite: out of range integral type conversion attempted"@,
            ),
        ),
        event_after(u64::MAX, id, payload) == Err::<ConversationEventView, _>(
            OperatorErrorView::State("conversation event sequence is exhausted"@),
        ),
{
}

/// Turns are counted from one: the last position is the highest of them, and a further turn takes the
/// next one as long as durable storage can hold it.
pub proof fn turns_are_counted_from_one(turns: Seq<TurnRecordView>, top: int)
    requires
        0 <= top < turns.len(),
        turns[top].turn.position > 0,
        forall|i: int|
            0 <= i < turns.len() ==> (#[trigger] turns[i]).turn.position
                <= turns[top].turn.position,
    ensures
        last_position(turns) == Ok::<_, OperatorErrorView>(turns[top].turn.position),
        turns[top].turn.position < i64::MAX ==> following_position(turns) == Ok::<
            _,
            OperatorErrorView,
        >((turns[top].turn.position + 1) as u64),
        turns[top].turn.position >= i64::MAX ==> following_position(turns) is Err,
        last_position(Seq::empty()) == Err::<u64, _>(
            OperatorErrorView::State("conversation has no durably admitted first turn"@),
        ),
{
    lemma_top_is(turns, top);
}

/// The highest position of turns is that of the highest turn.
proof fn lemma_top_is(turns: Seq<TurnRecordView>, top: int)
    requires
        0 <= top < turns.len(),
        forall|i: int|
            0 <= i < turns.len() ==> (#[trigger] turns[i]).turn.position
                <= turns[top].turn.position,
    ensures
        top_position(turns) == turns[top].turn.position,
    decreases turns.len(),
{
    let rest = turns.drop_last();
    lemma_top_within(rest, turns[top].turn.position, turns);
    if top < rest.len() {
        assert forall|i: int| 0 <= i < rest.len() implies (#[trigger] rest[i]).turn.position
            <= rest[top].turn.position by {
            assert(turns[i].turn.position <= turns[top].turn.position);
        }
        lemma_top_is(rest, top);
        assert(turns[turns.len() - 1].turn.position <= turns[top].turn.position);
    }
}

/// The highest position stays within a bound of all.
proof fn lemma_top_within(rest: Seq<TurnRecordView>, bound: u64, turns: Seq<TurnRecordView>)
    requires
        rest.len() <= turns.len(),
        forall|i: int| 0 <= i < rest.len() ==> #[trigger] rest[i] == turns[i],
        forall|i: int| 0 <= i < turns.len() ==> (#[trigger] turns[i]).turn.position <= bound,
    ensures
        top_position(rest) <= bound,
    decreases rest.len(),
{
    if rest.len() > 0 {
        lemma_top_within(rest.drop_last(), bound, turns);
        assert(rest[rest.len() - 1] == turns[rest.len() - 1]);
    }
}

/// A later initialization of a conversation under way is refused where it differs from an earlier
/// one, and so is one that contradicts what its operation observed, in words that say which.
pub proof fn contradicting_initialization_is_refused(
    tables: TablesView,
    id: ConversationId,
    model: Seq<char>,
    version: Option<Seq<char>>,
    earlier: int,
)
    requires
        tables.conversations.contains_key(id),
        tables.conversations[id].conversation.state is Open
            || tables.conversations[id].conversation.state is Closing,
        tables.operations.contains_key(id.0),
        tables.operations[id.0].operation.session_id
            == tables.conversations[id].conversation.session_id,
    ensures
        ({
            let record = tables.conversations[id];
            let operation = tables.operations[id.0].operation;
            let session = record.conversation.session_id;
            let refused = |words: Seq<char>|
                initialization_recorded(tables, id, session, model, version) == Err::<
                    (ConversationEventView, Seq<ChangeView>),
                    _,
                >(OperatorErrorView::Conflict(words));
            let first = forall|i: int|
                0 <= i < record.events.len() ==> !((#[trigger] record.events[i]).payload
                    is Initialized);
            &&& 0 <= earlier < record.events.len() && record.events[earlier].payload is Initialized
                && record.events[earlier].payload != (ConversationEventPayloadView::Initialized {
                session_id: session,
                model,
                claude_version: version,
            }) ==> refused(
                "provider initialization contradicts prior conversation identity"@,
            )
            &&& first && operation.observed_session_id is Some && operation.observed_session_id
                != Some(session) ==> refused(
                "provider initialization session contradicts operation identity"@,
            )
            &&& first && (operation.observed_session_id is None || operation.observed_session_id
                == Some(session)) && operation.observed_model is Some && operation.observed_model
                != Some(model) ==> refused(
                "provider initialization model contradicts operation identity"@,
            )
            &&& first && (operation.observed_session_id is None || operation.observed_session_id
                == Some(session)) && (operation.observed_model is None || operation.observed_model
                == Some(model)) && operation.observed_claude_version is Some
                && operation.observed_claude_version != version ==> refused(
                "provider initialization version contradicts operation identity"@,
            )
        }),
{
}

/// A repeated initialization that is the same as the first is told again and changes no operation.
pub proof fn repeated_initialization_is_told_again(
    tables: TablesView,
    id: ConversationId,
    model: Seq<char>,
    version: Option<Seq<char>>,
    earlier: int,
)
    requires
        tables.conversations.contains_key(id),
        tables.conversations[id].conversation.state is Open
            || tables.conversations[id].conversation.state is Closing,
        tables.operations.contains_key(id.0),
        tables.operations[id.0].operation.session_id
            == tables.conversations[id].conversation.session_id,
        tables.operations[id.0].operation.observed_session_id == Some(
            tables.conversations[id].conversation.session_id,
        ),
        tables.operations[id.0].operation.observed_model == Some(model),
        tables.operations[id.0].operation.observed_claude_version == version,
        numbered(tables.conversations[id]),
        tables.conversations[id].events.len() < i64::MAX,
        0 <= earlier < tables.conversations[id].events.len(),
        tables.conversations[id].events[earlier].payload is Initialized,
        forall|i: int|
            0 <= i < tables.conversations[id].events.len() && (
            #[trigger] tables.conversations[id].events[i]).payload is Initialized
                ==> tables.conversations[id].events[i].payload
                == (ConversationEventPayloadView::Initialized {
                session_id: tables.conversations[id].conversation.session_id,
                model,
                claude_version: version,
            }),
    ensures
        ({
            let record = tables.conversations[id];
            let session = record.conversation.session_id;
            let event = ConversationEventView {
                conversation_id: id,
                sequence: (record.events.len() + 1) as u64,
                payload: ConversationEventPayloadView::Initialized {
                    session_id: session,
                    model,
                    claude_version: version,
                },
            };
            initialization_recorded(tables, id, session, model, version) == Ok::<
                _,
                OperatorErrorView,
            >((event, seq![ChangeView::AppendEvent(event)]))
        }),
{
    let record = tables.conversations[id];
    let session = record.conversation.session_id;
    lemma_highest(record.events);
    let (event, changes) = initialization_recorded(tables, id, session, model, version)->Ok_0;
    assert(changes =~= seq![ChangeView::AppendEvent(event)]);
}

/// An end is refused where it is none, where its states and its outcome say different things, where
/// it would leave a writer behind that is known to have ended, and where the conversation or its
/// operation ended otherwise before; the same end again is answered and writes nothing.
pub proof fn contradicting_end_is_refused(
    tables: TablesView,
    id: ConversationId,
    state: ConversationState,
    operation_state: OperationState,
    outcome: TerminalOutcomeView,
    disposition: SessionClaimDisposition,
)
    ensures
        ({
            let result = termination(tables, id, state, operation_state, outcome, disposition);
            let agree = match outcome {
                TerminalOutcomeView::Succeeded(_) => state is Succeeded
                    && operation_state is Succeeded,
                TerminalOutcomeView::Failed(_) => state is Failed && operation_state is Failed,
                TerminalOutcomeView::Cancelled(_) => state is Cancelled
                    && operation_state is Cancelled,
                TerminalOutcomeView::Indeterminate(_) => state is Indeterminate
                    && operation_state is Indeterminate,
            };
            let refused = |error: OperatorErrorView| result == Err::<
                (ConversationView, Seq<ChangeView>),
                _,
            >(error);
            let conversation = tables.conversations[id].conversation;
            if state is Open || state is Closing || operation_state is Accepted || operation_state
                is Running {
                refused(
                    OperatorErrorView::State(
                        "conversation terminal transition requires terminal states"@,
                    ),
                )
            } else if disposition is RetainUnclassifiedWriter && !(state is Indeterminate) {
                refused(
                    OperatorErrorView::State(
                        "only an indeterminate conversation may retain an unclassified writer claim"@,
                    ),
                )
            } else if !agree {
                refused(
                    OperatorErrorView::State(
                        "conversation and operation terminal states disagree"@,
                    ),
                )
            } else if tables.conversations.contains_key(id) && !(conversation.state is Open) && !(
            conversation.state is Closing) {
                if conversation.state == state && conversation.terminal_outcome == Some(outcome) {
                    result matches Ok((told, changes)) && told == conversation && changes.len() == 0
                } else {
                    refused(
                        OperatorErrorView::Conflict(
                            "conversation already has a different terminal outcome"@,
                        ),
                    )
                }
            } else {
                tables.conversations.contains_key(id) && tables.operations.contains_key(id.0) && !(
                tables.operations[id.0].operation.state is Accepted) && !(
                tables.operations[id.0].operation.state is Running) ==> refused(
                    OperatorErrorView::Conflict("operation already has a terminal outcome"@),
                )
            }
        }),
{
}

} // verus!
