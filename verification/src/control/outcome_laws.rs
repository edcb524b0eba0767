//! What each observation of a live target leaves in the tables, told of the turns, the events and
//! the records themselves.

use vstd::prelude::*;

use crate::contract::control::{
    conflict, state_failure, ConversationEventPayloadView, ConversationEventView,
    ConversationState, ConversationTurnView, OperationState, OperatorErrorView,
    SessionClaimDisposition, TerminalOutcomeView, TurnState,
};
use crate::contract::identity::{ConversationId, TurnId};
use crate::contract::target::{TargetLiveObservationView, TargetSessionId, TargetTurnId};
use crate::control::conversation::{carrying_state, ended, last_result, observation_applied};
use crate::identifier::uuid_text;
use crate::state::conversation::{
    bare_turns, conversation_read, initialization_recorded, observation, termination,
};
use crate::state::conversation_laws::{
    event_cursor_reads_the_rest, lemma_highest, lemma_initialized, lemma_observed,
    lemma_terminated, numbered,
};
use crate::state::conversation_timeline::highest_sequence;
use crate::state::conversation_turn::{
    some_unfinished, unfinished_becomes, unfinished_event, unfinished_resolved,
};
use crate::state::ending::{ended_record, resolution_events};
use crate::state::recovery::recovered;
use crate::state::tables::{
    find_turn, lemma_turn_place, ChangeView, ConversationRecordView, TablesView, TurnRecordView,
};

verus! {

/// Whether a conversation is stored that has not ended.
pub open spec fn underway(tables: TablesView, id: ConversationId) -> bool {
    tables.conversations.contains_key(id) && (tables.conversations[id].conversation.state is Open
        || tables.conversations[id].conversation.state is Closing)
}

/// Whether the operation of a conversation is stored and has not ended.
pub open spec fn carried(tables: TablesView, id: ConversationId) -> bool {
    tables.operations.contains_key(id.0) && (tables.operations[id.0].operation.state is Accepted
        || tables.operations[id.0].operation.state is Running)
}

/// Whether a turn has come to its end.
pub open spec fn finished(turn: ConversationTurnView) -> bool {
    !(turn.state is Queued) && !(turn.state is Started)
}

/// Whether the turn at an index is the last that has a result, which is the given one.
pub open spec fn last_answer(turns: Seq<TurnRecordView>, i: int, result: Seq<char>) -> bool {
    &&& 0 <= i < turns.len()
    &&& turns[i].turn.result == Some(result)
    &&& forall|j: int| i < j < turns.len() ==> (#[trigger] turns[j]).turn.result is None
}

/// The result that is found is that of the last turn that has one.
proof fn lemma_last_result(turns: Seq<TurnRecordView>)
    ensures
        last_result(bare_turns(turns)) matches Some(result) ==> exists|i: int| #[trigger]
            last_answer(turns, i, result),
        last_result(bare_turns(turns)) is None ==> forall|i: int|
            0 <= i < turns.len() ==> (#[trigger] turns[i]).turn.result is None,
    decreases turns.len(),
{
    let bare = bare_turns(turns);
    if turns.len() > 0 {
        let rest = turns.drop_last();
        assert(bare.last() == turns.last().turn);
        assert(bare.drop_last() =~= bare_turns(rest));
        lemma_last_result(rest);
        if turns.last().turn.result is Some {
            assert(last_answer(turns, turns.len() - 1, turns.last().turn.result->Some_0));
        } else {
            match last_result(bare) {
                Some(result) => {
                    let i = choose|i: int| #[trigger] last_answer(rest, i, result);
                    assert forall|j: int| i < j < turns.len() implies (
                    #[trigger] turns[j]).turn.result is None by {
                        if j < rest.len() {
                            assert(rest[j] == turns[j]);
                        }
                    }
                    assert(turns[i] == rest[i]);
                    assert(last_answer(turns, i, result));
                },
                None => {
                    assert forall|i: int| 0 <= i < turns.len() implies (
                    #[trigger] turns[i]).turn.result is None by {
                        if i < rest.len() {
                            assert(rest[i] == turns[i]);
                        }
                    }
                },
            }
        }
    }
}

/// Whether a conversation and its operation have ended as told, and with the same outcome.
pub open spec fn both_ended(
    tables: TablesView,
    id: ConversationId,
    outcome: TerminalOutcomeView,
) -> bool {
    let conversation = tables.conversations[id].conversation;
    let operation = tables.operations[id.0].operation;
    &&& tables.conversations.contains_key(id)
    &&& tables.operations.contains_key(id.0)
    &&& conversation.terminal_outcome == Some(outcome)
    &&& operation.terminal_outcome == Some(outcome)
    &&& match outcome {
        TerminalOutcomeView::Succeeded(_) => conversation.state is Succeeded
            && operation.state is Succeeded,
        TerminalOutcomeView::Failed(_) => conversation.state is Failed && operation.state is Failed,
        TerminalOutcomeView::Cancelled(_) => conversation.state is Cancelled
            && operation.state is Cancelled,
        TerminalOutcomeView::Indeterminate(_) => conversation.state is Indeterminate
            && operation.state is Indeterminate,
    }
}

/// What the end of a conversation under way leaves of it and of its operation.
proof fn lemma_both_ended(
    tables: TablesView,
    id: ConversationId,
    state: ConversationState,
    outcome: TerminalOutcomeView,
    disposition: SessionClaimDisposition,
)
    requires
        tables.consistent(),
        underway(tables, id),
        ended(tables, id, state, outcome, disposition) is Ok,
    ensures
        both_ended(
            tables.after_all(ended(tables, id, state, outcome, disposition)->Ok_0),
            id,
            outcome,
        ),
{
    let operation_state = carrying_state(state)->Some_0;
    let (conversation, changes) = termination(
        tables,
        id,
        state,
        operation_state,
        outcome,
        disposition,
    )->Ok_0;
    lemma_terminated(
        tables,
        id,
        state,
        operation_state,
        outcome,
        disposition,
        conversation,
        changes,
    );
}

/// Unfinished turns are resolved where the timeline has room for their events.
proof fn lemma_room(
    turns: Seq<TurnRecordView>,
    id: ConversationId,
    state: ConversationState,
    highest: u64,
)
    requires
        highest + turns.len() <= i64::MAX,
    ensures
        unfinished_resolved(turns, id, state, highest) matches Ok((_, reached)) && reached
            <= highest + turns.len(),
    decreases turns.len(),
{
    if turns.len() > 0 {
        lemma_room(turns.drop_last(), id, state, highest);
    }
}

/// A conversation under way whose target exited succeeds, and its operation with it, with the
/// result of a turn after which no turn has one.
pub proof fn exit_succeeds_with_the_last_answer(tables: TablesView, id: ConversationId)
    requires
        tables.consistent(),
        underway(tables, id),
        observation_applied(tables, id, TargetLiveObservationView::Exited) is Ok,
    ensures
        ({
            let changes = observation_applied(tables, id, TargetLiveObservationView::Exited)->Ok_0;
            exists|i: int, result: Seq<char>| #[trigger]
                last_answer(tables.conversations[id].turns, i, result) && both_ended(
                    tables.after_all(changes),
                    id,
                    TerminalOutcomeView::Succeeded(result),
                )
        }),
{
    let turns = tables.conversations[id].turns;
    let result = last_result(bare_turns(turns))->Some_0;
    lemma_last_result(turns);
    let i = choose|i: int| #[trigger] last_answer(turns, i, result);
    assert(last_answer(turns, i, result));
    lemma_both_ended(
        tables,
        id,
        ConversationState::Succeeded,
        TerminalOutcomeView::Succeeded(result),
        SessionClaimDisposition::ReleaseProvenWriter,
    );
}

/// An exit that is accepted leaves the operation what it was asked for and what it observed.
pub proof fn exit_changes_only_the_end(tables: TablesView, id: ConversationId)
    requires
        tables.consistent(),
        underway(tables, id),
        observation_applied(tables, id, TargetLiveObservationView::Exited) is Ok,
    ensures
        ({
            let changes = observation_applied(tables, id, TargetLiveObservationView::Exited)->Ok_0;
            let before = tables.operations[id.0].operation;
            let after = tables.after_all(changes).operations[id.0].operation;
            &&& after.operation_id == before.operation_id
            &&& after.request_id == before.request_id
            &&& after.project_id == before.project_id
            &&& after.intent == before.intent
            &&& after.session_id == before.session_id
            &&& after.observed_session_id == before.observed_session_id
            &&& after.observed_model == before.observed_model
            &&& after.observed_claude_version == before.observed_claude_version
        }),
{
    let result = last_result(bare_turns(tables.conversations[id].turns))->Some_0;
    let outcome = TerminalOutcomeView::Succeeded(result);
    let (conversation, changes) = termination(
        tables,
        id,
        ConversationState::Succeeded,
        OperationState::Succeeded,
        outcome,
        SessionClaimDisposition::ReleaseProvenWriter,
    )->Ok_0;
    lemma_terminated(
        tables,
        id,
        ConversationState::Succeeded,
        OperationState::Succeeded,
        outcome,
        SessionClaimDisposition::ReleaseProvenWriter,
        conversation,
        changes,
    );
}

/// A conversation under way all of whose turns have come to their end, one of them with a result,
/// succeeds when its target exits.
pub proof fn exit_after_an_answer_succeeds(tables: TablesView, id: ConversationId, answered: int)
    requires
        tables.consistent(),
        underway(tables, id),
        carried(tables, id),
        numbered(tables.conversations[id]),
        0 <= answered < tables.conversations[id].turns.len(),
        tables.conversations[id].turns[answered].turn.result is Some,
        forall|i: int|
            0 <= i < tables.conversations[id].turns.len() ==> finished(
                (#[trigger] tables.conversations[id].turns[i]).turn,
            ),
        tables.conversations[id].events.len() < i64::MAX,
    ensures
        observation_applied(tables, id, TargetLiveObservationView::Exited) is Ok,
{
    let record = tables.conversations[id];
    lemma_last_result(record.turns);
    lemma_highest(record.events);
    assert(!some_unfinished(record.turns));
}

/// A target that exited before any turn had a result has not succeeded: its exit is refused.
pub proof fn exit_without_an_answer_is_refused(tables: TablesView, id: ConversationId)
    requires
        tables.conversations.contains_key(id),
        forall|i: int|
            0 <= i < tables.conversations[id].turns.len() ==> (
            #[trigger] tables.conversations[id].turns[i]).turn.result is None,
    ensures
        observation_applied(tables, id, TargetLiveObservationView::Exited) == Err::<
            Seq<ChangeView>,
            _,
        >(state_failure("successful live exit had no turn result"@)),
{
    let turns = tables.conversations[id].turns;
    lemma_last_result(turns);
    match last_result(bare_turns(turns)) {
        Some(result) => {
            let i = choose|i: int| #[trigger] last_answer(turns, i, result);
            assert(turns[i].turn.result == Some(result));
        },
        None => {},
    }
}

/// A target that exited while a turn was unfinished has not succeeded: its exit is refused.
pub proof fn exit_with_an_unfinished_turn_is_refused(
    tables: TablesView,
    id: ConversationId,
    unfinished: int,
)
    requires
        underway(tables, id),
        0 <= unfinished < tables.conversations[id].turns.len(),
        !finished(tables.conversations[id].turns[unfinished].turn),
    ensures
        observation_applied(tables, id, TargetLiveObservationView::Exited) is Err,
{
    assert(some_unfinished(tables.conversations[id].turns));
}

/// Every other end of a conversation under way is accepted where its timeline has room, and ends
/// the conversation and its operation with exactly what was observed.
pub proof fn every_other_end_is_recorded(
    tables: TablesView,
    id: ConversationId,
    message: Seq<char>,
)
    requires
        tables.consistent(),
        underway(tables, id),
        carried(tables, id),
        numbered(tables.conversations[id]),
        tables.conversations[id].events.len() + tables.conversations[id].turns.len() < i64::MAX,
    ensures
        observation_applied(tables, id, TargetLiveObservationView::Failed(message)) matches Ok(
            changes,
        ) && both_ended(tables.after_all(changes), id, TerminalOutcomeView::Failed(message)),
        observation_applied(tables, id, TargetLiveObservationView::Indeterminate(message)) matches Ok(
            changes,
        ) && both_ended(tables.after_all(changes), id, TerminalOutcomeView::Indeterminate(message)),
        observation_applied(
            tables,
            id,
            TargetLiveObservationView::UnclassifiedWriter(message),
        ) matches Ok(changes) && both_ended(
            tables.after_all(changes),
            id,
            TerminalOutcomeView::Indeterminate(message),
        ),
        observation_applied(tables, id, TargetLiveObservationView::Cancelled) matches Ok(changes)
            && both_ended(
            tables.after_all(changes),
            id,
            TerminalOutcomeView::Cancelled("direct live child termination was observed"@),
        ),
{
    let record = tables.conversations[id];
    lemma_highest(record.events);
    let highest = record.events.len() as u64;
    let release = SessionClaimDisposition::ReleaseProvenWriter;
    let cancelled = TerminalOutcomeView::Cancelled("direct live child termination was observed"@);
    let failed = TerminalOutcomeView::Failed(message);
    let open = TerminalOutcomeView::Indeterminate(message);
    lemma_room(record.turns, id, ConversationState::Failed, highest);
    lemma_room(record.turns, id, ConversationState::Indeterminate, highest);
    lemma_room(record.turns, id, ConversationState::Cancelled, highest);
    assert(record.conversation.conversation_id == id);
    lemma_both_ended(tables, id, ConversationState::Failed, failed, release);
    lemma_both_ended(tables, id, ConversationState::Indeterminate, open, release);
    lemma_both_ended(
        tables,
        id,
        ConversationState::Indeterminate,
        open,
        SessionClaimDisposition::RetainUnclassifiedWriter,
    );
    lemma_both_ended(tables, id, ConversationState::Cancelled, cancelled, release);
}

/// Whether an observation was recorded of one turn: the turn is as told, every other turn and the
/// conversation are as they were, and the payload ends the timeline under the next number.
pub open spec fn recorded_of(
    before: ConversationRecordView,
    after: ConversationRecordView,
    i: int,
    state: TurnState,
    result: Option<Seq<char>>,
    payload: ConversationEventPayloadView,
) -> bool {
    &&& after.conversation == before.conversation
    &&& after.turns == before.turns.update(
        i,
        TurnRecordView {
            turn: ConversationTurnView { state, result, ..before.turns[i].turn },
            fingerprint: before.turns[i].fingerprint,
        },
    )
    &&& after.events == before.events.push(
        ConversationEventView {
            conversation_id: before.conversation.conversation_id,
            sequence: (before.events.len() + 1) as u64,
            payload,
        },
    )
}

/// Whether a turn of a conversation under way can be observed.
pub open spec fn observable(tables: TablesView, id: ConversationId, i: int) -> bool {
    &&& tables.consistent()
    &&& underway(tables, id)
    &&& numbered(tables.conversations[id])
    &&& 0 <= i < tables.conversations[id].turns.len()
    &&& tables.conversations[id].events.len() < i64::MAX
}

/// What is recorded of one turn.
proof fn lemma_recorded_of(
    tables: TablesView,
    id: ConversationId,
    i: int,
    state: Option<TurnState>,
    result: Option<Seq<char>>,
    payload: ConversationEventPayloadView,
)
    requires
        observable(tables, id, i),
        state is None ==> result is None,
        observation(
            tables,
            id,
            tables.conversations[id].turns[i].turn.turn_id,
            state,
            result,
            payload,
        ) is Ok,
    ensures
        ({
            let record = tables.conversations[id];
            let turn = record.turns[i].turn;
            let changes = observation(tables, id, turn.turn_id, state, result, payload)->Ok_0.1;
            recorded_of(
                record,
                tables.after_all(changes).conversations[id],
                i,
                if state is Some {
                    state->Some_0
                } else {
                    turn.state
                },
                if state is Some {
                    result
                } else {
                    turn.result
                },
                payload,
            )
        }),
{
    let record = tables.conversations[id];
    let turn = record.turns[i].turn;
    let (observed, changes) = observation(
        tables,
        id,
        turn.turn_id,
        state,
        result,
        payload,
    )->Ok_0;
    lemma_highest(record.events);
    lemma_turn_place(record.turns, i);
    lemma_observed(tables, id, turn.turn_id, state, result, payload, observed, changes);
    assert(record.conversation.conversation_id == id);
    if state is None {
        assert(record.turns =~= record.turns.update(i, record.turns[i]));
    }
}

/// A queued turn that the target started is started.
pub proof fn queued_turn_is_started(tables: TablesView, id: ConversationId, i: int)
    requires
        observable(tables, id, i),
        tables.conversations[id].turns[i].turn.state is Queued,
    ensures
        ({
            let turn_id = tables.conversations[id].turns[i].turn.turn_id;
            observation_applied(
                tables,
                id,
                TargetLiveObservationView::TurnStarted { turn_id: TargetTurnId(turn_id.0) },
            ) matches Ok(changes) && recorded_of(
                tables.conversations[id],
                tables.after_all(changes).conversations[id],
                i,
                TurnState::Started,
                None,
                ConversationEventPayloadView::TurnStarted { turn_id },
            )
        }),
{
    let record = tables.conversations[id];
    let turn_id = record.turns[i].turn.turn_id;
    lemma_highest(record.events);
    lemma_turn_place(record.turns, i);
    lemma_recorded_of(
        tables,
        id,
        i,
        Some(TurnState::Started),
        None,
        ConversationEventPayloadView::TurnStarted { turn_id },
    );
}

/// A started turn that the target completed is completed, with exactly its result.
pub proof fn started_turn_is_completed(
    tables: TablesView,
    id: ConversationId,
    i: int,
    result: Seq<char>,
)
    requires
        observable(tables, id, i),
        tables.conversations[id].turns[i].turn.state is Started,
    ensures
        ({
            let turn_id = tables.conversations[id].turns[i].turn.turn_id;
            observation_applied(
                tables,
                id,
                TargetLiveObservationView::TurnCompleted {
                    turn_id: TargetTurnId(turn_id.0),
                    result,
                },
            ) matches Ok(changes) && recorded_of(
                tables.conversations[id],
                tables.after_all(changes).conversations[id],
                i,
                TurnState::Completed,
                Some(result),
                ConversationEventPayloadView::TurnCompleted { turn_id, result },
            )
        }),
{
    let record = tables.conversations[id];
    let turn_id = record.turns[i].turn.turn_id;
    lemma_highest(record.events);
    lemma_turn_place(record.turns, i);
    lemma_recorded_of(
        tables,
        id,
        i,
        Some(TurnState::Completed),
        Some(result),
        ConversationEventPayloadView::TurnCompleted { turn_id, result },
    );
}

/// An unfinished turn that failed has failed, for exactly the reason that was told.
pub proof fn unfinished_turn_fails(
    tables: TablesView,
    id: ConversationId,
    i: int,
    message: Seq<char>,
)
    requires
        observable(tables, id, i),
        !finished(tables.conversations[id].turns[i].turn),
    ensures
        ({
            let turn_id = tables.conversations[id].turns[i].turn.turn_id;
            observation_applied(
                tables,
                id,
                TargetLiveObservationView::TurnFailed { turn_id: TargetTurnId(turn_id.0), message },
            ) matches Ok(changes) && recorded_of(
                tables.conversations[id],
                tables.after_all(changes).conversations[id],
                i,
                TurnState::Failed,
                None,
                ConversationEventPayloadView::TurnFailed { turn_id, message },
            )
        }),
{
    let record = tables.conversations[id];
    let turn_id = record.turns[i].turn.turn_id;
    lemma_highest(record.events);
    lemma_turn_place(record.turns, i);
    lemma_recorded_of(
        tables,
        id,
        i,
        Some(TurnState::Failed),
        None,
        ConversationEventPayloadView::TurnFailed { turn_id, message },
    );
}

/// The acknowledgement of an unfinished turn is told by the timeline and changes no turn.
pub proof fn acknowledgement_is_told(tables: TablesView, id: ConversationId, i: int)
    requires
        observable(tables, id, i),
        !finished(tables.conversations[id].turns[i].turn),
    ensures
        ({
            let turn = tables.conversations[id].turns[i].turn;
            observation_applied(
                tables,
                id,
                TargetLiveObservationView::TurnAcknowledged {
                    turn_id: TargetTurnId(turn.turn_id.0),
                },
            ) matches Ok(changes) && recorded_of(
                tables.conversations[id],
                tables.after_all(changes).conversations[id],
                i,
                turn.state,
                turn.result,
                ConversationEventPayloadView::TurnAcknowledged { turn_id: turn.turn_id },
            )
        }),
{
    let record = tables.conversations[id];
    let turn_id = record.turns[i].turn.turn_id;
    lemma_highest(record.events);
    lemma_turn_place(record.turns, i);
    lemma_recorded_of(
        tables,
        id,
        i,
        None,
        None,
        ConversationEventPayloadView::TurnAcknowledged { turn_id },
    );
}

/// A text of a started turn is told by the timeline, unchanged, and changes no turn.
pub proof fn text_is_told(tables: TablesView, id: ConversationId, i: int, text: Seq<char>)
    requires
        observable(tables, id, i),
        tables.conversations[id].turns[i].turn.state is Started,
    ensures
        ({
            let turn = tables.conversations[id].turns[i].turn;
            observation_applied(
                tables,
                id,
                TargetLiveObservationView::AssistantTextDelta {
                    turn_id: TargetTurnId(turn.turn_id.0),
                    text,
                },
            ) matches Ok(changes) && recorded_of(
                tables.conversations[id],
                tables.after_all(changes).conversations[id],
                i,
                turn.state,
                turn.result,
                ConversationEventPayloadView::AssistantTextDelta { turn_id: turn.turn_id, text },
            )
        }),
{
    let record = tables.conversations[id];
    let turn_id = record.turns[i].turn.turn_id;
    lemma_highest(record.events);
    lemma_turn_place(record.turns, i);
    lemma_recorded_of(
        tables,
        id,
        i,
        None,
        None,
        ConversationEventPayloadView::AssistantTextDelta { turn_id, text },
    );
}

/// A turn is started only from the queue, completed only once it was started, tells text only
/// while it is started, and tells nothing once it has come to its end.
pub proof fn observation_out_of_order_is_refused(
    tables: TablesView,
    id: ConversationId,
    i: int,
    text: Seq<char>,
)
    requires
        tables.consistent(),
        underway(tables, id),
        0 <= i < tables.conversations[id].turns.len(),
    ensures
        ({
            let turn = tables.conversations[id].turns[i].turn;
            let turn_id = TargetTurnId(turn.turn_id.0);
            let transition = Err::<Seq<ChangeView>, _>(
                conflict("conversation turn transition is not permitted"@),
            );
            let event = Err::<Seq<ChangeView>, _>(
                conflict("turn observation event is not admissible in the durable turn state"@),
            );
            &&& !(turn.state is Queued) ==> observation_applied(
                tables,
                id,
                TargetLiveObservationView::TurnStarted { turn_id },
            ) == transition
            &&& !(turn.state is Started) ==> observation_applied(
                tables,
                id,
                TargetLiveObservationView::TurnCompleted { turn_id, result: text },
            ) == transition
            &&& !(turn.state is Started) ==> observation_applied(
                tables,
                id,
                TargetLiveObservationView::AssistantTextDelta { turn_id, text },
            ) == event
            &&& finished(turn) ==> observation_applied(
                tables,
                id,
                TargetLiveObservationView::TurnFailed { turn_id, message: text },
            ) == transition
            &&& finished(turn) ==> observation_applied(
                tables,
                id,
                TargetLiveObservationView::TurnAcknowledged { turn_id },
            ) == event
        }),
{
    lemma_turn_place(tables.conversations[id].turns, i);
}

/// An observation of a turn that the conversation does not have is refused.
pub proof fn observation_of_a_stranger_is_refused(
    tables: TablesView,
    id: ConversationId,
    turn_id: TurnId,
    text: Seq<char>,
)
    requires
        underway(tables, id),
        forall|i: int|
            0 <= i < tables.conversations[id].turns.len() ==> (
            #[trigger] tables.conversations[id].turns[i]).turn.turn_id != turn_id,
    ensures
        ({
            let turn_id = TargetTurnId(turn_id.0);
            let unknown = Err::<Seq<ChangeView>, _>(
                state_failure("conversation turn is unknown"@),
            );
            &&& observation_applied(
                tables,
                id,
                TargetLiveObservationView::TurnStarted { turn_id },
            ) == unknown
            &&& observation_applied(
                tables,
                id,
                TargetLiveObservationView::TurnAcknowledged { turn_id },
            ) == unknown
            &&& observation_applied(
                tables,
                id,
                TargetLiveObservationView::AssistantTextDelta { turn_id, text },
            ) == unknown
            &&& observation_applied(
                tables,
                id,
                TargetLiveObservationView::TurnCompleted { turn_id, result: text },
            ) == unknown
            &&& observation_applied(
                tables,
                id,
                TargetLiveObservationView::TurnFailed { turn_id, message: text },
            ) == unknown
        }),
{
    assert(find_turn(tables.conversations[id].turns, turn_id) is None);
}

/// A turn that was queued needs no further write.
pub proof fn queued_turn_needs_no_write(tables: TablesView, id: ConversationId, turn: TargetTurnId)
    ensures
        observation_applied(
            tables,
            id,
            TargetLiveObservationView::TurnQueued { turn_id: turn },
        ) == Ok::<_, OperatorErrorView>(Seq::<ChangeView>::empty()),
{
}

/// The first initialization of a conversation under way, by the session it was opened for, becomes
/// what its operation observed, whatever model and version it names, and is told by the timeline.
pub proof fn first_initialization_is_observed(
    tables: TablesView,
    id: ConversationId,
    model: Seq<char>,
    version: Option<Seq<char>>,
)
    requires
        tables.consistent(),
        underway(tables, id),
        tables.operations.contains_key(id.0),
        tables.operations[id.0].operation.session_id
            == tables.conversations[id].conversation.session_id,
        tables.operations[id.0].operation.observed_session_id is None,
        tables.operations[id.0].operation.observed_model is None,
        tables.operations[id.0].operation.observed_claude_version is None,
        numbered(tables.conversations[id]),
        forall|i: int|
            0 <= i < tables.conversations[id].events.len() ==> !((
            #[trigger] tables.conversations[id].events[i]).payload is Initialized),
        tables.conversations[id].events.len() < i64::MAX,
    ensures
        ({
            let record = tables.conversations[id];
            let session = record.conversation.session_id;
            observation_applied(
                tables,
                id,
                TargetLiveObservationView::Initialized {
                    session_id: TargetSessionId(session.0),
                    model,
                    version,
                },
            ) matches Ok(changes) && {
                let after = tables.after_all(changes);
                let operation = after.operations[id.0].operation;
                &&& operation.observed_session_id == Some(session)
                &&& operation.observed_model == Some(model)
                &&& operation.observed_claude_version == version
                &&& operation.state == tables.operations[id.0].operation.state
                &&& operation.terminal_outcome
                    == tables.operations[id.0].operation.terminal_outcome
                &&& after.conversations[id].turns == record.turns
                &&& after.conversations[id].events == record.events.push(
                    ConversationEventView {
                        conversation_id: id,
                        sequence: (record.events.len() + 1) as u64,
                        payload: ConversationEventPayloadView::Initialized {
                            session_id: session,
                            model,
                            claude_version: version,
                        },
                    },
                )
            }
        }),
{
    let record = tables.conversations[id];
    let session = record.conversation.session_id;
    lemma_highest(record.events);
    let (event, changes) = initialization_recorded(tables, id, session, model, version)->Ok_0;
    lemma_initialized(tables, id, session, model, version, event, changes);
}

/// An initialization that names another session than the one the conversation was opened for is
/// refused.
pub proof fn initialization_of_another_session_is_refused(
    tables: TablesView,
    id: ConversationId,
    session: TargetSessionId,
    model: Seq<char>,
    version: Option<Seq<char>>,
)
    requires
        underway(tables, id),
        session.0 != tables.conversations[id].conversation.session_id.0,
    ensures
        observation_applied(
            tables,
            id,
            TargetLiveObservationView::Initialized { session_id: session, model, version },
        ) == Err::<Seq<ChangeView>, _>(
            conflict("provider initialization session differs from the intended session"@),
        ),
{
}

/// Whether a turn of a conversation that ended was resolved: a finished turn stays as it is; an
/// unfinished one gets the state and keeps everything else, and the timeline tells it with the
/// payload.
pub open spec fn resolved_as(
    before: ConversationRecordView,
    after: ConversationRecordView,
    i: int,
    state: TurnState,
    payload: ConversationEventPayloadView,
) -> bool {
    if finished(before.turns[i].turn) {
        after.turns[i] == before.turns[i]
    } else {
        &&& after.turns[i] == (TurnRecordView {
            turn: ConversationTurnView { state, ..before.turns[i].turn },
            fingerprint: before.turns[i].fingerprint,
        })
        &&& exists|k: int|
            before.events.len() <= k < after.events.len() - 1 && (
            #[trigger] after.events[k]).payload == payload
    }
}

/// Whether the timeline of a conversation that ended keeps every event and ends with the outcome.
pub open spec fn ends_with(
    before: ConversationRecordView,
    after: ConversationRecordView,
    outcome: TerminalOutcomeView,
) -> bool {
    &&& after.events.len() > before.events.len()
    &&& after.turns.len() == before.turns.len()
    &&& forall|k: int|
        0 <= k < before.events.len() ==> #[trigger] after.events[k] == before.events[k]
    &&& after.events.last().payload == (ConversationEventPayloadView::ConversationTerminal {
        outcome,
    })
}

/// The events of an end tell each turn that was unfinished.
proof fn lemma_unfinished_told(
    turns: Seq<TurnRecordView>,
    id: ConversationId,
    state: ConversationState,
    highest: u64,
    i: int,
)
    requires
        0 <= i < turns.len(),
        !turns[i].turn.state.is_terminal(),
    ensures
        exists|k: int|
            0 <= k < resolution_events(turns, id, state, highest).len() && (
            #[trigger] resolution_events(turns, id, state, highest)[k]).payload
                == unfinished_event(state, turns[i].turn),
    decreases turns.len(),
{
    let events = resolution_events(turns, id, state, highest);
    let rest = turns.drop_last();
    let earlier = resolution_events(rest, id, state, highest);
    if i < rest.len() {
        lemma_unfinished_told(rest, id, state, highest, i);
        assert(rest[i] == turns[i]);
        let k = choose|k: int|
            0 <= k < earlier.len() && (#[trigger] earlier[k]).payload == unfinished_event(
                state,
                rest[i].turn,
            );
        assert(events[k] == earlier[k]);
    } else {
        assert(events[earlier.len() as int].payload == unfinished_event(state, turns[i].turn));
    }
}

/// What an end leaves of one turn and of the timeline.
proof fn lemma_resolved_as(
    tables: TablesView,
    id: ConversationId,
    state: ConversationState,
    outcome: TerminalOutcomeView,
    disposition: SessionClaimDisposition,
    i: int,
)
    requires
        tables.consistent(),
        underway(tables, id),
        0 <= i < tables.conversations[id].turns.len(),
        ended(tables, id, state, outcome, disposition) is Ok,
    ensures
        ({
            let before = tables.conversations[id];
            let changes = ended(tables, id, state, outcome, disposition)->Ok_0;
            let after = tables.after_all(changes).conversations[id];
            &&& ends_with(before, after, outcome)
            &&& resolved_as(
                before,
                after,
                i,
                unfinished_becomes(state, before.turns[i].turn.state),
                unfinished_event(state, before.turns[i].turn),
            )
        }),
{
    let before = tables.conversations[id];
    let operation_state = carrying_state(state)->Some_0;
    let (conversation, changes) = termination(
        tables,
        id,
        state,
        operation_state,
        outcome,
        disposition,
    )->Ok_0;
    lemma_terminated(
        tables,
        id,
        state,
        operation_state,
        outcome,
        disposition,
        conversation,
        changes,
    );
    let after = tables.after_all(changes).conversations[id];
    let highest = highest_sequence(before.events);
    let added = resolution_events(before.turns, id, state, highest);
    assert(before.conversation.conversation_id == id);
    assert(after == ended_record(before, state, outcome));
    if !finished(before.turns[i].turn) {
        lemma_unfinished_told(before.turns, id, state, highest, i);
        let k = choose|k: int|
            0 <= k < added.len() && (#[trigger] added[k]).payload == unfinished_event(
                state,
                before.turns[i].turn,
            );
        assert(after.events[before.events.len() + k] == added[k]);
    }
}

/// A conversation that failed fails its unfinished turns, and says so of each of them.
pub proof fn failure_fails_unfinished_turns(
    tables: TablesView,
    id: ConversationId,
    message: Seq<char>,
    i: int,
)
    requires
        tables.consistent(),
        underway(tables, id),
        0 <= i < tables.conversations[id].turns.len(),
        observation_applied(tables, id, TargetLiveObservationView::Failed(message)) is Ok,
    ensures
        ({
            let observed = TargetLiveObservationView::Failed(message);
            let before = tables.conversations[id];
            let after = tables.after_all(
                observation_applied(tables, id, observed)->Ok_0,
            ).conversations[id];
            &&& ends_with(before, after, TerminalOutcomeView::Failed(message))
            &&& resolved_as(
                before,
                after,
                i,
                TurnState::Failed,
                ConversationEventPayloadView::TurnFailed {
                    turn_id: before.turns[i].turn.turn_id,
                    message: "conversation failed before this turn completed"@,
                },
            )
        }),
{
    lemma_resolved_as(
        tables,
        id,
        ConversationState::Failed,
        TerminalOutcomeView::Failed(message),
        SessionClaimDisposition::ReleaseProvenWriter,
        i,
    );
}

/// A conversation that was cancelled discards its queued turns and cancels the started one, and
/// says so of each of them.
pub proof fn cancellation_resolves_unfinished_turns(tables: TablesView, id: ConversationId, i: int)
    requires
        tables.consistent(),
        underway(tables, id),
        0 <= i < tables.conversations[id].turns.len(),
        observation_applied(tables, id, TargetLiveObservationView::Cancelled) is Ok,
    ensures
        ({
            let before = tables.conversations[id];
            let after = tables.after_all(
                observation_applied(tables, id, TargetLiveObservationView::Cancelled)->Ok_0,
            ).conversations[id];
            let turn_id = before.turns[i].turn.turn_id;
            let message = "conversation cancellation was observed"@;
            &&& ends_with(
                before,
                after,
                TerminalOutcomeView::Cancelled("direct live child termination was observed"@),
            )
            &&& if before.turns[i].turn.state is Queued {
                resolved_as(
                    before,
                    after,
                    i,
                    TurnState::Discarded,
                    ConversationEventPayloadView::TurnDiscarded { turn_id, message },
                )
            } else {
                resolved_as(
                    before,
                    after,
                    i,
                    TurnState::Cancelled,
                    ConversationEventPayloadView::TurnCancelled { turn_id, message },
                )
            }
        }),
{
    lemma_resolved_as(
        tables,
        id,
        ConversationState::Cancelled,
        TerminalOutcomeView::Cancelled("direct live child termination was observed"@),
        SessionClaimDisposition::ReleaseProvenWriter,
        i,
    );
}

/// A conversation whose end is not known leaves its unfinished turns indeterminate, and says so of
/// each of them, whether or not its writer may still run.
pub proof fn unknown_end_leaves_turns_indeterminate(
    tables: TablesView,
    id: ConversationId,
    message: Seq<char>,
    i: int,
    writer_may_run: bool,
)
    requires
        tables.consistent(),
        underway(tables, id),
        0 <= i < tables.conversations[id].turns.len(),
        observation_applied(
            tables,
            id,
            if writer_may_run {
                TargetLiveObservationView::UnclassifiedWriter(message)
            } else {
                TargetLiveObservationView::Indeterminate(message)
            },
        ) is Ok,
    ensures
        ({
            let observed = if writer_may_run {
                TargetLiveObservationView::UnclassifiedWriter(message)
            } else {
                TargetLiveObservationView::Indeterminate(message)
            };
            let before = tables.conversations[id];
            let after = tables.after_all(
                observation_applied(tables, id, observed)->Ok_0,
            ).conversations[id];
            &&& ends_with(before, after, TerminalOutcomeView::Indeterminate(message))
            &&& resolved_as(
                before,
                after,
                i,
                TurnState::Indeterminate,
                ConversationEventPayloadView::TurnIndeterminate {
                    turn_id: before.turns[i].turn.turn_id,
                    message: "conversation became indeterminate before this turn completed"@,
                },
            )
        }),
{
    lemma_resolved_as(
        tables,
        id,
        ConversationState::Indeterminate,
        TerminalOutcomeView::Indeterminate(message),
        if writer_may_run {
            SessionClaimDisposition::RetainUnclassifiedWriter
        } else {
            SessionClaimDisposition::ReleaseProvenWriter
        },
        i,
    );
}

/// After a restart a conversation that was under way is indeterminate and says why, its unfinished
/// turns too; one that had ended is as it was.
pub proof fn restart_classifies_conversations(tables: TablesView, id: ConversationId, i: int)
    requires
        tables.consistent(),
        tables.conversations.contains_key(id),
        0 <= i < tables.conversations[id].turns.len(),
    ensures
        recovered(tables).conversations.contains_key(id),
        ({
            let before = tables.conversations[id];
            let after = recovered(tables).conversations[id];
            let outcome = TerminalOutcomeView::Indeterminate(
                "daemon restarted before persistent conversation was classified"@,
            );
            if underway(tables, id) {
                &&& after.conversation.state is Indeterminate
                &&& after.conversation.terminal_outcome == Some(outcome)
                &&& after.conversation.session_id == before.conversation.session_id
                &&& ends_with(before, after, outcome)
                &&& resolved_as(
                    before,
                    after,
                    i,
                    TurnState::Indeterminate,
                    ConversationEventPayloadView::TurnIndeterminate {
                        turn_id: before.turns[i].turn.turn_id,
                        message: "conversation became indeterminate before this turn completed"@,
                    },
                )
            } else {
                after == before
            }
        }),
{
    let before = tables.conversations[id];
    let after = recovered(tables).conversations[id];
    let state = ConversationState::Indeterminate;
    let highest = highest_sequence(before.events);
    let added = resolution_events(before.turns, id, state, highest);
    assert(before.conversation.conversation_id == id);
    if underway(tables, id) && !finished(before.turns[i].turn) {
        lemma_unfinished_told(before.turns, id, state, highest, i);
        let k = choose|k: int|
            0 <= k < added.len() && (#[trigger] added[k]).payload == unfinished_event(
                state,
                before.turns[i].turn,
            );
        assert(after.events[before.events.len() + k] == added[k]);
    }
}

/// A stored conversation is read with its record, all its turns, and exactly the events behind the
/// cursor; a cursor beyond the durable range and an unknown conversation are refused.
pub proof fn conversation_is_read_behind_a_cursor(
    tables: TablesView,
    id: ConversationId,
    cursor: u64,
)
    requires
        tables.conversations.contains_key(id) ==> numbered(tables.conversations[id]),
    ensures
        ({
            let record = tables.conversations[id];
            if !tables.conversations.contains_key(id) {
                conversation_read(tables, id, cursor) matches Err(error) && error
                    == OperatorErrorView::UnknownOperation(uuid_text(id.0.0))
            } else if cursor > i64::MAX {
                conversation_read(tables, id, cursor) is Err
            } else {
                conversation_read(tables, id, cursor) matches Ok(snapshot)
                    && snapshot.conversation == record.conversation && snapshot.turns.len()
                    == record.turns.len() && (forall|i: int|
                    0 <= i < record.turns.len() ==> #[trigger] snapshot.turns[i]
                        == record.turns[i].turn) && snapshot.events == (if cursor
                    <= record.events.len() {
                    record.events.skip(cursor as int)
                } else {
                    Seq::empty()
                })
            }
        }),
{
    if tables.conversations.contains_key(id) {
        event_cursor_reads_the_rest(tables.conversations[id].events, cursor);
    }
}

} // verus!
