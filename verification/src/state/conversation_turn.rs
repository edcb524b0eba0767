//! Durable conversation turns: ordering, lifecycle transitions, and event eligibility.

use vstd::prelude::*;

use crate::contract::control::{
    conflict, state_failure, ConversationEventPayload, ConversationEventPayloadView,
    ConversationState, ConversationTurn, ConversationTurnView, OperatorError, OperatorErrorView,
    TurnState,
};
use crate::contract::identity::{ConversationId, TurnId};
use crate::state::conversation_timeline::{append, event_after};
use crate::state::decision::{answer, changed, decision, unchanged, Decided};
use crate::state::tables::{
    find_turn, turns_distinct, Change, ChangeView, ConversationRecord, TurnRecord, TurnRecordView,
};
use crate::text::{optional, views};

verus! {

/// The highest position among turns, or zero.
pub open spec fn top_position(turns: Seq<TurnRecordView>) -> u64
    decreases turns.len(),
{
    if turns.len() == 0 {
        0
    } else {
        let rest = top_position(turns.drop_last());
        let last = turns.last().turn.position;
        if last > rest {
            last
        } else {
            rest
        }
    }
}

/// What the highest position of a conversation is: it has a first turn, and counts from one.
pub open spec fn last_position(turns: Seq<TurnRecordView>) -> Result<u64, OperatorErrorView> {
    if turns.len() == 0 {
        Err(state_failure("conversation has no durably admitted first turn"@))
    } else if top_position(turns) == 0 {
        Err(state_failure("stored turn position must start at one"@))
    } else {
        Ok(top_position(turns))
    }
}

/// What the position of a further turn is: the next one, within the durable range.
pub open spec fn following_position(turns: Seq<TurnRecordView>) -> Result<u64, OperatorErrorView> {
    let top = top_position(turns);
    if top == u64::MAX {
        Err(state_failure("conversation turn position is exhausted"@))
    } else if top + 1 > i64::MAX {
        Err(
            state_failure(
                "turn position does not fit SQLite: out of range integral type conversion attempted"@,
            ),
        )
    } else {
        Ok((top + 1) as u64)
    }
}

/// The turn an event is about, where it is about one.
pub open spec fn observed_turn(payload: ConversationEventPayloadView) -> Option<TurnId> {
    match payload {
        ConversationEventPayloadView::Initialized { .. } => None,
        ConversationEventPayloadView::ConversationTerminal { .. } => None,
        ConversationEventPayloadView::TurnQueued { turn_id } => Some(turn_id),
        ConversationEventPayloadView::TurnStarted { turn_id } => Some(turn_id),
        ConversationEventPayloadView::TurnAcknowledged { turn_id } => Some(turn_id),
        ConversationEventPayloadView::AssistantTextDelta { turn_id, .. } => Some(turn_id),
        ConversationEventPayloadView::TurnCompleted { turn_id, .. } => Some(turn_id),
        ConversationEventPayloadView::TurnCancelled { turn_id, .. } => Some(turn_id),
        ConversationEventPayloadView::TurnDiscarded { turn_id, .. } => Some(turn_id),
        ConversationEventPayloadView::TurnFailed { turn_id, .. } => Some(turn_id),
        ConversationEventPayloadView::TurnIndeterminate { turn_id, .. } => Some(turn_id),
    }
}

/// Whether an event records exactly the transition it comes with: an acknowledgement or a text
/// delta none at all, a completion its own result, and every other one its own state.
pub open spec fn records_transition(
    state: Option<TurnState>,
    result: Option<Seq<char>>,
    payload: ConversationEventPayloadView,
) -> bool {
    match payload {
        ConversationEventPayloadView::TurnAcknowledged { .. } => state is None && result is None,
        ConversationEventPayloadView::AssistantTextDelta { .. } => state is None && result is None,
        ConversationEventPayloadView::TurnStarted { .. } => state == Some(TurnState::Started)
            && result is None,
        ConversationEventPayloadView::TurnCompleted { result: text, .. } => state == Some(
            TurnState::Completed,
        ) && result == Some(text),
        ConversationEventPayloadView::TurnCancelled { .. } => state == Some(TurnState::Cancelled)
            && result is None,
        ConversationEventPayloadView::TurnDiscarded { .. } => state == Some(TurnState::Discarded)
            && result is None,
        ConversationEventPayloadView::TurnFailed { .. } => state == Some(TurnState::Failed)
            && result is None,
        ConversationEventPayloadView::TurnIndeterminate { .. } => state == Some(
            TurnState::Indeterminate,
        ) && result is None,
        _ => false,
    }
}

/// Whether an event without a transition may be recorded of a turn in the state.
pub open spec fn stateless_event_allowed(
    state: TurnState,
    payload: ConversationEventPayloadView,
) -> bool {
    match payload {
        ConversationEventPayloadView::TurnAcknowledged { .. } => state is Queued || state is Started,
        ConversationEventPayloadView::AssistantTextDelta { .. } => state is Started,
        _ => false,
    }
}

/// Whether one turn state may follow another.
pub open spec fn turn_may_become(current: TurnState, next: TurnState) -> bool {
    match current {
        TurnState::Queued => !(next is Queued || next is Completed),
        TurnState::Started => !(next is Queued || next is Started || next is Discarded),
        _ => false,
    }
}

/// What one observation of a turn yields: the turn as it is then, and its rewrite where its state
/// changed.
pub open spec fn turn_observed(
    turns: Seq<TurnRecordView>,
    turn_id: TurnId,
    state: Option<TurnState>,
    result: Option<Seq<char>>,
    payload: ConversationEventPayloadView,
) -> Result<(ConversationTurnView, Seq<ChangeView>), OperatorErrorView> {
    if observed_turn(payload) is None {
        Err(state_failure("conversation-level event cannot observe a turn"@))
    } else if observed_turn(payload) != Some(turn_id) {
        Err(state_failure("turn observation event refers to another turn"@))
    } else if !records_transition(state, result, payload) {
        Err(state_failure("turn observation event does not match the durable transition"@))
    } else {
        match find_turn(turns, turn_id) {
            None => Err(state_failure("conversation turn is unknown"@)),
            Some(record) => match state {
                Some(next) => if !turn_may_become(record.turn.state, next) {
                    Err(conflict("conversation turn transition is not permitted"@))
                } else {
                    let turn = ConversationTurnView { state: next, result, ..record.turn };
                    Ok((turn, seq![ChangeView::UpdateTurn(turn)]))
                },
                None => if stateless_event_allowed(record.turn.state, payload) {
                    Ok((record.turn, Seq::empty()))
                } else {
                    Err(
                        conflict(
                            "turn observation event is not admissible in the durable turn state"@,
                        ),
                    )
                },
            },
        }
    }
}

/// The state that the end of a conversation gives to an unfinished turn.
pub open spec fn unfinished_becomes(ended: ConversationState, turn: TurnState) -> TurnState {
    match ended {
        ConversationState::Cancelled => if turn is Queued {
            TurnState::Discarded
        } else {
            TurnState::Cancelled
        },
        ConversationState::Failed => TurnState::Failed,
        _ => TurnState::Indeterminate,
    }
}

/// What is said of an unfinished turn when its conversation ends.
pub open spec fn unfinished_message(ended: ConversationState) -> Seq<char> {
    match ended {
        ConversationState::Cancelled => "conversation cancellation was observed"@,
        ConversationState::Failed => "conversation failed before this turn completed"@,
        _ => "conversation became indeterminate before this turn completed"@,
    }
}

/// The event of an unfinished turn when its conversation ends.
pub open spec fn unfinished_event(
    ended: ConversationState,
    turn: ConversationTurnView,
) -> ConversationEventPayloadView {
    let turn_id = turn.turn_id;
    let message = unfinished_message(ended);
    match unfinished_becomes(ended, turn.state) {
        TurnState::Cancelled => ConversationEventPayloadView::TurnCancelled { turn_id, message },
        TurnState::Discarded => ConversationEventPayloadView::TurnDiscarded { turn_id, message },
        TurnState::Failed => ConversationEventPayloadView::TurnFailed { turn_id, message },
        _ => ConversationEventPayloadView::TurnIndeterminate { turn_id, message },
    }
}

/// The state that the end of a conversation gives to an unfinished turn by default: only an end
/// that explains an unfinished turn gives one.
pub open spec fn resolving_state(ended: ConversationState) -> Result<TurnState, OperatorErrorView> {
    match ended {
        ConversationState::Open | ConversationState::Closing => Err(
            state_failure("nonterminal conversation cannot resolve unfinished turns"@),
        ),
        ConversationState::Succeeded => Err(
            state_failure("succeeded conversation has unfinished turns"@),
        ),
        ConversationState::Cancelled => Ok(TurnState::Cancelled),
        ConversationState::Failed => Ok(TurnState::Failed),
        ConversationState::Indeterminate => Ok(TurnState::Indeterminate),
    }
}

/// The event that resolves a turn into the state at the end of its conversation, or why there is
/// none.
pub open spec fn resolving_event(
    turn_id: TurnId,
    state: TurnState,
    ended: ConversationState,
) -> Result<ConversationEventPayloadView, OperatorErrorView> {
    let message = unfinished_message(ended);
    if !(ended is Cancelled || ended is Failed || ended is Indeterminate) {
        Err(state_failure("non-failing terminal state cannot resolve unfinished turns"@))
    } else {
        match state {
            TurnState::Cancelled => Ok(
                ConversationEventPayloadView::TurnCancelled { turn_id, message },
            ),
            TurnState::Discarded => Ok(
                ConversationEventPayloadView::TurnDiscarded { turn_id, message },
            ),
            TurnState::Failed => Ok(ConversationEventPayloadView::TurnFailed { turn_id, message }),
            TurnState::Indeterminate => Ok(
                ConversationEventPayloadView::TurnIndeterminate { turn_id, message },
            ),
            TurnState::Queued | TurnState::Started | TurnState::Completed => Err(
                state_failure("terminal resolution selected a nonterminal turn event"@),
            ),
        }
    }
}

/// Whether some turn is unfinished.
pub open spec fn some_unfinished(turns: Seq<TurnRecordView>) -> bool {
    exists|i: int| 0 <= i < turns.len() && !(#[trigger] turns[i]).turn.state.is_terminal()
}

/// Each unfinished turn rewritten and its event appended, in the order of the turns; with the
/// number of the last event.
pub open spec fn unfinished_resolved(
    turns: Seq<TurnRecordView>,
    conversation_id: ConversationId,
    ended: ConversationState,
    highest: u64,
) -> Result<(Seq<ChangeView>, u64), OperatorErrorView>
    decreases turns.len(),
{
    if turns.len() == 0 {
        Ok((Seq::empty(), highest))
    } else {
        let turn = turns.last().turn;
        match unfinished_resolved(turns.drop_last(), conversation_id, ended, highest) {
            Err(error) => Err(error),
            Ok((changes, reached)) => if turn.state.is_terminal() {
                Ok((changes, reached))
            } else {
                match event_after(reached, conversation_id, unfinished_event(ended, turn)) {
                    Err(error) => Err(error),
                    Ok(event) => Ok(
                        (
                            changes.push(
                                ChangeView::UpdateTurn(
                                    ConversationTurnView {
                                        state: unfinished_becomes(ended, turn.state),
                                        ..turn
                                    },
                                ),
                            ).push(ChangeView::AppendEvent(event)),
                            event.sequence,
                        ),
                    ),
                }
            },
        }
    }
}

/// What the end of a conversation yields for its unfinished turns. Only an end that explains an
/// unfinished turn may leave one behind.
pub open spec fn resolution(
    turns: Seq<TurnRecordView>,
    conversation_id: ConversationId,
    ended: ConversationState,
    highest: u64,
) -> Result<(Seq<ChangeView>, u64), OperatorErrorView> {
    if !some_unfinished(turns) {
        Ok((Seq::empty(), highest))
    } else {
        match resolving_state(ended) {
            Err(error) => Err(error),
            Ok(_) => unfinished_resolved(turns, conversation_id, ended, highest),
        }
    }
}

/// The highest position among turns, or zero.
fn top(turns: &Vec<TurnRecord>) -> (top: u64)
    ensures
        top == top_position(views(turns@)),
{
    let ghost all = views(turns@);
    let mut top: u64 = 0;
    let mut index: usize = 0;
    while index < turns.len()
        invariant
            index <= turns@.len(),
            all == views(turns@),
            top == top_position(all.take(index as int)),
        decreases turns@.len() - index,
    {
        if turns[index].turn.position > top {
            top = turns[index].turn.position;
        }
        index = index + 1;
        proof {
            assert(all.take(index as int).drop_last() =~= all.take(index - 1));
        }
    }
    proof {
        assert(all.take(index as int) =~= all);
    }
    top
}

/// The highest position of a conversation.
pub fn highest_position(turns: &Vec<TurnRecord>) -> (position: Result<u64, OperatorError>)
    ensures
        match position {
            Ok(position) => last_position(views(turns@)) == Ok::<_, OperatorErrorView>(position),
            Err(error) => last_position(views(turns@)) == Err::<u64, _>(error@),
        },
{
    if turns.len() == 0 {
        return Err(
            OperatorError::State("conversation has no durably admitted first turn".to_owned()),
        );
    }
    let position = top(turns);
    if position == 0 {
        return Err(OperatorError::State("stored turn position must start at one".to_owned()));
    }
    Ok(position)
}

/// The position of a further turn.
pub fn next_position(turns: &Vec<TurnRecord>) -> (position: Result<u64, OperatorError>)
    ensures
        match position {
            Ok(position) => following_position(views(turns@)) == Ok::<_, OperatorErrorView>(
                position,
            ),
            Err(error) => following_position(views(turns@)) == Err::<u64, _>(error@),
        },
{
    let top = top(turns);
    if top == u64::MAX {
        return Err(OperatorError::State("conversation turn position is exhausted".to_owned()));
    }
    if top + 1 > i64::MAX as u64 {
        return Err(
            OperatorError::State(
                "turn position does not fit SQLite: out of range integral type conversion attempted".to_owned(),
            ),
        );
    }
    Ok(top + 1)
}

/// The turn an event is about.
pub fn event_turn_id(payload: &ConversationEventPayload) -> (turn: Result<TurnId, OperatorError>)
    ensures
        match turn {
            Ok(turn_id) => observed_turn(payload@) == Some(turn_id),
            Err(error) => observed_turn(payload@) is None && error@ == state_failure(
                "conversation-level event cannot observe a turn"@,
            ),
        },
{
    match payload {
        ConversationEventPayload::Initialized { .. }
        | ConversationEventPayload::ConversationTerminal { .. } => Err(
            OperatorError::State("conversation-level event cannot observe a turn".to_owned()),
        ),
        ConversationEventPayload::TurnQueued { turn_id }
        | ConversationEventPayload::TurnStarted { turn_id }
        | ConversationEventPayload::TurnAcknowledged { turn_id }
        | ConversationEventPayload::AssistantTextDelta { turn_id, .. }
        | ConversationEventPayload::TurnCompleted { turn_id, .. }
        | ConversationEventPayload::TurnCancelled { turn_id, .. }
        | ConversationEventPayload::TurnDiscarded { turn_id, .. }
        | ConversationEventPayload::TurnFailed { turn_id, .. }
        | ConversationEventPayload::TurnIndeterminate { turn_id, .. } => Ok(*turn_id),
    }
}

/// Whether an event records exactly the transition it comes with.
pub fn event_matches_transition(
    state: Option<TurnState>,
    result: &Option<String>,
    payload: &ConversationEventPayload,
) -> (matches: bool)
    ensures
        matches == records_transition(state, optional(*result), payload@),
{
    match (state, result, payload) {
        (None, None, ConversationEventPayload::TurnAcknowledged { .. })
        | (None, None, ConversationEventPayload::AssistantTextDelta { .. }) => true,
        (Some(TurnState::Started), None, ConversationEventPayload::TurnStarted { .. }) => true,
        (
            Some(TurnState::Completed),
            Some(result),
            ConversationEventPayload::TurnCompleted { result: event_result, .. },
        ) => *result == *event_result,
        (Some(TurnState::Cancelled), None, ConversationEventPayload::TurnCancelled { .. })
        | (Some(TurnState::Discarded), None, ConversationEventPayload::TurnDiscarded { .. })
        | (Some(TurnState::Failed), None, ConversationEventPayload::TurnFailed { .. })
        | (
            Some(TurnState::Indeterminate),
            None,
            ConversationEventPayload::TurnIndeterminate { .. },
        ) => true,
        _ => false,
    }
}

/// Whether an event without a transition may be recorded of the turn.
fn nontransition_event_allowed(turn: &ConversationTurn, payload: &ConversationEventPayload) -> (
allowed: bool)
    ensures
        allowed == stateless_event_allowed(turn@.state, payload@),
{
    match payload {
        ConversationEventPayload::TurnAcknowledged { .. } => matches!(
            turn.state,
            TurnState::Queued | TurnState::Started
        ),
        ConversationEventPayload::AssistantTextDelta { .. } => turn.state == TurnState::Started,
        _ => false,
    }
}

/// Whether one turn state may follow another.
pub fn turn_transition_allowed(current: TurnState, next: TurnState) -> (allowed: bool)
    ensures
        allowed == turn_may_become(current, next),
{
    match current {
        TurnState::Queued => matches!(
            next,
            TurnState::Started
                | TurnState::Cancelled
                | TurnState::Discarded
                | TurnState::Failed
                | TurnState::Indeterminate
        ),
        TurnState::Started => matches!(
            next,
            TurnState::Completed
                | TurnState::Cancelled
                | TurnState::Failed
                | TurnState::Indeterminate
        ),
        TurnState::Completed
        | TurnState::Cancelled
        | TurnState::Discarded
        | TurnState::Failed
        | TurnState::Indeterminate => false,
    }
}

/// Observes one turn of a conversation.
pub fn record_transition(
    record: &ConversationRecord,
    turn_id: TurnId,
    state: Option<TurnState>,
    result: Option<String>,
    payload: &ConversationEventPayload,
) -> (observed: Result<Decided<ConversationTurn>, OperatorError>)
    requires
        turns_distinct(record@.turns),
    ensures
        decision(observed) == turn_observed(
            record@.turns,
            turn_id,
            state,
            optional(result),
            payload@,
        ),
{
    match event_turn_id(payload) {
        Err(error) => {
            return Err(error);
        },
        Ok(observed) => {
            if observed != turn_id {
                return Err(
                    OperatorError::State(
                        "turn observation event refers to another turn".to_owned(),
                    ),
                );
            }
        },
    }
    if !event_matches_transition(state, &result, payload) {
        return Err(
            OperatorError::State(
                "turn observation event does not match the durable transition".to_owned(),
            ),
        );
    }
    let mut turn = match record.turn(turn_id) {
        Some(found) => found.turn.clone(),
        None => {
            return Err(OperatorError::State("conversation turn is unknown".to_owned()));
        },
    };
    match state {
        Some(next) => {
            if !turn_transition_allowed(turn.state, next) {
                return Err(
                    OperatorError::Conflict(
                        "conversation turn transition is not permitted".to_owned(),
                    ),
                );
            }
            turn.state = next;
            turn.result = result;
            let mut changes = Vec::new();
            changes.push(Change::UpdateTurn(turn.clone()));
            proof {
                assert(views(changes@) =~= seq![ChangeView::UpdateTurn(turn@)]);
            }
            changed(turn, changes)
        },
        None => {
            if !nontransition_event_allowed(&turn, payload) {
                return Err(
                    OperatorError::Conflict(
                        "turn observation event is not admissible in the durable turn state".to_owned(),
                    ),
                );
            }
            unchanged(turn)
        },
    }
}

/// The state that the end of a conversation gives to an unfinished turn by default.
pub fn unresolved_state(ended: ConversationState) -> (state: Result<TurnState, OperatorError>)
    ensures
        match state {
            Ok(state) => resolving_state(ended) == Ok::<_, OperatorErrorView>(state),
            Err(error) => resolving_state(ended) == Err::<TurnState, _>(error@),
        },
{
    match ended {
        ConversationState::Open | ConversationState::Closing => Err(
            OperatorError::State(
                "nonterminal conversation cannot resolve unfinished turns".to_owned(),
            ),
        ),
        ConversationState::Succeeded => Err(
            OperatorError::State("succeeded conversation has unfinished turns".to_owned()),
        ),
        ConversationState::Cancelled => Ok(TurnState::Cancelled),
        ConversationState::Failed => Ok(TurnState::Failed),
        ConversationState::Indeterminate => Ok(TurnState::Indeterminate),
    }
}

/// The event that resolves a turn into the state at the end of its conversation.
pub fn unresolved_event(turn_id: TurnId, state: TurnState, ended: ConversationState) -> (
event: Result<ConversationEventPayload, OperatorError>)
    ensures
        answer(event) == resolving_event(turn_id, state, ended),
{
    let message = match ended {
        ConversationState::Cancelled => "conversation cancellation was observed".to_owned(),
        ConversationState::Failed => "conversation failed before this turn completed".to_owned(),
        ConversationState::Indeterminate => {
            "conversation became indeterminate before this turn completed".to_owned()
        },
        ConversationState::Open | ConversationState::Closing | ConversationState::Succeeded => {
            return Err(
                OperatorError::State(
                    "non-failing terminal state cannot resolve unfinished turns".to_owned(),
                ),
            );
        },
    };
    match state {
        TurnState::Cancelled => Ok(ConversationEventPayload::TurnCancelled { turn_id, message }),
        TurnState::Discarded => Ok(ConversationEventPayload::TurnDiscarded { turn_id, message }),
        TurnState::Failed => Ok(ConversationEventPayload::TurnFailed { turn_id, message }),
        TurnState::Indeterminate => Ok(
            ConversationEventPayload::TurnIndeterminate { turn_id, message },
        ),
        TurnState::Queued | TurnState::Started | TurnState::Completed => Err(
            OperatorError::State(
                "terminal resolution selected a nonterminal turn event".to_owned(),
            ),
        ),
    }
}

/// Whether some turn is unfinished.
fn has_unfinished(turns: &Vec<TurnRecord>) -> (unfinished: bool)
    ensures
        unfinished == some_unfinished(views(turns@)),
{
    let mut index: usize = 0;
    while index < turns.len()
        invariant
            index <= turns@.len(),
            forall|i: int|
                0 <= i < index ==> (#[trigger] views(turns@)[i]).turn.state.is_terminal(),
        decreases turns@.len() - index,
    {
        if !turns[index].turn.state.terminal() {
            proof {
                assert(!views(turns@)[index as int].turn.state.is_terminal());
            }
            return true;
        }
        index = index + 1;
    }
    false
}

/// Resolves every unfinished turn of a conversation that ends, into the writes that do so and the
/// number of the last event.
pub fn resolve_unfinished(
    turns: &Vec<TurnRecord>,
    conversation_id: ConversationId,
    ended: ConversationState,
    highest: u64,
) -> (resolved: Result<(Vec<Change>, u64), OperatorError>)
    ensures
        match resolved {
            Ok((changes, reached)) => resolution(
                views(turns@),
                conversation_id,
                ended,
                highest,
            ) == Ok::<_, OperatorErrorView>((views(changes@), reached)),
            Err(error) => resolution(views(turns@), conversation_id, ended, highest) == Err::<
                (Seq<ChangeView>, u64),
                _,
            >(error@),
        },
{
    let ghost all = views(turns@);
    let mut changes: Vec<Change> = Vec::new();
    let mut reached: u64 = highest;
    proof {
        assert(views(changes@) =~= Seq::<ChangeView>::empty());
    }
    if !has_unfinished(turns) {
        return Ok((changes, reached));
    }
    let default_state = match unresolved_state(ended) {
        Ok(state) => state,
        Err(error) => {
            return Err(error);
        },
    };
    let mut index: usize = 0;
    while index < turns.len()
        invariant
            index <= turns@.len(),
            all == views(turns@),
            some_unfinished(all),
            resolving_state(ended) == Ok::<_, OperatorErrorView>(default_state),
            unfinished_resolved(all.take(index as int), conversation_id, ended, highest) == Ok::<
                _,
                OperatorErrorView,
            >((views(changes@), reached)),
        decreases turns@.len() - index,
    {
        let ghost before = views(changes@);
        proof {
            assert(all.take(index + 1).drop_last() =~= all.take(index as int));
            assert(all.take(index + 1).last() == all[index as int]);
        }
        if !turns[index].turn.state.terminal() {
            let mut turn = turns[index].turn.clone();
            let ghost unfinished = turn@;
            let next = match (ended, turn.state) {
                (ConversationState::Cancelled, TurnState::Queued) => TurnState::Discarded,
                _ => default_state,
            };
            turn.state = next;
            let payload = match unresolved_event(turn.turn_id, next, ended) {
                Ok(payload) => payload,
                Err(error) => {
                    return Err(error);
                },
            };
            proof {
                assert(payload@ == unfinished_event(ended, unfinished));
            }
            match append(reached, conversation_id, payload) {
                Ok(event) => {
                    reached = event.sequence;
                    changes.push(Change::UpdateTurn(turn));
                    changes.push(Change::AppendEvent(event));
                    proof {
                        assert(views(changes@) =~= before.push(ChangeView::UpdateTurn(turn@)).push(
                            ChangeView::AppendEvent(event@),
                        ));
                    }
                },
                Err(error) => {
                    proof {
                        lemma_resolution_fails(
                            all,
                            index + 1,
                            conversation_id,
                            ended,
                            highest,
                            error@,
                        );
                    }
                    return Err(error);
                },
            }
        }
        index = index + 1;
    }
    proof {
        assert(all.take(index as int) =~= all);
    }
    Ok((changes, reached))
}

/// The whole lifecycle of a turn: it is queued, may start, and ends once. It completes only after it
/// started, is discarded only before, is never queued again, and stays as it ended.
pub proof fn turn_lifecycle(current: TurnState, next: TurnState)
    ensures
        current is Queued ==> (turn_may_become(current, next) <==> (next is Started
            || next is Cancelled || next is Discarded || next is Failed || next is Indeterminate)),
        current is Started ==> (turn_may_become(current, next) <==> (next is Completed
            || next is Cancelled || next is Failed || next is Indeterminate)),
        !(current is Queued || current is Started) ==> !turn_may_become(current, next),
        turn_may_become(current, next) && next is Completed ==> current is Started,
        current.is_terminal() ==> !turn_may_become(current, next),
{
}

/// An end that explains an unfinished turn resolves it by a lawful step: the event names the turn,
/// records exactly the state it gives, and that state may follow a queued turn, and a started one
/// too unless the turn is discarded.
pub proof fn resolution_is_lawful(ended: ConversationState, next: TurnState, turn_id: TurnId)
    requires
        ended is Cancelled || ended is Failed || ended is Indeterminate,
        resolving_state(ended) == Ok::<_, OperatorErrorView>(next) || (ended is Cancelled
            && next is Discarded),
    ensures
        resolving_event(turn_id, next, ended) matches Ok(payload) && observed_turn(payload) == Some(
            turn_id,
        ) && records_transition(Some(next), None, payload),
        turn_may_become(TurnState::Queued, next),
        !(next is Discarded) ==> turn_may_become(TurnState::Started, next),
{
}

/// Every unfinished turn gets the state and the event that the end of its conversation resolves it
/// by.
pub proof fn unfinished_turn_is_resolved(ended: ConversationState, turn: ConversationTurnView)
    requires
        !turn.state.is_terminal(),
        resolving_state(ended) is Ok,
    ensures
        turn_may_become(turn.state, unfinished_becomes(ended, turn.state)),
        unfinished_becomes(ended, turn.state).is_terminal(),
        resolving_event(turn.turn_id, unfinished_becomes(ended, turn.state), ended) == Ok::<
            _,
            OperatorErrorView,
        >(unfinished_event(ended, turn)),
{
}

/// An end that explains no unfinished turn resolves none: it gives no state and no event, and a
/// conversation with an unfinished turn cannot end so.
pub proof fn other_ends_resolve_nothing(
    ended: ConversationState,
    next: TurnState,
    turn_id: TurnId,
    turns: Seq<TurnRecordView>,
    conversation_id: ConversationId,
    highest: u64,
)
    requires
        ended is Open || ended is Closing || ended is Succeeded,
    ensures
        resolving_state(ended) matches Err(error) && error is State,
        resolving_event(turn_id, next, ended) matches Err(error) && error is State,
        some_unfinished(turns) ==> (resolution(turns, conversation_id, ended, highest) matches Err(
            error,
        ) && error is State),
{
}

/// A failure on the first turns is the failure of the whole.
proof fn lemma_resolution_fails(
    turns: Seq<TurnRecordView>,
    length: int,
    conversation_id: ConversationId,
    ended: ConversationState,
    highest: u64,
    error: OperatorErrorView,
)
    requires
        0 <= length <= turns.len(),
        unfinished_resolved(turns.take(length), conversation_id, ended, highest) == Err::<
            (Seq<ChangeView>, u64),
            _,
        >(error),
    ensures
        unfinished_resolved(turns, conversation_id, ended, highest) == Err::<
            (Seq<ChangeView>, u64),
            _,
        >(error),
    decreases turns.len() - length,
{
    if length == turns.len() {
        assert(turns.take(length) =~= turns);
    } else {
        assert(turns.take(length + 1).drop_last() =~= turns.take(length));
        lemma_resolution_fails(turns, length + 1, conversation_id, ended, highest, error);
    }
}

} // verus!
