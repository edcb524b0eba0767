//! What the end of a conversation leaves in the tables.

use vstd::prelude::*;

use crate::contract::control::{
    ConversationEventPayloadView, ConversationEventView, ConversationState, ConversationTurnView,
    OperationState, OperationView, OperatorErrorView, TerminalOutcomeView,
};
use crate::contract::identity::ConversationId;
use crate::state::conversation::{ended_conversation, ended_operation, ending};
use crate::state::conversation_timeline::{event_after, highest_sequence};
use crate::state::conversation_turn::{
    resolution, some_unfinished, unfinished_becomes, unfinished_event, unfinished_resolved,
};
use crate::keyed::lookup;
use crate::state::tables::{
    lemma_after_concat, lemma_after_push, lemma_turn_place, turns_distinct, turns_with, ChangeView,
    ConversationRecordView, OperationRecordView, TablesView, TurnRecordView,
};

verus! {

/// A turn after its conversation has ended.
pub open spec fn resolved_turn(record: TurnRecordView, ended: ConversationState) -> TurnRecordView {
    if record.turn.state.is_terminal() {
        record
    } else {
        TurnRecordView {
            turn: ConversationTurnView {
                state: unfinished_becomes(ended, record.turn.state),
                ..record.turn
            },
            ..record
        }
    }
}

/// The turns after their conversation has ended.
pub open spec fn resolved_turns(turns: Seq<TurnRecordView>, ended: ConversationState) -> Seq<
    TurnRecordView,
> {
    turns.map_values(|record: TurnRecordView| resolved_turn(record, ended))
}

/// The events that the unfinished turns add to a timeline whose highest number is given, in the
/// order of the turns.
pub open spec fn resolution_events(
    turns: Seq<TurnRecordView>,
    id: ConversationId,
    ended: ConversationState,
    highest: u64,
) -> Seq<ConversationEventView>
    decreases turns.len(),
{
    if turns.len() == 0 {
        Seq::empty()
    } else {
        let events = resolution_events(turns.drop_last(), id, ended, highest);
        let turn = turns.last().turn;
        if turn.state.is_terminal() {
            events
        } else {
            events.push(
                ConversationEventView {
                    conversation_id: id,
                    sequence: (highest + events.len() + 1) as u64,
                    payload: unfinished_event(ended, turn),
                },
            )
        }
    }
}

/// The record of a conversation after it has ended.
pub open spec fn ended_record(
    record: ConversationRecordView,
    ended: ConversationState,
    terminal: TerminalOutcomeView,
) -> ConversationRecordView {
    let id = record.conversation.conversation_id;
    let highest = highest_sequence(record.events);
    let events = resolution_events(record.turns, id, ended, highest);
    ConversationRecordView {
        conversation: ended_conversation(record.conversation, ended, terminal),
        turns: resolved_turns(record.turns, ended),
        events: (record.events + events).push(
            ConversationEventView {
                conversation_id: id,
                sequence: (highest + events.len() + 1) as u64,
                payload: ConversationEventPayloadView::ConversationTerminal { outcome: terminal },
            },
        ),
    }
}

/// The record while its first turns are resolved.
spec fn partly_resolved(
    record: ConversationRecordView,
    ended: ConversationState,
    count: int,
) -> ConversationRecordView {
    ConversationRecordView {
        turns: resolved_turns(record.turns.take(count), ended) + record.turns.skip(count),
        events: record.events + resolution_events(
            record.turns.take(count),
            record.conversation.conversation_id,
            ended,
            highest_sequence(record.events),
        ),
        ..record
    }
}

/// What resolving the first turns of a conversation leaves in the tables.
proof fn lemma_partly_resolved(
    tables: TablesView,
    record: ConversationRecordView,
    ended: ConversationState,
    count: int,
    changes: Seq<ChangeView>,
    reached: u64,
)
    requires
        tables.consistent(),
        lookup(tables.conversations, record.conversation.conversation_id) == Some(record),
        0 <= count <= record.turns.len(),
        unfinished_resolved(
            record.turns.take(count),
            record.conversation.conversation_id,
            ended,
            highest_sequence(record.events),
        ) == Ok::<_, OperatorErrorView>((changes, reached)),
    ensures
        tables.after_all(changes) == (TablesView {
            conversations: tables.conversations.insert(
                record.conversation.conversation_id,
                partly_resolved(record, ended, count),
            ),
            ..tables
        }),
        reached == highest_sequence(record.events) + resolution_events(
            record.turns.take(count),
            record.conversation.conversation_id,
            ended,
            highest_sequence(record.events),
        ).len(),
    decreases count,
{
    let id = record.conversation.conversation_id;
    let highest = highest_sequence(record.events);
    let turns = record.turns;
    assert(tables.conversations.contains_key(id));
    if count == 0 {
        assert(turns.take(0) =~= Seq::empty());
        assert(changes =~= Seq::empty());
        assert(partly_resolved(record, ended, 0).turns =~= turns);
        assert(partly_resolved(record, ended, 0).events =~= record.events);
        assert(tables.conversations =~= tables.conversations.insert(id, record));
    } else {
        let taken = turns.take(count);
        assert(taken.drop_last() =~= turns.take(count - 1));
        assert(taken.last() == turns[count - 1]);
        let turn = turns[count - 1].turn;
        let (earlier, before) = unfinished_resolved(turns.take(count - 1), id, ended, highest)->Ok_0;
        lemma_partly_resolved(tables, record, ended, count - 1, earlier, before);
        let middle = partly_resolved(record, ended, count - 1);
        let reached_tables = tables.after_all(earlier);
        let done = partly_resolved(record, ended, count);
        if turn.state.is_terminal() {
            assert(done.turns =~= middle.turns);
            assert(done.events =~= middle.events);
        } else {
            let event = event_after(before, id, unfinished_event(ended, turn))->Ok_0;
            let rewritten = ConversationTurnView {
                state: unfinished_becomes(ended, turn.state),
                ..turn
            };
            lemma_after_push(tables, earlier, ChangeView::UpdateTurn(rewritten));
            lemma_after_push(
                tables,
                earlier.push(ChangeView::UpdateTurn(rewritten)),
                ChangeView::AppendEvent(event),
            );
            assert(middle.turns.len() == turns.len());
            assert forall|i: int| 0 <= i < turns.len() implies (
            #[trigger] middle.turns[i]).turn.turn_id == turns[i].turn.turn_id by {}
            assert(turns_distinct(middle.turns)) by {
                assert forall|i: int, j: int|
                    #![trigger middle.turns[i], middle.turns[j]]
                    0 <= i < middle.turns.len() && 0 <= j < middle.turns.len()
                        && middle.turns[i].turn.turn_id == middle.turns[j].turn.turn_id implies i
                    == j by {
                    assert(turns[i].turn.turn_id == turns[j].turn.turn_id);
                }
            }
            assert(middle.turns[count - 1] == turns[count - 1]);
            lemma_turn_place(middle.turns, count - 1);
            assert(turn.conversation_id == id);
            let updated = ConversationRecordView {
                turns: turns_with(middle.turns, rewritten),
                ..middle
            };
            let after_turn = reached_tables.after(ChangeView::UpdateTurn(rewritten));
            assert(after_turn.conversations =~= tables.conversations.insert(id, updated));
            let after_event = after_turn.after(ChangeView::AppendEvent(event));
            assert(updated.turns =~= done.turns);
            assert(updated.events.push(event) =~= done.events);
            assert(after_event.conversations =~= tables.conversations.insert(id, done));
        }
    }
}

/// A sequence of turns with none unfinished adds no event and stays as it is.
proof fn lemma_nothing_unfinished(
    turns: Seq<TurnRecordView>,
    id: ConversationId,
    ended: ConversationState,
    highest: u64,
)
    requires
        !some_unfinished(turns),
    ensures
        resolution_events(turns, id, ended, highest) == Seq::<ConversationEventView>::empty(),
        resolved_turns(turns, ended) == turns,
    decreases turns.len(),
{
    if turns.len() > 0 {
        let rest = turns.drop_last();
        assert forall|i: int| 0 <= i < rest.len() implies (
        #[trigger] rest[i]).turn.state.is_terminal() by {
            assert(rest[i] == turns[i]);
        }
        lemma_nothing_unfinished(rest, id, ended, highest);
        assert(turns.last() == turns[turns.len() - 1]);
    }
    assert(resolved_turns(turns, ended) =~= turns);
}

/// What the end of a conversation leaves in the tables: the ended record, the ended operation, and
/// everything else as it was.
pub proof fn lemma_ending(
    tables: TablesView,
    record: ConversationRecordView,
    operation: OperationView,
    conversation_state: ConversationState,
    operation_state: OperationState,
    terminal: TerminalOutcomeView,
    changes: Seq<ChangeView>,
)
    requires
        tables.consistent(),
        lookup(tables.conversations, record.conversation.conversation_id) == Some(record),
        tables.operation(record.conversation.conversation_id.0) == Some(operation),
        ending(record, operation, conversation_state, operation_state, terminal) == Ok::<
            _,
            OperatorErrorView,
        >(changes),
    ensures
        tables.after_all(changes) == (TablesView {
            conversations: tables.conversations.insert(
                record.conversation.conversation_id,
                ended_record(record, conversation_state, terminal),
            ),
            operations: tables.operations.insert(
                operation.operation_id,
                OperationRecordView {
                    operation: ended_operation(operation, operation_state, terminal),
                    fingerprint: tables.operations[operation.operation_id].fingerprint,
                },
            ),
            ..tables
        }),
        highest_sequence(record.events) + resolution_events(
            record.turns,
            record.conversation.conversation_id,
            conversation_state,
            highest_sequence(record.events),
        ).len() < i64::MAX,
{
    let id = record.conversation.conversation_id;
    let highest = highest_sequence(record.events);
    let (resolving, reached) = resolution(record.turns, id, conversation_state, highest)->Ok_0;
    let events = resolution_events(record.turns, id, conversation_state, highest);
    let resolved = ConversationRecordView {
        turns: resolved_turns(record.turns, conversation_state),
        events: record.events + events,
        ..record
    };
    assert(tables.conversations.contains_key(id));
    assert(tables.after_all(resolving) == (TablesView {
        conversations: tables.conversations.insert(id, resolved),
        ..tables
    }) && reached == highest + events.len()) by {
        if some_unfinished(record.turns) {
            assert(record.turns.take(record.turns.len() as int) =~= record.turns);
            lemma_partly_resolved(
                tables,
                record,
                conversation_state,
                record.turns.len() as int,
                resolving,
                reached,
            );
            let whole = partly_resolved(record, conversation_state, record.turns.len() as int);
            assert(whole.turns =~= resolved.turns);
            assert(whole.events =~= resolved.events);
        } else {
            lemma_nothing_unfinished(record.turns, id, conversation_state, highest);
            assert(resolved.events =~= record.events);
            assert(tables.conversations =~= tables.conversations.insert(id, record));
        }
    }
    let payload = ConversationEventPayloadView::ConversationTerminal { outcome: terminal };
    let event = event_after(reached, id, payload)->Ok_0;
    let conversation = ended_conversation(record.conversation, conversation_state, terminal);
    let ended = ended_operation(operation, operation_state, terminal);
    let last = seq![
        ChangeView::UpdateConversation(conversation),
        ChangeView::UpdateOperation(ended),
        ChangeView::AppendEvent(event),
    ];
    let first = tables.after_all(resolving);
    lemma_after_concat(tables, resolving, last);
    let empty = Seq::<ChangeView>::empty();
    assert(last =~= empty.push(ChangeView::UpdateConversation(conversation)).push(
        ChangeView::UpdateOperation(ended),
    ).push(ChangeView::AppendEvent(event)));
    lemma_after_push(first, empty, ChangeView::UpdateConversation(conversation));
    lemma_after_push(
        first,
        empty.push(ChangeView::UpdateConversation(conversation)),
        ChangeView::UpdateOperation(ended),
    );
    lemma_after_push(
        first,
        empty.push(ChangeView::UpdateConversation(conversation)).push(
            ChangeView::UpdateOperation(ended),
        ),
        ChangeView::AppendEvent(event),
    );
    let second = first.after(ChangeView::UpdateConversation(conversation));
    let third = second.after(ChangeView::UpdateOperation(ended));
    let fourth = third.after(ChangeView::AppendEvent(event));
    let done = ended_record(record, conversation_state, terminal);
    assert(tables.operations.contains_key(id.0));
    assert(operation.operation_id == id.0);
    assert(resolved.events.push(event) =~= done.events);
    assert(fourth.conversations =~= tables.conversations.insert(id, done));
}

} // verus!
