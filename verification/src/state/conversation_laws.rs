//! What holds of durable conversations as a whole.

use vstd::prelude::*;

use crate::contract::control::{
    conflict, ConversationCloseAdmissionView, ConversationEventPayloadView, ConversationEventView,
    ConversationSendView, ConversationSnapshotView, ConversationStartAdmissionView,
    ConversationStartView, ConversationState,
    ConversationStopMode, ConversationTurnAdmissionView, ConversationTurnObservationView,
    ConversationTurnView, ConversationView, OperationState, OperationView, OperatorErrorView,
    SessionClaimDisposition, TerminalOutcomeView, TurnState,
};
use crate::contract::identity::{ConversationId, OperationId, SessionId, TurnId};
use crate::state::conversation::{
    bare_turns, closing, conversation_read, ended_operation, ending, ends_agree, initialization,
    initialization_recorded, observation, start_admission, termination, turn_admission,
};
use crate::state::conversation_timeline::{event_after, events_after, highest_sequence};
use crate::state::conversation_turn::top_position;
use crate::state::ending::{ended_record, lemma_ending, resolution_events};
use crate::keyed::lookup;
use crate::state::laws::writers_claimed;
use crate::state::operation::admission;
use crate::state::recovery::{live, recovered, recovered_operation};
use crate::state::tables::{
    find_turn, has_turn, lemma_after_one, lemma_after_push, lemma_after_two, turn_place, turns_with,
    ChangeView, Claim, ConversationRecordView, OperationRecordView, TablesView, TurnRecordView,
};

verus! {

/// Whether the events of a conversation are numbered from one without a gap, and so its turns.
pub open spec fn numbered(record: ConversationRecordView) -> bool {
    &&& forall|i: int|
        0 <= i < record.events.len() ==> (#[trigger] record.events[i]).sequence == i + 1
    &&& forall|i: int|
        0 <= i < record.turns.len() ==> (#[trigger] record.turns[i]).turn.position == i + 1
}

/// Whether nothing was taken from a timeline or changed in it.
pub open spec fn timeline_kept(
    before: ConversationRecordView,
    after: ConversationRecordView,
) -> bool {
    &&& before.events.len() <= after.events.len()
    &&& forall|i: int|
        0 <= i < before.events.len() ==> #[trigger] after.events[i] == before.events[i]
}

/// The highest number of a gapless timeline is its length.
pub(crate) proof fn lemma_highest(events: Seq<ConversationEventView>)
    requires
        forall|i: int| 0 <= i < events.len() ==> (#[trigger] events[i]).sequence == i + 1,
    ensures
        highest_sequence(events) == events.len(),
    decreases events.len(),
{
    if events.len() > 0 {
        let rest = events.drop_last();
        assert forall|i: int| 0 <= i < rest.len() implies (#[trigger] rest[i]).sequence == i
            + 1 by {
            assert(rest[i] == events[i]);
        }
        lemma_highest(rest);
        assert(events.last() == events[events.len() - 1]);
    }
}

/// The highest position of gapless turns is their number.
pub(crate) proof fn lemma_top(turns: Seq<TurnRecordView>)
    requires
        forall|i: int| 0 <= i < turns.len() ==> (#[trigger] turns[i]).turn.position == i + 1,
    ensures
        top_position(turns) == turns.len(),
    decreases turns.len(),
{
    if turns.len() > 0 {
        let rest = turns.drop_last();
        assert forall|i: int| 0 <= i < rest.len() implies (#[trigger] rest[i]).turn.position == i
            + 1 by {
            assert(rest[i] == turns[i]);
        }
        lemma_top(rest);
        assert(turns.last() == turns[turns.len() - 1]);
    }
}

/// What an inserted conversation leaves in the tables.
pub(crate) proof fn lemma_started(
    tables: TablesView,
    request: ConversationStartView,
    session_id: SessionId,
    fingerprint: Seq<char>,
    fresh: OperationId,
    operation: OperationView,
    conversation: ConversationView,
    first_turn: ConversationTurnView,
    changes: Seq<ChangeView>,
)
    requires
        tables.consistent(),
        start_admission(tables, request, session_id, fingerprint, fresh) == Ok::<
            _,
            OperatorErrorView,
        >(
            (
                ConversationStartAdmissionView::Inserted { operation, conversation, first_turn },
                changes,
            ),
        ),
    ensures
        tables.after_all(changes) == (TablesView {
            operations: tables.operations.insert(
                fresh,
                OperationRecordView { operation, fingerprint },
            ),
            claims: tables.claims.insert(session_id, Claim { session_id, operation_id: fresh }),
            conversations: tables.conversations.insert(
                ConversationId(fresh),
                ConversationRecordView {
                    conversation,
                    turns: seq![TurnRecordView { turn: first_turn, fingerprint }],
                    events: seq![
                        ConversationEventView {
                            conversation_id: ConversationId(fresh),
                            sequence: 1,
                            payload: ConversationEventPayloadView::TurnQueued {
                                turn_id: request.turn_id,
                            },
                        },
                    ],
                },
            ),
            ..tables
        }),
        !tables.operations.contains_key(fresh),
        !tables.has_request(request.request_id),
        !tables.claims.contains_key(session_id),
        operation.operation_id == fresh,
        operation.session_id == session_id,
        operation.request_id == request.request_id,
{
    let id = ConversationId(fresh);
    let insert = ChangeView::InsertOperation(OperationRecordView { operation, fingerprint });
    let claim = ChangeView::ClaimSession(Claim { session_id, operation_id: fresh });
    let open = ChangeView::InsertConversation(conversation);
    let turn = ChangeView::InsertTurn(TurnRecordView { turn: first_turn, fingerprint });
    let queued = ConversationEventView {
        conversation_id: id,
        sequence: 1,
        payload: ConversationEventPayloadView::TurnQueued { turn_id: request.turn_id },
    };
    let event = ChangeView::AppendEvent(queued);
    lemma_after_two(tables, insert, claim);
    lemma_after_push(tables, seq![insert, claim], open);
    lemma_after_push(tables, seq![insert, claim].push(open), turn);
    lemma_after_push(tables, seq![insert, claim].push(open).push(turn), event);
    assert(changes =~= seq![insert, claim].push(open).push(turn).push(event));
    let first = tables.after(insert);
    assert(first.operations =~= tables.operations.insert(
        fresh,
        OperationRecordView { operation, fingerprint },
    ));
    assert(!first.has_claim(fresh)) by {
        if first.has_claim(fresh) {
            let session = choose|session: SessionId| #[trigger]
                first.claims.contains_key(session) && first.claims[session].operation_id == fresh;
            assert(tables.claims.contains_key(session));
        }
    }
    let second = first.after(claim);
    let third = second.after(open);
    let bare = ConversationRecordView {
        conversation,
        turns: Seq::empty(),
        events: Seq::empty(),
    };
    assert(third.conversations =~= tables.conversations.insert(id, bare));
    let fourth = third.after(turn);
    let with_turn = ConversationRecordView {
        turns: seq![TurnRecordView { turn: first_turn, fingerprint }],
        ..bare
    };
    assert(!has_turn(bare.turns, first_turn.turn_id));
    assert(bare.turns.push(TurnRecordView { turn: first_turn, fingerprint })
        =~= with_turn.turns);
    assert(fourth.conversations =~= tables.conversations.insert(id, with_turn));
    let fifth = fourth.after(event);
    let complete = ConversationRecordView { events: seq![queued], ..with_turn };
    assert(with_turn.events.push(queued) =~= complete.events);
    assert(fifth.conversations =~= tables.conversations.insert(id, complete));
}

/// Admitting a conversation keeps every unfinished operation claimed, and starts a record that is
/// numbered from one.
pub proof fn start_keeps_writers(
    tables: TablesView,
    request: ConversationStartView,
    session_id: SessionId,
    fingerprint: Seq<char>,
    fresh: OperationId,
    admitted: ConversationStartAdmissionView,
    changes: Seq<ChangeView>,
)
    requires
        tables.consistent(),
        writers_claimed(tables),
        start_admission(tables, request, session_id, fingerprint, fresh) == Ok::<
            _,
            OperatorErrorView,
        >((admitted, changes)),
    ensures
        writers_claimed(tables.after_all(changes)),
        admitted is Inserted ==> numbered(
            tables.after_all(changes).conversations[ConversationId(fresh)],
        ),
{
    match admitted {
        ConversationStartAdmissionView::Inserted { operation, conversation, first_turn } => {
            lemma_started(
                tables,
                request,
                session_id,
                fingerprint,
                fresh,
                operation,
                conversation,
                first_turn,
                changes,
            );
            let after = tables.after_all(changes);
            assert forall|id: OperationId| #[trigger]
                after.operations.contains_key(id)
                    && !after.operations[id].operation.state.is_terminal() implies lookup(
                after.claims,
                after.operations[id].operation.session_id,
            ) == Some(
                Claim {
                    session_id: after.operations[id].operation.session_id,
                    operation_id: id,
                },
            ) by {
                if id != fresh {
                    assert(tables.operations.contains_key(id));
                }
            }
        },
        _ => {
            assert(changes =~= Seq::empty());
        },
    }
}

/// Reading the first event of a timeline that holds nothing else.
proof fn lemma_only_event(event: ConversationEventView)
    requires
        event.sequence == 1,
    ensures
        events_after(seq![event], 0) == seq![event],
{
    reveal(Seq::filter);
    let none = Seq::<ConversationEventView>::empty();
    assert(seq![event].drop_last() =~= none);
    assert(events_after(none, 0) =~= none);
    assert(none.push(event) =~= seq![event]);
}

/// An admitted conversation is read back as it was admitted: open, with its first turn and the event
/// that queued it; its operation too.
pub proof fn started_conversation_is_read_back(
    tables: TablesView,
    request: ConversationStartView,
    session_id: SessionId,
    fingerprint: Seq<char>,
    fresh: OperationId,
    operation: OperationView,
    conversation: ConversationView,
    first_turn: ConversationTurnView,
    changes: Seq<ChangeView>,
)
    requires
        tables.consistent(),
        start_admission(tables, request, session_id, fingerprint, fresh) == Ok::<
            _,
            OperatorErrorView,
        >(
            (
                ConversationStartAdmissionView::Inserted { operation, conversation, first_turn },
                changes,
            ),
        ),
    ensures
        tables.after_all(changes).operation(fresh) == Some(operation),
        conversation.state is Open,
        conversation_read(tables.after_all(changes), ConversationId(fresh), 0) == Ok::<
            _,
            OperatorErrorView,
        >(
            ConversationSnapshotView {
                conversation,
                turns: seq![first_turn],
                events: seq![
                    ConversationEventView {
                        conversation_id: ConversationId(fresh),
                        sequence: 1,
                        payload: ConversationEventPayloadView::TurnQueued {
                            turn_id: request.turn_id,
                        },
                    },
                ],
            },
        ),
{
    lemma_started(
        tables,
        request,
        session_id,
        fingerprint,
        fresh,
        operation,
        conversation,
        first_turn,
        changes,
    );
    lemma_only_event(
        ConversationEventView {
            conversation_id: ConversationId(fresh),
            sequence: 1,
            payload: ConversationEventPayloadView::TurnQueued { turn_id: request.turn_id },
        },
    );
    assert(bare_turns(seq![TurnRecordView { turn: first_turn, fingerprint }]) =~= seq![first_turn]);
}

/// A cursor loses nothing and repeats nothing: reading a gapless timeline after a cursor gives
/// exactly the events beyond it, in their order.
pub proof fn event_cursor_reads_the_rest(events: Seq<ConversationEventView>, cursor: u64)
    requires
        forall|i: int| 0 <= i < events.len() ==> (#[trigger] events[i]).sequence == i + 1,
    ensures
        events_after(events, cursor) == (if cursor <= events.len() {
            events.skip(cursor as int)
        } else {
            Seq::empty()
        }),
    decreases events.len(),
{
    reveal(Seq::filter);
    if events.len() > 0 {
        let rest = events.drop_last();
        assert forall|i: int| 0 <= i < rest.len() implies (#[trigger] rest[i]).sequence == i
            + 1 by {
            assert(rest[i] == events[i]);
        }
        event_cursor_reads_the_rest(rest, cursor);
        assert(events.last().sequence == events.len());
        if cursor < events.len() {
            assert(rest.skip(cursor as int).push(events.last()) =~= events.skip(cursor as int));
        } else if cursor == events.len() {
            assert(events.skip(cursor as int) =~= Seq::empty());
        }
    }
}

/// One request opens one conversation: after it was inserted, admitting it again yields that
/// conversation, its first turn and its first fingerprint, and changes nothing.
pub proof fn start_is_idempotent(
    tables: TablesView,
    request: ConversationStartView,
    session_id: SessionId,
    fingerprint: Seq<char>,
    fresh: OperationId,
    operation: OperationView,
    conversation: ConversationView,
    first_turn: ConversationTurnView,
    changes: Seq<ChangeView>,
    again: ConversationStartView,
    other_session: SessionId,
    other_fingerprint: Seq<char>,
    other_fresh: OperationId,
)
    requires
        tables.consistent(),
        start_admission(tables, request, session_id, fingerprint, fresh) == Ok::<
            _,
            OperatorErrorView,
        >(
            (
                ConversationStartAdmissionView::Inserted { operation, conversation, first_turn },
                changes,
            ),
        ),
        again.request_id == request.request_id,
    ensures
        start_admission(
            tables.after_all(changes),
            again,
            other_session,
            other_fingerprint,
            other_fresh,
        ) == Ok::<_, OperatorErrorView>(
            (
                ConversationStartAdmissionView::Existing {
                    operation,
                    conversation,
                    first_turn,
                    fingerprint,
                },
                Seq::<ChangeView>::empty(),
            ),
        ),
{
    lemma_started(
        tables,
        request,
        session_id,
        fingerprint,
        fresh,
        operation,
        conversation,
        first_turn,
        changes,
    );
    let after = tables.after_all(changes);
    assert(after.operations.contains_key(fresh));
    assert(after.has_request(request.request_id));
    let id = choose|id: OperationId| #[trigger]
        after.operations.contains_key(id) && after.operations[id].operation.request_id
            == request.request_id;
    if id != fresh {
        assert(tables.operations.contains_key(id));
    }
}

/// What an inserted turn leaves in the tables.
pub(crate) proof fn lemma_turn_inserted(
    tables: TablesView,
    request: ConversationSendView,
    fingerprint: Seq<char>,
    turn: ConversationTurnView,
    changes: Seq<ChangeView>,
)
    requires
        tables.consistent(),
        turn_admission(tables, request, fingerprint) == Ok::<_, OperatorErrorView>(
            (ConversationTurnAdmissionView::Inserted(turn), changes),
        ),
    ensures
        ({
            let id = request.conversation_id;
            let record = tables.conversations[id];
            let event = event_after(
                highest_sequence(record.events),
                id,
                ConversationEventPayloadView::TurnQueued { turn_id: request.turn_id },
            )->Ok_0;
            &&& tables.conversations.contains_key(id)
            &&& !has_turn(record.turns, request.turn_id)
            &&& tables.after_all(changes) == (TablesView {
                conversations: tables.conversations.insert(
                    id,
                    ConversationRecordView {
                        turns: record.turns.push(TurnRecordView { turn, fingerprint }),
                        events: record.events.push(event),
                        ..record
                    },
                ),
                ..tables
            })
        }),
{
    let id = request.conversation_id;
    let record = tables.conversations[id];
    let event = event_after(
        highest_sequence(record.events),
        id,
        ConversationEventPayloadView::TurnQueued { turn_id: request.turn_id },
    )->Ok_0;
    let insert = ChangeView::InsertTurn(TurnRecordView { turn, fingerprint });
    let append = ChangeView::AppendEvent(event);
    lemma_after_two(tables, insert, append);
    assert(changes =~= seq![insert, append]);
    let middle = ConversationRecordView {
        turns: record.turns.push(TurnRecordView { turn, fingerprint }),
        ..record
    };
    assert(tables.after(insert).conversations =~= tables.conversations.insert(id, middle));
    let done = ConversationRecordView { events: record.events.push(event), ..middle };
    assert(tables.after(insert).after(append).conversations =~= tables.conversations.insert(
        id,
        done,
    ));
}

/// A further turn keeps the numbering: it takes the next position, and its event the next number.
pub proof fn turn_admission_keeps_numbering(
    tables: TablesView,
    request: ConversationSendView,
    fingerprint: Seq<char>,
    turn: ConversationTurnView,
    changes: Seq<ChangeView>,
)
    requires
        tables.consistent(),
        turn_admission(tables, request, fingerprint) == Ok::<_, OperatorErrorView>(
            (ConversationTurnAdmissionView::Inserted(turn), changes),
        ),
        numbered(tables.conversations[request.conversation_id]),
    ensures
        numbered(tables.after_all(changes).conversations[request.conversation_id]),
        timeline_kept(
            tables.conversations[request.conversation_id],
            tables.after_all(changes).conversations[request.conversation_id],
        ),
        turn.position == tables.conversations[request.conversation_id].turns.len() + 1,
{
    lemma_turn_inserted(tables, request, fingerprint, turn, changes);
    let record = tables.conversations[request.conversation_id];
    lemma_highest(record.events);
    lemma_top(record.turns);
}

/// An admitted turn is read back as the last turn of its conversation, after those that were there.
pub proof fn admitted_turn_is_read_back(
    tables: TablesView,
    request: ConversationSendView,
    fingerprint: Seq<char>,
    turn: ConversationTurnView,
    changes: Seq<ChangeView>,
    cursor: u64,
    before: ConversationSnapshotView,
)
    requires
        tables.consistent(),
        turn_admission(tables, request, fingerprint) == Ok::<_, OperatorErrorView>(
            (ConversationTurnAdmissionView::Inserted(turn), changes),
        ),
        conversation_read(tables, request.conversation_id, cursor) == Ok::<_, OperatorErrorView>(
            before,
        ),
    ensures
        conversation_read(tables.after_all(changes), request.conversation_id, cursor) matches Ok(
            after,
        ) && after.turns == before.turns.push(turn) && after.conversation == before.conversation,
        turn.turn_id == request.turn_id,
        turn.prompt == request.prompt,
        turn.state is Queued,
{
    lemma_turn_inserted(tables, request, fingerprint, turn, changes);
    let turns = tables.conversations[request.conversation_id].turns;
    assert(bare_turns(turns.push(TurnRecordView { turn, fingerprint })) =~= bare_turns(turns).push(
        turn,
    ));
}

/// One turn is admitted once: after it was inserted, admitting it again yields that turn with its
/// first fingerprint and changes nothing.
pub proof fn turn_admission_is_idempotent(
    tables: TablesView,
    request: ConversationSendView,
    fingerprint: Seq<char>,
    turn: ConversationTurnView,
    changes: Seq<ChangeView>,
    again: ConversationSendView,
    other_fingerprint: Seq<char>,
)
    requires
        tables.consistent(),
        turn_admission(tables, request, fingerprint) == Ok::<_, OperatorErrorView>(
            (ConversationTurnAdmissionView::Inserted(turn), changes),
        ),
        again.conversation_id == request.conversation_id,
        again.turn_id == request.turn_id,
    ensures
        turn_admission(tables.after_all(changes), again, other_fingerprint) == Ok::<
            _,
            OperatorErrorView,
        >(
            (
                ConversationTurnAdmissionView::Existing { turn, fingerprint },
                Seq::<ChangeView>::empty(),
            ),
        ),
{
    lemma_turn_inserted(tables, request, fingerprint, turn, changes);
    let record = tables.conversations[request.conversation_id];
    let turns = tables.after_all(changes).conversations[request.conversation_id].turns;
    let last = record.turns.len() as int;
    assert(turns[last].turn == turn);
    assert(has_turn(turns, turn.turn_id));
    let place = turn_place(turns, turn.turn_id);
    assert(0 <= place < turns.len() && turns[place].turn.turn_id == turn.turn_id);
    if place != last {
        assert(turns[place] == record.turns[place]);
        assert(has_turn(record.turns, turn.turn_id));
    }
}

/// What an observation leaves in the tables.
pub(crate) proof fn lemma_observed(
    tables: TablesView,
    id: ConversationId,
    turn_id: TurnId,
    state: Option<TurnState>,
    result: Option<Seq<char>>,
    payload: ConversationEventPayloadView,
    observed: ConversationTurnObservationView,
    changes: Seq<ChangeView>,
)
    requires
        tables.consistent(),
        observation(tables, id, turn_id, state, result, payload) == Ok::<_, OperatorErrorView>(
            (observed, changes),
        ),
    ensures
        ({
            let record = tables.conversations[id];
            &&& tables.conversations.contains_key(id)
            &&& tables.after_all(changes) == (TablesView {
                conversations: tables.conversations.insert(
                    id,
                    ConversationRecordView {
                        turns: if state is Some {
                            turns_with(record.turns, observed.turn)
                        } else {
                            record.turns
                        },
                        events: record.events.push(observed.event),
                        ..record
                    },
                ),
                ..tables
            })
        }),
{
    let record = tables.conversations[id];
    assert(tables.conversations.contains_key(id));
    let append = ChangeView::AppendEvent(observed.event);
    let place = turn_place(record.turns, turn_id);
    assert(has_turn(record.turns, turn_id));
    assert(record.turns[place].turn.conversation_id == id);
    if state is Some {
        let update = ChangeView::UpdateTurn(observed.turn);
        lemma_after_two(tables, update, append);
        assert(changes =~= seq![update, append]);
        let middle = ConversationRecordView {
            turns: turns_with(record.turns, observed.turn),
            ..record
        };
        assert(tables.after(update).conversations =~= tables.conversations.insert(id, middle));
        let done = ConversationRecordView { events: record.events.push(observed.event), ..middle };
        assert(tables.after(update).after(append).conversations =~= tables.conversations.insert(
            id,
            done,
        ));
    } else {
        lemma_after_one(tables, append);
        assert(changes =~= seq![append]);
    }
}

/// An observation keeps the numbering and the timeline, and changes nothing outside its
/// conversation.
pub proof fn observation_keeps_numbering(
    tables: TablesView,
    id: ConversationId,
    turn_id: TurnId,
    state: Option<TurnState>,
    result: Option<Seq<char>>,
    payload: ConversationEventPayloadView,
    observed: ConversationTurnObservationView,
    changes: Seq<ChangeView>,
)
    requires
        tables.consistent(),
        observation(tables, id, turn_id, state, result, payload) == Ok::<_, OperatorErrorView>(
            (observed, changes),
        ),
        numbered(tables.conversations[id]),
    ensures
        numbered(tables.after_all(changes).conversations[id]),
        timeline_kept(tables.conversations[id], tables.after_all(changes).conversations[id]),
        tables.after_all(changes).operations == tables.operations,
        tables.after_all(changes).claims == tables.claims,
{
    lemma_observed(tables, id, turn_id, state, result, payload, observed, changes);
    lemma_highest(tables.conversations[id].events);
    let before = tables.conversations[id].turns;
    let after = tables.after_all(changes).conversations[id].turns;
    assert(has_turn(before, turn_id));
    let place = turn_place(before, turn_id);
    assert(0 <= place < before.len() && before[place].turn.turn_id == turn_id);
    assert forall|i: int| 0 <= i < after.len() implies (#[trigger] after[i]).turn.position == i
        + 1 by {
        assert(before[i].turn.position == i + 1);
    }
}

/// A turn that has ended stays as it is: no observation changes it.
pub proof fn terminal_turn_is_final(
    tables: TablesView,
    id: ConversationId,
    turn_id: TurnId,
    state: Option<TurnState>,
    result: Option<Seq<char>>,
    payload: ConversationEventPayloadView,
)
    requires
        tables.conversations.contains_key(id),
        find_turn(tables.conversations[id].turns, turn_id) is Some,
        find_turn(tables.conversations[id].turns, turn_id)->Some_0.turn.state.is_terminal(),
    ensures
        observation(tables, id, turn_id, state, result, payload) is Err,
{
}

/// What an initialization leaves in the tables.
pub(crate) proof fn lemma_initialized(
    tables: TablesView,
    id: ConversationId,
    session_id: SessionId,
    model: Seq<char>,
    claude_version: Option<Seq<char>>,
    event: ConversationEventView,
    changes: Seq<ChangeView>,
)
    requires
        tables.consistent(),
        initialization_recorded(tables, id, session_id, model, claude_version) == Ok::<
            _,
            OperatorErrorView,
        >((event, changes)),
    ensures
        ({
            let record = tables.conversations[id];
            let stored = tables.operations[id.0];
            let observed = OperationView {
                observed_session_id: Some(session_id),
                observed_model: Some(model),
                observed_claude_version: claude_version,
                ..stored.operation
            };
            &&& tables.conversations.contains_key(id)
            &&& tables.operations.contains_key(id.0)
            &&& tables.after_all(changes) == (TablesView {
                conversations: tables.conversations.insert(
                    id,
                    ConversationRecordView { events: record.events.push(event), ..record },
                ),
                operations: tables.operations.insert(
                    id.0,
                    OperationRecordView { operation: observed, ..stored },
                ),
                ..tables
            })
        }),
{
    let record = tables.conversations[id];
    let stored = tables.operations[id.0];
    let observed = OperationView {
        observed_session_id: Some(session_id),
        observed_model: Some(model),
        observed_claude_version: claude_version,
        ..stored.operation
    };
    assert(tables.conversations.contains_key(id));
    assert(tables.operations.contains_key(id.0));
    let append = ChangeView::AppendEvent(event);
    if changes.len() == 1 {
        lemma_after_one(tables, append);
        assert(changes =~= seq![append]);
        assert(tables.operations =~= tables.operations.insert(
            id.0,
            OperationRecordView { operation: observed, ..stored },
        ));
    } else {
        let update = ChangeView::UpdateOperation(observed);
        lemma_after_two(tables, update, append);
        assert(changes =~= seq![update, append]);
    }
}

/// An initialization keeps the numbering and the timeline, keeps every unfinished operation
/// claimed, and makes what it says what the operation observed.
pub proof fn initialization_keeps_numbering(
    tables: TablesView,
    id: ConversationId,
    session_id: SessionId,
    model: Seq<char>,
    claude_version: Option<Seq<char>>,
    event: ConversationEventView,
    changes: Seq<ChangeView>,
)
    requires
        tables.consistent(),
        writers_claimed(tables),
        initialization_recorded(tables, id, session_id, model, claude_version) == Ok::<
            _,
            OperatorErrorView,
        >((event, changes)),
        numbered(tables.conversations[id]),
    ensures
        numbered(tables.after_all(changes).conversations[id]),
        timeline_kept(tables.conversations[id], tables.after_all(changes).conversations[id]),
        writers_claimed(tables.after_all(changes)),
        tables.after_all(changes).operation(id.0) == Some(
            OperationView {
                observed_session_id: Some(session_id),
                observed_model: Some(model),
                observed_claude_version: claude_version,
                ..tables.operations[id.0].operation
            },
        ),
{
    lemma_initialized(tables, id, session_id, model, claude_version, event, changes);
    lemma_highest(tables.conversations[id].events);
    let after = tables.after_all(changes);
    assert forall|other: OperationId| #[trigger]
        after.operations.contains_key(other)
            && !after.operations[other].operation.state.is_terminal() implies lookup(
        after.claims,
        after.operations[other].operation.session_id,
    ) == Some(
        Claim { session_id: after.operations[other].operation.session_id, operation_id: other },
    ) by {
        assert(tables.operations.contains_key(other));
    }
}

/// The identity of a provider never changes within one conversation: after one initialization was
/// recorded, a different one is a conflict.
pub proof fn initialization_is_stable(
    tables: TablesView,
    id: ConversationId,
    session_id: SessionId,
    model: Seq<char>,
    claude_version: Option<Seq<char>>,
    event: ConversationEventView,
    changes: Seq<ChangeView>,
    other_model: Seq<char>,
    other_version: Option<Seq<char>>,
)
    requires
        tables.consistent(),
        initialization_recorded(tables, id, session_id, model, claude_version) == Ok::<
            _,
            OperatorErrorView,
        >((event, changes)),
        other_model != model || other_version != claude_version,
    ensures
        initialization_recorded(
            tables.after_all(changes),
            id,
            session_id,
            other_model,
            other_version,
        ) == Err::<(ConversationEventView, Seq<ChangeView>), _>(
            conflict("provider initialization contradicts prior conversation identity"@),
        ),
{
    lemma_initialized(tables, id, session_id, model, claude_version, event, changes);
    let record = tables.conversations[id];
    let events = tables.after_all(changes).conversations[id].events;
    assert(events[record.events.len() as int] == event);
    assert(event.payload == initialization(session_id, model, claude_version));
}

/// Closing changes the conversation alone: its turns, its timeline, the operations and the claims
/// stay.
pub proof fn closing_keeps_the_rest(
    tables: TablesView,
    id: ConversationId,
    requested: ConversationStopMode,
    closed: ConversationCloseAdmissionView,
    changes: Seq<ChangeView>,
)
    requires
        tables.consistent(),
        closing(tables, id, requested) == Ok::<_, OperatorErrorView>((closed, changes)),
    ensures
        ({
            let after = tables.after_all(changes);
            &&& after.operations == tables.operations
            &&& after.claims == tables.claims
            &&& after.conversations.contains_key(id)
            &&& after.conversations[id].turns == tables.conversations[id].turns
            &&& after.conversations[id].events == tables.conversations[id].events
            &&& after.conversations[id].conversation == (match closed {
                ConversationCloseAdmissionView::ClosedNow { conversation, .. } => conversation,
                ConversationCloseAdmissionView::AlreadyClosing(conversation) => conversation,
                ConversationCloseAdmissionView::EscalatedToCancel(conversation) => conversation,
                ConversationCloseAdmissionView::Terminal(conversation) => conversation,
            })
        }),
{
    assert(tables.conversations.contains_key(id));
    let conversation = match closed {
        ConversationCloseAdmissionView::ClosedNow { conversation, .. } => conversation,
        ConversationCloseAdmissionView::AlreadyClosing(conversation) => conversation,
        ConversationCloseAdmissionView::EscalatedToCancel(conversation) => conversation,
        ConversationCloseAdmissionView::Terminal(conversation) => conversation,
    };
    if changes.len() == 0 {
        assert(changes =~= Seq::empty());
    } else {
        lemma_after_one(tables, ChangeView::UpdateConversation(conversation));
        assert(changes =~= seq![ChangeView::UpdateConversation(conversation)]);
    }
}

/// A closed conversation admits no further turn: a new one is answered with the conversation.
pub proof fn closed_conversation_admits_no_turn(
    tables: TablesView,
    request: ConversationSendView,
    fingerprint: Seq<char>,
)
    requires
        tables.conversations.contains_key(request.conversation_id),
        !(tables.conversations[request.conversation_id].conversation.state is Open),
        !has_turn(tables.conversations[request.conversation_id].turns, request.turn_id),
    ensures
        turn_admission(tables, request, fingerprint) == Ok::<_, OperatorErrorView>(
            (
                ConversationTurnAdmissionView::Closed {
                    conversation: tables.conversations[request.conversation_id].conversation,
                },
                Seq::<ChangeView>::empty(),
            ),
        ),
{
}

/// The events of resolved turns are numbered on from the timeline.
pub(crate) proof fn lemma_resolution_numbered(
    turns: Seq<TurnRecordView>,
    id: ConversationId,
    ended: ConversationState,
    highest: u64,
)
    requires
        highest + resolution_events(turns, id, ended, highest).len() <= u64::MAX,
    ensures
        forall|i: int|
            0 <= i < resolution_events(turns, id, ended, highest).len() ==> (
            #[trigger] resolution_events(turns, id, ended, highest)[i]).sequence == highest + i + 1,
        forall|i: int|
            0 <= i < resolution_events(turns, id, ended, highest).len() ==> !((
            #[trigger] resolution_events(
                turns,
                id,
                ended,
                highest,
            )[i]).payload is ConversationTerminal),
    decreases turns.len(),
{
    if turns.len() > 0 {
        lemma_resolution_numbered(turns.drop_last(), id, ended, highest);
    }
}

/// What an ended conversation looks like: no turn is unfinished, the timeline is kept and ends with
/// the outcome, and the record stays numbered.
pub proof fn ended_record_is_complete(
    record: ConversationRecordView,
    ended: ConversationState,
    terminal: TerminalOutcomeView,
)
    requires
        numbered(record),
        ended.is_terminal(),
        record.events.len() + resolution_events(
            record.turns,
            record.conversation.conversation_id,
            ended,
            highest_sequence(record.events),
        ).len() < u64::MAX,
    ensures
        numbered(ended_record(record, ended, terminal)),
        timeline_kept(record, ended_record(record, ended, terminal)),
        forall|i: int|
            0 <= i < record.turns.len() ==> (#[trigger] ended_record(
                record,
                ended,
                terminal,
            ).turns[i]).turn.state.is_terminal(),
        ended_record(record, ended, terminal).events.last().payload
            == (ConversationEventPayloadView::ConversationTerminal { outcome: terminal }),
{
    let id = record.conversation.conversation_id;
    lemma_highest(record.events);
    let highest = highest_sequence(record.events);
    lemma_resolution_numbered(record.turns, id, ended, highest);
    let done = ended_record(record, ended, terminal);
    let added = resolution_events(record.turns, id, ended, highest);
    assert forall|i: int| 0 <= i < done.events.len() implies (#[trigger] done.events[i]).sequence
        == i + 1 by {
        if i < record.events.len() {
            assert(done.events[i] == record.events[i]);
        } else if i < record.events.len() + added.len() {
            assert(done.events[i] == added[i - record.events.len()]);
        }
    }
    assert forall|i: int| 0 <= i < done.turns.len() implies (#[trigger] done.turns[i]).turn.position
        == i + 1 by {
        assert(record.turns[i].turn.position == i + 1);
    }
}

/// What a termination that ends a conversation leaves in the tables.
pub(crate) proof fn lemma_terminated(
    tables: TablesView,
    id: ConversationId,
    conversation_state: ConversationState,
    operation_state: OperationState,
    terminal: TerminalOutcomeView,
    disposition: SessionClaimDisposition,
    ended: ConversationView,
    changes: Seq<ChangeView>,
)
    requires
        tables.consistent(),
        termination(
            tables,
            id,
            conversation_state,
            operation_state,
            terminal,
            disposition,
        ) == Ok::<_, OperatorErrorView>((ended, changes)),
        live(tables, id),
    ensures
        ({
            let after = tables.after_all(changes);
            let stored = tables.operations[id.0];
            &&& tables.operations.contains_key(id.0)
            &&& !stored.operation.state.is_terminal()
            &&& after.conversations == tables.conversations.insert(
                id,
                ended_record(tables.conversations[id], conversation_state, terminal),
            )
            &&& after.operations == tables.operations.insert(
                id.0,
                OperationRecordView {
                    operation: ended_operation(stored.operation, operation_state, terminal),
                    ..stored
                },
            )
            &&& after.diagnostics == tables.diagnostics
            &&& disposition is RetainUnclassifiedWriter ==> after.claims == tables.claims
            &&& disposition is ReleaseProvenWriter ==> {
                &&& !after.has_claim(id.0)
                &&& forall|session: SessionId| #[trigger]
                    after.claims.contains_key(session) ==> tables.claims.contains_key(session)
                        && after.claims[session] == tables.claims[session]
                &&& forall|session: SessionId| #[trigger]
                    tables.claims.contains_key(session) && tables.claims[session].operation_id
                        != id.0 ==> after.claims.contains_key(session)
            }
        }),
{
    let record = tables.conversations[id];
    let operation = tables.operation(id.0)->Some_0;
    assert(tables.operations.contains_key(id.0));
    assert(record.conversation.conversation_id == id);
    assert(operation.operation_id == id.0);
    let writes = ending(
        record,
        operation,
        conversation_state,
        operation_state,
        terminal,
    )->Ok_0;
    lemma_ending(
        tables,
        record,
        operation,
        conversation_state,
        operation_state,
        terminal,
        writes,
    );
    if disposition is ReleaseProvenWriter {
        lemma_after_push(tables, writes, ChangeView::ReleaseSession { operation_id: id.0 });
    }
}

/// Ending a live conversation ends its operation with the same outcome, keeps every unfinished
/// operation claimed, and releases the claim of the writer exactly where the writer is proven to
/// have exited.
pub proof fn termination_keeps_writers(
    tables: TablesView,
    id: ConversationId,
    conversation_state: ConversationState,
    operation_state: OperationState,
    terminal: TerminalOutcomeView,
    disposition: SessionClaimDisposition,
    ended: ConversationView,
    changes: Seq<ChangeView>,
)
    requires
        tables.consistent(),
        writers_claimed(tables),
        live(tables, id),
        termination(
            tables,
            id,
            conversation_state,
            operation_state,
            terminal,
            disposition,
        ) == Ok::<_, OperatorErrorView>((ended, changes)),
    ensures
        writers_claimed(tables.after_all(changes)),
        tables.after_all(changes).has_claim(id.0) <==> disposition is RetainUnclassifiedWriter,
        tables.after_all(changes).operation(id.0)->Some_0.terminal_outcome == Some(terminal),
        tables.after_all(changes).conversations[id].conversation == ended,
        ended.terminal_outcome == Some(terminal),
{
    lemma_terminated(
        tables,
        id,
        conversation_state,
        operation_state,
        terminal,
        disposition,
        ended,
        changes,
    );
    let after = tables.after_all(changes);
    assert forall|other: OperationId| #[trigger]
        after.operations.contains_key(other)
            && !after.operations[other].operation.state.is_terminal() implies lookup(
        after.claims,
        after.operations[other].operation.session_id,
    ) == Some(
        Claim { session_id: after.operations[other].operation.session_id, operation_id: other },
    ) by {
        assert(other != id.0);
        assert(tables.operations.contains_key(other));
        assert(tables.claims.contains_key(tables.operations[other].operation.session_id));
    }
    let session = tables.operations[id.0].operation.session_id;
    assert(tables.claims.contains_key(session));
    if disposition is RetainUnclassifiedWriter {
        assert(after.claims.contains_key(session));
    }
}

/// A conversation ends once: the same end again changes nothing, and any other is a conflict.
pub proof fn termination_is_final(
    tables: TablesView,
    id: ConversationId,
    conversation_state: ConversationState,
    operation_state: OperationState,
    terminal: TerminalOutcomeView,
    disposition: SessionClaimDisposition,
    ended: ConversationView,
    changes: Seq<ChangeView>,
    other_state: ConversationState,
    other_operation_state: OperationState,
    other_terminal: TerminalOutcomeView,
    other_disposition: SessionClaimDisposition,
)
    requires
        tables.consistent(),
        live(tables, id),
        termination(
            tables,
            id,
            conversation_state,
            operation_state,
            terminal,
            disposition,
        ) == Ok::<_, OperatorErrorView>((ended, changes)),
    ensures
        termination(
            tables.after_all(changes),
            id,
            conversation_state,
            operation_state,
            terminal,
            disposition,
        ) == Ok::<_, OperatorErrorView>((ended, Seq::<ChangeView>::empty())),
        other_terminal != terminal && other_state.is_terminal()
            && other_operation_state.is_terminal() && (other_disposition is RetainUnclassifiedWriter
            ==> other_state is Indeterminate) && ends_agree(
            other_state,
            other_operation_state,
            other_terminal,
        ) ==> termination(
            tables.after_all(changes),
            id,
            other_state,
            other_operation_state,
            other_terminal,
            other_disposition,
        ) == Err::<(ConversationView, Seq<ChangeView>), _>(
            conflict("conversation already has a different terminal outcome"@),
        ),
        other_terminal != terminal ==> termination(
            tables.after_all(changes),
            id,
            other_state,
            other_operation_state,
            other_terminal,
            other_disposition,
        ) is Err,
{
    lemma_terminated(
        tables,
        id,
        conversation_state,
        operation_state,
        terminal,
        disposition,
        ended,
        changes,
    );
}

/// After a restart nothing is unfinished: no operation, no conversation, and no turn of a
/// conversation that the restart ended; and every claim stays.
pub proof fn recovery_leaves_nothing_unfinished(tables: TablesView)
    requires
        tables.consistent(),
    ensures
        recovered(tables).claims == tables.claims,
        recovered(tables).projects == tables.projects,
        recovered(tables).bindings == tables.bindings,
        forall|id: OperationId| #[trigger]
            recovered(tables).operations.contains_key(id) ==> recovered(
                tables,
            ).operations[id].operation.state.is_terminal(),
        forall|id: ConversationId| #[trigger]
            recovered(tables).conversations.contains_key(id) ==> recovered(
                tables,
            ).conversations[id].conversation.state.is_terminal(),
        forall|id: ConversationId, i: int|
            live(tables, id) && 0 <= i < tables.conversations[id].turns.len() ==> (
            #[trigger] recovered(tables).conversations[id].turns[i]).turn.state.is_terminal(),
{
}

/// A second recovery changes nothing: what a restart left is already classified.
pub proof fn recovery_is_idempotent(tables: TablesView)
    ensures
        recovered(recovered(tables)) == recovered(tables),
        forall|id: ConversationId| !#[trigger] live(recovered(tables), id),
{
    let once = recovered(tables);
    assert forall|id: ConversationId| !#[trigger] live(once, id) by {}
    assert(recovered(once).conversations =~= once.conversations);
    assert(recovered(once).operations =~= once.operations);
}

/// After a restart a session that an interrupted operation held stays held: a request for it is
/// answered with that operation, now indeterminate.
pub proof fn recovery_holds_interrupted_sessions(
    tables: TablesView,
    holder: OperationId,
    request: crate::contract::control::OperationStartView,
    fingerprint: Seq<char>,
    fresh: OperationId,
)
    requires
        tables.consistent(),
        writers_claimed(tables),
        tables.operations.contains_key(holder),
        !tables.operations[holder].operation.state.is_terminal(),
        !recovered(tables).has_request(request.request_id),
        tables.projects.contains_key(request.project_id),
    ensures
        ({
            let session = tables.operations[holder].operation.session_id;
            let interrupted = recovered_operation(tables, tables.operations[holder].operation);
            &&& interrupted.state == OperationState::Indeterminate
            &&& admission(recovered(tables), request, session, fingerprint, fresh) == Ok::<
                _,
                OperatorErrorView,
            >(
                (
                    crate::contract::control::OperationAdmissionView::ActiveSession {
                        operation: interrupted,
                    },
                    Seq::<ChangeView>::empty(),
                ),
            )
        }),
{
    assert(recovered(tables).operations.contains_key(holder));
}

} // verus!
