//! Recovery after a restart: what was left running is classified as indeterminate.

use vstd::prelude::*;

use crate::contract::control::{
    state_failure, ConversationState, OperationState, OperationView, OperatorError,
    OperatorErrorView, TerminalOutcome, TerminalOutcomeView,
};
use crate::contract::identity::{ConversationId, OperationId};
use crate::state::conversation::{end_changes, ended_operation, ending};
use crate::state::ending::{ended_record, lemma_ending};
use crate::keyed::lookup;
use crate::state::tables::{
    lemma_after_concat, lemma_after_push, Change, ChangeView, ConversationRecordView,
    OperationRecordView, Tables, TablesView,
};
use crate::text::views;

verus! {

/// The outcome of a conversation that a restart interrupted.
pub open spec fn interrupted_conversation() -> TerminalOutcomeView {
    TerminalOutcomeView::Indeterminate(
        "daemon restarted before persistent conversation was classified"@,
    )
}

/// The outcome of a one-shot operation that a restart interrupted.
pub open spec fn interrupted_operation() -> TerminalOutcomeView {
    TerminalOutcomeView::Indeterminate("daemon restarted before direct child was classified"@)
}

/// Whether the conversation exists and has not ended.
pub open spec fn live(tables: TablesView, id: ConversationId) -> bool {
    tables.conversations.contains_key(id)
        && !tables.conversations[id].conversation.state.is_terminal()
}

/// The end of a live conversation by a restart, or why it cannot be ended.
pub open spec fn interruption(tables: TablesView, id: ConversationId) -> Result<
    Seq<ChangeView>,
    OperatorErrorView,
> {
    match tables.operation(id.0) {
        None => Err(state_failure("conversation references no operation"@)),
        Some(operation) => if operation.state.is_terminal() {
            Err(
                state_failure(
                    "live conversation references a terminal operation during recovery"@,
                ),
            )
        } else {
            ending(
                tables.conversations[id],
                operation,
                ConversationState::Indeterminate,
                OperationState::Indeterminate,
                interrupted_conversation(),
            )
        },
    }
}

/// The record of a conversation after recovery.
pub open spec fn recovered_record(record: ConversationRecordView) -> ConversationRecordView {
    if record.conversation.state.is_terminal() {
        record
    } else {
        ended_record(record, ConversationState::Indeterminate, interrupted_conversation())
    }
}

/// The operation after recovery: one that carries a live conversation ends with it, any other
/// unfinished one ends by itself.
pub open spec fn recovered_operation(tables: TablesView, operation: OperationView) -> OperationView {
    if live(tables, ConversationId(operation.operation_id)) {
        ended_operation(operation, OperationState::Indeterminate, interrupted_conversation())
    } else if !operation.state.is_terminal() {
        ended_operation(operation, OperationState::Indeterminate, interrupted_operation())
    } else {
        operation
    }
}

/// The tables after recovery. Projects, claims, diagnostics and bindings stay.
pub open spec fn recovered(tables: TablesView) -> TablesView {
    TablesView {
        conversations: tables.conversations.map_values(
            |record: ConversationRecordView| recovered_record(record),
        ),
        operations: tables.operations.map_values(
            |record: OperationRecordView|
                OperationRecordView {
                    operation: recovered_operation(tables, record.operation),
                    ..record
                },
        ),
        ..tables
    }
}

/// The tables while the conversations in `done` have been recovered.
spec fn conversations_recovered(tables: TablesView, done: Set<ConversationId>) -> TablesView {
    TablesView {
        conversations: Map::new(
            |id: ConversationId| tables.conversations.contains_key(id),
            |id: ConversationId|
                if done.contains(id) {
                    recovered_record(tables.conversations[id])
                } else {
                    tables.conversations[id]
                },
        ),
        operations: Map::new(
            |id: OperationId| tables.operations.contains_key(id),
            |id: OperationId|
                if done.contains(ConversationId(id)) && live(tables, ConversationId(id)) {
                    OperationRecordView {
                        operation: recovered_operation(tables, tables.operations[id].operation),
                        ..tables.operations[id]
                    }
                } else {
                    tables.operations[id]
                },
        ),
        ..tables
    }
}

/// The tables while every conversation and the operations in `done` have been recovered.
spec fn operations_recovered(tables: TablesView, done: Set<OperationId>) -> TablesView {
    TablesView {
        conversations: recovered(tables).conversations,
        operations: Map::new(
            |id: OperationId| tables.operations.contains_key(id),
            |id: OperationId|
                if done.contains(id) || live(tables, ConversationId(id)) {
                    OperationRecordView {
                        operation: recovered_operation(tables, tables.operations[id].operation),
                        ..tables.operations[id]
                    }
                } else {
                    tables.operations[id]
                },
        ),
        ..tables
    }
}

/// One more conversation is recovered by the writes of its interruption.
proof fn lemma_conversation_step(
    tables: TablesView,
    done: Set<ConversationId>,
    id: ConversationId,
    changes: Seq<ChangeView>,
)
    requires
        tables.consistent(),
        live(tables, id),
        !done.contains(id),
        interruption(tables, id) == Ok::<_, OperatorErrorView>(changes),
    ensures
        conversations_recovered(tables, done).after_all(changes) == conversations_recovered(
            tables,
            done.insert(id),
        ),
{
    let now = conversations_recovered(tables, done);
    let record = tables.conversations[id];
    let operation = tables.operation(id.0)->Some_0;
    assert(tables.operations.contains_key(id.0));
    assert(lookup(now.conversations, id) == Some(record));
    assert(now.operation(id.0) == Some(operation));
    assert(now.consistent()) by {
        assert forall|other: ConversationId| #[trigger]
            now.conversations.contains_key(other) implies {
            &&& now.conversations[other].conversation.conversation_id == other
            &&& crate::state::tables::turns_distinct(now.conversations[other].turns)
            &&& crate::state::tables::turns_belong(now.conversations[other].turns, other)
        } by {
            assert(tables.conversations.contains_key(other));
            let before = tables.conversations[other].turns;
            let after = now.conversations[other].turns;
            assert(after.len() == before.len());
            assert forall|i: int| 0 <= i < before.len() implies (#[trigger] after[i]).turn.turn_id
                == before[i].turn.turn_id && after[i].turn.conversation_id
                == before[i].turn.conversation_id by {}
            assert forall|i: int, j: int|
                #![trigger after[i], after[j]]
                0 <= i < after.len() && 0 <= j < after.len() && after[i].turn.turn_id
                    == after[j].turn.turn_id implies i == j by {
                assert(before[i].turn.turn_id == before[j].turn.turn_id);
            }
        }
        assert forall|other: OperationId| #[trigger]
            now.operations.contains_key(other) implies now.operations[other].operation.operation_id
            == other && now.operations[other].operation.request_id
            == tables.operations[other].operation.request_id by {
            assert(tables.operations.contains_key(other));
        }
        assert forall|left: OperationId, right: OperationId|
            #![trigger now.operations.contains_key(left), now.operations.contains_key(right)]
            now.operations.contains_key(left) && now.operations.contains_key(right)
                && now.operations[left].operation.request_id
                == now.operations[right].operation.request_id implies left == right by {
            assert(tables.operations.contains_key(left));
            assert(tables.operations.contains_key(right));
        }
    }
    lemma_ending(
        now,
        record,
        operation,
        ConversationState::Indeterminate,
        OperationState::Indeterminate,
        interrupted_conversation(),
        changes,
    );
    let after = now.after_all(changes);
    let wanted = conversations_recovered(tables, done.insert(id));
    assert(operation.operation_id == id.0);
    assert forall|other: OperationId| #[trigger]
        after.operations.contains_key(other) == wanted.operations.contains_key(other) by {}
    assert forall|other: OperationId| #[trigger]
        wanted.operations.contains_key(other) implies after.operations[other]
        == wanted.operations[other] by {
        if other != id.0 {
            assert(ConversationId(other) != id);
        }
    }
    assert(after.conversations =~= wanted.conversations);
    assert(after.operations =~= wanted.operations);
}

/// One more operation is recovered by its rewrite.
proof fn lemma_operation_step(
    tables: TablesView,
    done: Set<OperationId>,
    operation: OperationView,
)
    requires
        tables.consistent(),
        tables.operation(operation.operation_id) == Some(operation),
        !done.contains(operation.operation_id),
        !operation.state.is_terminal(),
        !live(tables, ConversationId(operation.operation_id)),
    ensures
        operations_recovered(tables, done).after(
            ChangeView::UpdateOperation(recovered_operation(tables, operation)),
        ) == operations_recovered(tables, done.insert(operation.operation_id)),
{
    let id = operation.operation_id;
    let now = operations_recovered(tables, done);
    assert(tables.operations.contains_key(id));
    assert(now.operations.contains_key(id));
    let after = now.after(ChangeView::UpdateOperation(recovered_operation(tables, operation)));
    let wanted = operations_recovered(tables, done.insert(id));
    assert(after.operations =~= wanted.operations);
}

impl Tables {
    /// The writes that interrupt every live conversation.
    fn interrupt_conversations(&self) -> (interrupted: Result<Vec<Change>, OperatorError>)
        requires
            self.well_formed(),
        ensures
            match interrupted {
                Ok(changes) => {
                    &&& forall|id: ConversationId| #[trigger]
                        live(self@, id) ==> interruption(self@, id) is Ok
                    &&& self@.after_all(views(changes@)) == operations_recovered(
                        self@,
                        Set::empty(),
                    )
                },
                Err(error) => exists|id: ConversationId| #[trigger]
                    live(self@, id) && interruption(self@, id) == Err::<Seq<ChangeView>, _>(error@),
            },
    {
        let ghost rows = self.conversation_rows();
        let ghost done: Set<ConversationId> = Set::empty();
        let mut changes: Vec<Change> = Vec::new();
        proof {
            self.lemma_conversation_rows();
            self.lemma_consistent();
            assert(views(changes@) =~= Seq::<ChangeView>::empty());
            let start = conversations_recovered(self@, done);
            assert(start.conversations =~= self@.conversations);
            assert(start.operations =~= self@.operations);
        }
        let mut index: usize = 0;
        while index < self.conversation_count()
            invariant
                index <= rows.len(),
                rows == self.conversation_rows(),
                self.well_formed(),
                self@.consistent(),
                forall|i: int|
                    #![trigger rows[i]]
                    0 <= i < rows.len() ==> lookup(
                        self@.conversations,
                        rows[i].conversation.conversation_id,
                    ) == Some(rows[i]),
                forall|i: int, j: int|
                    #![trigger rows[i], rows[j]]
                    0 <= i < rows.len() && 0 <= j < rows.len()
                        && rows[i].conversation.conversation_id
                        == rows[j].conversation.conversation_id ==> i == j,
                forall|id: ConversationId| #[trigger]
                    done.contains(id) <==> exists|i: int|
                        0 <= i < index && (#[trigger] rows[i]).conversation.conversation_id == id,
                forall|id: ConversationId|
                    done.contains(id) && #[trigger] live(self@, id) ==> interruption(
                        self@,
                        id,
                    ) is Ok,
                self@.after_all(views(changes@)) == conversations_recovered(self@, done),
            decreases rows.len() - index,
        {
            let record = self.conversation_at(index);
            let id = record.conversation.conversation_id;
            let ghost before = views(changes@);
            let ghost earlier = done;
            proof {
                assert(rows[index as int] == record@);
                assert(!done.contains(id));
                assert(self@.conversations.contains_key(id));
                done = done.insert(id);
                assert forall|other: ConversationId| #[trigger]
                    done.contains(other) <==> exists|i: int|
                        0 <= i < index + 1 && (#[trigger] rows[i]).conversation.conversation_id
                            == other by {
                    if other == id {
                        assert(rows[index as int].conversation.conversation_id == id);
                    }
                }
            }
            if !record.conversation.state.terminal() {
                proof {
                    assert(live(self@, id));
                }
                let operation = match self.operation(id.operation_id()) {
                    Some(found) => &found.operation,
                    None => {
                        return Err(
                            OperatorError::State("conversation references no operation".to_owned()),
                        );
                    },
                };
                if operation.state.terminal() {
                    return Err(
                        OperatorError::State(
                            "live conversation references a terminal operation during recovery".to_owned(),
                        ),
                    );
                }
                let terminal = TerminalOutcome::Indeterminate(
                    "daemon restarted before persistent conversation was classified".to_owned(),
                );
                match end_changes(
                    record,
                    operation,
                    ConversationState::Indeterminate,
                    OperationState::Indeterminate,
                    &terminal,
                ) {
                    Ok(mut more) => {
                        let ghost added = views(more@);
                        proof {
                            lemma_conversation_step(self@, earlier, id, added);
                            lemma_after_concat(self@, before, added);
                        }
                        changes.append(&mut more);
                        proof {
                            assert(views(changes@) =~= before + added);
                        }
                    },
                    Err(error) => {
                        return Err(error);
                    },
                }
            } else {
                proof {
                    let same = conversations_recovered(self@, earlier);
                    let wanted = conversations_recovered(self@, done);
                    assert(same.conversations =~= wanted.conversations);
                    assert(same.operations =~= wanted.operations);
                }
            }
            index = index + 1;
        }
        proof {
            self.lemma_conversation_rows();
            assert forall|id: ConversationId| #[trigger]
                self@.conversations.contains_key(id) implies done.contains(id) by {
                let i = choose|i: int|
                    0 <= i < rows.len() && #[trigger] rows[i] == self@.conversations[id];
                assert(rows[i].conversation.conversation_id == id);
            }
            let end = conversations_recovered(self@, done);
            let wanted = operations_recovered(self@, Set::empty());
            assert(end.conversations =~= wanted.conversations);
            assert(end.operations =~= wanted.operations);
            assert forall|id: ConversationId| #[trigger] live(self@, id) implies interruption(
                self@,
                id,
            ) is Ok by {
                assert(done.contains(id));
            }
        }
        Ok(changes)
    }

    /// Classifies as indeterminate whatever the last run of the daemon left unfinished. It fails
    /// only where some live conversation cannot be ended.
    pub fn recover_current_daemon_incomplete(&self) -> (recovery: Result<
        Vec<Change>,
        OperatorError,
    >)
        requires
            self.well_formed(),
        ensures
            match recovery {
                Ok(changes) => {
                    &&& forall|id: ConversationId| #[trigger]
                        live(self@, id) ==> interruption(self@, id) is Ok
                    &&& self@.after_all(views(changes@)) == recovered(self@)
                },
                Err(error) => exists|id: ConversationId| #[trigger]
                    live(self@, id) && interruption(self@, id) == Err::<Seq<ChangeView>, _>(error@),
            },
    {
        let mut changes = match self.interrupt_conversations() {
            Ok(changes) => changes,
            Err(error) => {
                return Err(error);
            },
        };
        let ghost rows = self.operation_rows();
        let ghost done: Set<OperationId> = Set::empty();
        proof {
            self.lemma_operation_rows();
            self.lemma_consistent();
        }
        let mut index: usize = 0;
        while index < self.operation_count()
            invariant
                index <= rows.len(),
                rows == self.operation_rows(),
                self.well_formed(),
                self@.consistent(),
                forall|id: ConversationId| #[trigger]
                    live(self@, id) ==> interruption(self@, id) is Ok,
                forall|i: int|
                    #![trigger rows[i]]
                    0 <= i < rows.len() ==> lookup(
                        self@.operations,
                        rows[i].operation.operation_id,
                    ) == Some(rows[i]),
                forall|i: int, j: int|
                    #![trigger rows[i], rows[j]]
                    0 <= i < rows.len() && 0 <= j < rows.len() && rows[i].operation.operation_id
                        == rows[j].operation.operation_id ==> i == j,
                forall|id: OperationId| #[trigger]
                    done.contains(id) <==> exists|i: int|
                        0 <= i < index && (#[trigger] rows[i]).operation.operation_id == id,
                self@.after_all(views(changes@)) == operations_recovered(self@, done),
            decreases rows.len() - index,
        {
            let operation = &self.operation_at(index).operation;
            let id = operation.operation_id;
            let ghost before = views(changes@);
            let ghost earlier = done;
            proof {
                assert(rows[index as int].operation == operation@);
                assert(!done.contains(id));
                done = done.insert(id);
                assert forall|other: OperationId| #[trigger]
                    done.contains(other) <==> exists|i: int|
                        0 <= i < index + 1 && (#[trigger] rows[i]).operation.operation_id
                            == other by {
                    if other == id {
                        assert(rows[index as int].operation.operation_id == id);
                    }
                }
            }
            let interrupted = match self.conversation(ConversationId::new(id)) {
                Some(record) => !record.conversation.state.terminal(),
                None => false,
            };
            proof {
                assert(interrupted == live(self@, ConversationId(id)));
            }
            if !operation.state.terminal() && !interrupted {
                let mut ended = operation.clone();
                ended.state = OperationState::Indeterminate;
                ended.terminal_outcome = Some(
                    TerminalOutcome::Indeterminate(
                        "daemon restarted before direct child was classified".to_owned(),
                    ),
                );
                proof {
                    assert(ended@ == recovered_operation(self@, operation@));
                    lemma_operation_step(self@, earlier, operation@);
                    lemma_after_push(self@, before, ChangeView::UpdateOperation(ended@));
                }
                changes.push(Change::UpdateOperation(ended));
                proof {
                    assert(views(changes@) =~= before.push(ChangeView::UpdateOperation(ended@)));
                }
            } else {
                proof {
                    let same = operations_recovered(self@, earlier);
                    let wanted = operations_recovered(self@, done);
                    assert(same.operations =~= wanted.operations);
                }
            }
            index = index + 1;
        }
        proof {
            self.lemma_operation_rows();
            assert forall|id: OperationId| #[trigger]
                self@.operations.contains_key(id) implies done.contains(id) by {
                let i = choose|i: int|
                    0 <= i < rows.len() && #[trigger] rows[i] == self@.operations[id];
                assert(rows[i].operation.operation_id == id);
            }
            let end = operations_recovered(self@, done);
            let wanted = recovered(self@);
            assert(end.operations =~= wanted.operations);
        }
        Ok(changes)
    }
}

} // verus!
