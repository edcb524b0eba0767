//! The durable tables, the writes that change them, and what a write does.

use vstd::prelude::*;

use crate::contract::control::{
    Conversation, ConversationEvent, ConversationEventView, ConversationTurn, ConversationTurnView,
    ConversationView, InitiatorBinding, InitiatorBindingView, InitiatorIdentity,
    InitiatorIdentityView, Operation, OperationDiagnostic, OperationView, ProjectRegistration,
    ProjectRegistrationView,
};
use crate::contract::identity::{
    ConversationId, OperationId, ProjectId, RequestId, SessionId, TurnId,
};
use crate::keyed::{
    distinct, keyed, lemma_absent, lemma_present, lemma_push, lemma_remove, lemma_row, lemma_update,
    lookup, with_new,
};
use crate::text::{optional, views};

verus! {

/// An operation with the fingerprint of the request that admitted it.
#[derive(Debug, PartialEq, Eq)]
pub struct OperationRecord {
    pub operation: Operation,
    pub fingerprint: String,
}

/// The mathematical content of [`OperationRecord`].
#[verifier::ext_equal]
pub struct OperationRecordView {
    pub operation: OperationView,
    pub fingerprint: Seq<char>,
}

impl View for OperationRecord {
    type V = OperationRecordView;

    open spec fn view(&self) -> OperationRecordView {
        OperationRecordView {
            operation: self.operation@,
            fingerprint: self.fingerprint@,
        }
    }
}

impl Clone for OperationRecord {
    fn clone(&self) -> (copy: Self)
        ensures
            copy@ == self@,
    {
        OperationRecord {
            operation: self.operation.clone(),
            fingerprint: self.fingerprint.clone(),
        }
    }
}

/// A turn with the fingerprint of the request that admitted it.
#[derive(Debug, PartialEq, Eq)]
pub struct TurnRecord {
    pub turn: ConversationTurn,
    pub fingerprint: String,
}

/// The mathematical content of [`TurnRecord`].
#[verifier::ext_equal]
pub struct TurnRecordView {
    pub turn: ConversationTurnView,
    pub fingerprint: Seq<char>,
}

impl View for TurnRecord {
    type V = TurnRecordView;

    open spec fn view(&self) -> TurnRecordView {
        TurnRecordView {
            turn: self.turn@,
            fingerprint: self.fingerprint@,
        }
    }
}

impl Clone for TurnRecord {
    fn clone(&self) -> (copy: Self)
        ensures
            copy@ == self@,
    {
        TurnRecord {
            turn: self.turn.clone(),
            fingerprint: self.fingerprint.clone(),
        }
    }
}

/// A conversation with its turns and its timeline, each in order.
#[derive(Debug, PartialEq, Eq)]
pub struct ConversationRecord {
    pub conversation: Conversation,
    pub turns: Vec<TurnRecord>,
    pub events: Vec<ConversationEvent>,
}

/// The mathematical content of [`ConversationRecord`].
#[verifier::ext_equal]
pub struct ConversationRecordView {
    pub conversation: ConversationView,
    pub turns: Seq<TurnRecordView>,
    pub events: Seq<ConversationEventView>,
}

impl View for ConversationRecord {
    type V = ConversationRecordView;

    open spec fn view(&self) -> ConversationRecordView {
        ConversationRecordView {
            conversation: self.conversation@,
            turns: views(self.turns@),
            events: views(self.events@),
        }
    }
}

impl Clone for ConversationRecord {
    fn clone(&self) -> (copy: Self)
        ensures
            copy@ == self@,
    {
        let copy = ConversationRecord {
            conversation: self.conversation.clone(),
            turns: self.turns.clone(),
            events: self.events.clone(),
        };
        proof {
            assert(views(copy.turns@) =~= views(self.turns@));
            assert(views(copy.events@) =~= views(self.events@));
        }
        copy
    }
}

/// The diagnostics of one covered operation, in order.
#[derive(Debug, PartialEq, Eq)]
pub struct DiagnosticRecord {
    pub operation_id: OperationId,
    pub diagnostics: Vec<OperationDiagnostic>,
}

/// The mathematical content of [`DiagnosticRecord`].
#[verifier::ext_equal]
pub struct DiagnosticRecordView {
    pub operation_id: OperationId,
    pub diagnostics: Seq<OperationDiagnostic>,
}

impl View for DiagnosticRecord {
    type V = DiagnosticRecordView;

    open spec fn view(&self) -> DiagnosticRecordView {
        DiagnosticRecordView {
            operation_id: self.operation_id,
            diagnostics: self.diagnostics@,
        }
    }
}

impl Clone for DiagnosticRecord {
    fn clone(&self) -> (copy: Self)
        ensures
            copy@ == self@,
    {
        DiagnosticRecord {
            operation_id: self.operation_id,
            diagnostics: self.diagnostics.clone(),
        }
    }
}

/// The claim of one operation to write one session.
#[derive(Clone, Copy, Debug, PartialEq, Eq, Structural)]
pub struct Claim {
    pub session_id: SessionId,
    pub operation_id: OperationId,
}

/// One write to the durable tables.
#[derive(Debug, PartialEq, Eq)]
pub enum Change {
    InsertProject(ProjectRegistration),
    InsertOperation(OperationRecord),
    UpdateOperation(Operation),
    ClaimSession(Claim),
    ReleaseSession { operation_id: OperationId },
    InsertConversation(Conversation),
    UpdateConversation(Conversation),
    InsertTurn(TurnRecord),
    UpdateTurn(ConversationTurn),
    AppendEvent(ConversationEvent),
    CoverOperation { operation_id: OperationId },
    AppendDiagnostic(OperationDiagnostic),
    InsertBinding(InitiatorBinding),
}

/// The mathematical content of [`Change`].
#[verifier::ext_equal]
pub enum ChangeView {
    InsertProject(ProjectRegistrationView),
    InsertOperation(OperationRecordView),
    UpdateOperation(OperationView),
    ClaimSession(Claim),
    ReleaseSession { operation_id: OperationId },
    InsertConversation(ConversationView),
    UpdateConversation(ConversationView),
    InsertTurn(TurnRecordView),
    UpdateTurn(ConversationTurnView),
    AppendEvent(ConversationEventView),
    CoverOperation { operation_id: OperationId },
    AppendDiagnostic(OperationDiagnostic),
    InsertBinding(InitiatorBindingView),
}

impl View for Change {
    type V = ChangeView;

    open spec fn view(&self) -> ChangeView {
        match *self {
            Change::InsertProject(value) => ChangeView::InsertProject(value@),
            Change::InsertOperation(value) => ChangeView::InsertOperation(value@),
            Change::UpdateOperation(value) => ChangeView::UpdateOperation(value@),
            Change::ClaimSession(value) => ChangeView::ClaimSession(value),
            Change::ReleaseSession { operation_id } => ChangeView::ReleaseSession {
                operation_id,
            },
            Change::InsertConversation(value) => ChangeView::InsertConversation(value@),
            Change::UpdateConversation(value) => ChangeView::UpdateConversation(value@),
            Change::InsertTurn(value) => ChangeView::InsertTurn(value@),
            Change::UpdateTurn(value) => ChangeView::UpdateTurn(value@),
            Change::AppendEvent(value) => ChangeView::AppendEvent(value@),
            Change::CoverOperation { operation_id } => ChangeView::CoverOperation {
                operation_id,
            },
            Change::AppendDiagnostic(value) => ChangeView::AppendDiagnostic(value),
            Change::InsertBinding(value) => ChangeView::InsertBinding(value@),
        }
    }
}

impl Clone for Change {
    fn clone(&self) -> (copy: Self)
        ensures
            copy@ == self@,
    {
        match self {
            Change::InsertProject(value) => Change::InsertProject(value.clone()),
            Change::InsertOperation(value) => Change::InsertOperation(value.clone()),
            Change::UpdateOperation(value) => Change::UpdateOperation(value.clone()),
            Change::ClaimSession(value) => Change::ClaimSession(*value),
            Change::ReleaseSession { operation_id } => Change::ReleaseSession {
                operation_id: *operation_id,
            },
            Change::InsertConversation(value) => Change::InsertConversation(value.clone()),
            Change::UpdateConversation(value) => Change::UpdateConversation(value.clone()),
            Change::InsertTurn(value) => Change::InsertTurn(value.clone()),
            Change::UpdateTurn(value) => Change::UpdateTurn(value.clone()),
            Change::AppendEvent(value) => Change::AppendEvent(value.clone()),
            Change::CoverOperation { operation_id } => Change::CoverOperation {
                operation_id: *operation_id,
            },
            Change::AppendDiagnostic(value) => Change::AppendDiagnostic(*value),
            Change::InsertBinding(value) => Change::InsertBinding(value.clone()),
        }
    }
}

/// What makes a binding unique: its project and the exact identity of the initiator.
pub type BindingKey = (Seq<char>, InitiatorIdentityView);

/// The durable tables as maps from their keys.
#[verifier::ext_equal]
pub struct TablesView {
    pub projects: Map<Seq<char>, ProjectRegistrationView>,
    pub operations: Map<OperationId, OperationRecordView>,
    pub claims: Map<SessionId, Claim>,
    pub conversations: Map<ConversationId, ConversationRecordView>,
    pub diagnostics: Map<OperationId, DiagnosticRecordView>,
    pub bindings: Map<BindingKey, InitiatorBindingView>,
}

/// The place of a turn among the turns of its conversation.
pub open spec fn turn_place(turns: Seq<TurnRecordView>, turn_id: TurnId) -> int {
    choose|i: int| 0 <= i < turns.len() && (#[trigger] turns[i]).turn.turn_id == turn_id
}

/// Whether the conversation has the turn.
pub open spec fn has_turn(turns: Seq<TurnRecordView>, turn_id: TurnId) -> bool {
    exists|i: int| 0 <= i < turns.len() && (#[trigger] turns[i]).turn.turn_id == turn_id
}

/// The record of a turn, if the conversation has it.
pub open spec fn find_turn(turns: Seq<TurnRecordView>, turn_id: TurnId) -> Option<TurnRecordView> {
    if has_turn(turns, turn_id) {
        Some(turns[turn_place(turns, turn_id)])
    } else {
        None
    }
}

/// Whether no two turns of a conversation share an identity.
pub open spec fn turns_distinct(turns: Seq<TurnRecordView>) -> bool {
    forall|i: int, j: int|
        #![trigger turns[i], turns[j]]
        0 <= i < turns.len() && 0 <= j < turns.len() && turns[i].turn.turn_id
            == turns[j].turn.turn_id ==> i == j
}

/// Whether every turn names the conversation it belongs to.
pub open spec fn turns_belong(turns: Seq<TurnRecordView>, id: ConversationId) -> bool {
    forall|i: int|
        0 <= i < turns.len() ==> (#[trigger] turns[i]).turn.conversation_id == id
}

/// The turns after one of them is rewritten; unchanged where it is unknown.
pub open spec fn turns_with(turns: Seq<TurnRecordView>, turn: ConversationTurnView) -> Seq<
    TurnRecordView,
> {
    if has_turn(turns, turn.turn_id) {
        let place = turn_place(turns, turn.turn_id);
        turns.update(place, TurnRecordView { turn, fingerprint: turns[place].fingerprint })
    } else {
        turns
    }
}

impl TablesView {
    /// Tables without a row.
    pub open spec fn empty() -> TablesView {
        TablesView {
            projects: Map::empty(),
            operations: Map::empty(),
            claims: Map::empty(),
            conversations: Map::empty(),
            diagnostics: Map::empty(),
            bindings: Map::empty(),
        }
    }

    /// Whether an operation was admitted for the request.
    pub open spec fn has_request(self, request_id: RequestId) -> bool {
        exists|id: OperationId| #[trigger]
            self.operations.contains_key(id) && self.operations[id].operation.request_id
                == request_id
    }

    /// The operation that was admitted for the request, if any.
    pub open spec fn requested(self, request_id: RequestId) -> Option<OperationRecordView> {
        if self.has_request(request_id) {
            Some(
                self.operations[choose|id: OperationId| #[trigger]
                    self.operations.contains_key(id) && self.operations[id].operation.request_id
                        == request_id],
            )
        } else {
            None
        }
    }

    /// The operation under an identity, if any.
    pub open spec fn operation(self, operation_id: OperationId) -> Option<OperationView> {
        match lookup(self.operations, operation_id) {
            Some(record) => Some(record.operation),
            None => None,
        }
    }

    /// Whether the operation holds a claim.
    pub open spec fn has_claim(self, operation_id: OperationId) -> bool {
        exists|session: SessionId| #[trigger]
            self.claims.contains_key(session) && self.claims[session].operation_id == operation_id
    }

    /// Whether every row stands under its own key, no request was admitted twice, no operation
    /// holds two claims, and the turns of a
    /// conversation are distinct and its own.
    pub open spec fn consistent(self) -> bool {
        &&& forall|id: OperationId| #[trigger]
            self.operations.contains_key(id) ==> self.operations[id].operation.operation_id == id
        &&& forall|left: OperationId, right: OperationId|
            #![trigger self.operations.contains_key(left), self.operations.contains_key(right)]
            self.operations.contains_key(left) && self.operations.contains_key(right)
                && self.operations[left].operation.request_id
                == self.operations[right].operation.request_id ==> left == right
        &&& forall|session: SessionId| #[trigger]
            self.claims.contains_key(session) ==> self.claims[session].session_id == session
        &&& forall|left: SessionId, right: SessionId|
            #![trigger self.claims.contains_key(left), self.claims.contains_key(right)]
            self.claims.contains_key(left) && self.claims.contains_key(right)
                && self.claims[left].operation_id == self.claims[right].operation_id ==> left
                == right
        &&& forall|id: ConversationId| #[trigger]
            self.conversations.contains_key(id) ==> {
                &&& self.conversations[id].conversation.conversation_id == id
                &&& turns_distinct(self.conversations[id].turns)
                &&& turns_belong(self.conversations[id].turns, id)
            }
        &&& forall|id: Seq<char>| #[trigger]
            self.projects.contains_key(id) ==> self.projects[id].project_id == id
        &&& forall|key: BindingKey| #[trigger]
            self.bindings.contains_key(key) ==> self.bindings[key].project_id == key.0
                && self.bindings[key].identity == key.1
        &&& forall|id: OperationId| #[trigger]
            self.diagnostics.contains_key(id) ==> self.diagnostics[id].operation_id == id
    }

    /// The tables after one write. A row whose key is already taken is not inserted, and a row
    /// that does not exist is not updated.
    pub open spec fn after(self, change: ChangeView) -> TablesView {
        match change {
            ChangeView::InsertProject(project) => TablesView {
                projects: with_new(self.projects, project.project_id, project),
                ..self
            },
            ChangeView::InsertOperation(record) => if self.has_request(
                record.operation.request_id,
            ) {
                self
            } else {
                TablesView {
                    operations: with_new(self.operations, record.operation.operation_id, record),
                    ..self
                }
            },
            ChangeView::UpdateOperation(operation) => match lookup(
                self.operations,
                operation.operation_id,
            ) {
                Some(record) if record.operation.request_id == operation.request_id => TablesView {
                    operations: self.operations.insert(
                        operation.operation_id,
                        OperationRecordView { operation, fingerprint: record.fingerprint },
                    ),
                    ..self
                },
                _ => self,
            },
            ChangeView::ClaimSession(claim) => if self.has_claim(claim.operation_id) {
                self
            } else {
                TablesView { claims: with_new(self.claims, claim.session_id, claim), ..self }
            },
            ChangeView::ReleaseSession { operation_id } => TablesView {
                claims: self.claims.restrict(
                    Set::new(
                        |session: SessionId|
                            self.claims.contains_key(session) && self.claims[session].operation_id
                                != operation_id,
                    ),
                ),
                ..self
            },
            ChangeView::InsertConversation(conversation) => TablesView {
                conversations: with_new(
                    self.conversations,
                    conversation.conversation_id,
                    ConversationRecordView {
                        conversation,
                        turns: Seq::empty(),
                        events: Seq::empty(),
                    },
                ),
                ..self
            },
            ChangeView::UpdateConversation(conversation) => self.with_record(
                conversation.conversation_id,
                |record: ConversationRecordView|
                    ConversationRecordView { conversation, ..record },
            ),
            ChangeView::InsertTurn(turn) => self.with_record(
                turn.turn.conversation_id,
                |record: ConversationRecordView|
                    if has_turn(record.turns, turn.turn.turn_id) {
                        record
                    } else {
                        ConversationRecordView { turns: record.turns.push(turn), ..record }
                    },
            ),
            ChangeView::UpdateTurn(turn) => self.with_record(
                turn.conversation_id,
                |record: ConversationRecordView|
                    ConversationRecordView { turns: turns_with(record.turns, turn), ..record },
            ),
            ChangeView::AppendEvent(event) => self.with_record(
                event.conversation_id,
                |record: ConversationRecordView|
                    ConversationRecordView { events: record.events.push(event), ..record },
            ),
            ChangeView::CoverOperation { operation_id } => TablesView {
                diagnostics: with_new(
                    self.diagnostics,
                    operation_id,
                    DiagnosticRecordView { operation_id, diagnostics: Seq::empty() },
                ),
                ..self
            },
            ChangeView::AppendDiagnostic(diagnostic) => match lookup(
                self.diagnostics,
                diagnostic.operation_id,
            ) {
                Some(record) => TablesView {
                    diagnostics: self.diagnostics.insert(
                        diagnostic.operation_id,
                        DiagnosticRecordView {
                            diagnostics: record.diagnostics.push(diagnostic),
                            ..record
                        },
                    ),
                    ..self
                },
                None => self,
            },
            ChangeView::InsertBinding(binding) => TablesView {
                bindings: with_new(
                    self.bindings,
                    (binding.project_id, binding.identity),
                    binding,
                ),
                ..self
            },
        }
    }

    /// The tables after the record of one conversation is rewritten.
    pub open spec fn with_record(
        self,
        id: ConversationId,
        rewrite: spec_fn(ConversationRecordView) -> ConversationRecordView,
    ) -> TablesView {
        if self.conversations.contains_key(id) {
            TablesView {
                conversations: self.conversations.insert(id, rewrite(self.conversations[id])),
                ..self
            }
        } else {
            self
        }
    }

    /// The tables after a sequence of writes.
    pub open spec fn after_all(self, changes: Seq<ChangeView>) -> TablesView
        decreases changes.len(),
    {
        if changes.len() == 0 {
            self
        } else {
            self.after_all(changes.drop_last()).after(changes.last())
        }
    }
}

/// One more write after a sequence of writes.
pub proof fn lemma_after_push(tables: TablesView, changes: Seq<ChangeView>, change: ChangeView)
    ensures
        tables.after_all(changes.push(change)) == tables.after_all(changes).after(change),
{
    assert(changes.push(change).drop_last() =~= changes);
}

/// One write.
pub proof fn lemma_after_one(tables: TablesView, a: ChangeView)
    ensures
        tables.after_all(seq![a]) == tables.after(a),
{
    let none = Seq::<ChangeView>::empty();
    lemma_after_push(tables, none, a);
    assert(seq![a] =~= none.push(a));
}

/// Two writes, one after the other.
pub proof fn lemma_after_two(tables: TablesView, a: ChangeView, b: ChangeView)
    ensures
        tables.after_all(seq![a, b]) == tables.after(a).after(b),
{
    lemma_after_one(tables, a);
    lemma_after_push(tables, seq![a], b);
    assert(seq![a, b] =~= seq![a].push(b));
}

/// Three writes, one after the other.
pub proof fn lemma_after_three(tables: TablesView, a: ChangeView, b: ChangeView, c: ChangeView)
    ensures
        tables.after_all(seq![a, b, c]) == tables.after(a).after(b).after(c),
{
    lemma_after_two(tables, a, b);
    lemma_after_push(tables, seq![a, b], c);
    assert(seq![a, b, c] =~= seq![a, b].push(c));
}

/// Writes in two parts.
pub proof fn lemma_after_concat(
    tables: TablesView,
    first: Seq<ChangeView>,
    second: Seq<ChangeView>,
)
    ensures
        tables.after_all(first + second) == tables.after_all(first).after_all(second),
    decreases second.len(),
{
    if second.len() == 0 {
        assert(first + second =~= first);
    } else {
        assert((first + second).drop_last() =~= first + second.drop_last());
        lemma_after_concat(tables, first, second.drop_last());
    }
}

spec fn project_key() -> spec_fn(ProjectRegistrationView) -> Seq<char> {
    |row: ProjectRegistrationView| row.project_id
}

spec fn operation_key() -> spec_fn(OperationRecordView) -> OperationId {
    |row: OperationRecordView| row.operation.operation_id
}

spec fn request_key() -> spec_fn(OperationRecordView) -> RequestId {
    |row: OperationRecordView| row.operation.request_id
}

spec fn session_key() -> spec_fn(Claim) -> SessionId {
    |row: Claim| row.session_id
}

spec fn claimant_key() -> spec_fn(Claim) -> OperationId {
    |row: Claim| row.operation_id
}

spec fn conversation_key() -> spec_fn(ConversationRecordView) -> ConversationId {
    |row: ConversationRecordView| row.conversation.conversation_id
}

spec fn diagnostic_key() -> spec_fn(DiagnosticRecordView) -> OperationId {
    |row: DiagnosticRecordView| row.operation_id
}

spec fn binding_key() -> spec_fn(InitiatorBindingView) -> BindingKey {
    |row: InitiatorBindingView| (row.project_id, row.identity)
}

/// The durable tables.
#[derive(Debug, PartialEq, Eq)]
pub struct Tables {
    projects: Vec<ProjectRegistration>,
    operations: Vec<OperationRecord>,
    claims: Vec<Claim>,
    conversations: Vec<ConversationRecord>,
    diagnostics: Vec<DiagnosticRecord>,
    bindings: Vec<InitiatorBinding>,
}

impl View for Tables {
    type V = TablesView;

    closed spec fn view(&self) -> TablesView {
        TablesView {
            projects: keyed(views(self.projects@), project_key()),
            operations: keyed(views(self.operations@), operation_key()),
            claims: keyed(self.claims@, session_key()),
            conversations: keyed(views(self.conversations@), conversation_key()),
            diagnostics: keyed(views(self.diagnostics@), diagnostic_key()),
            bindings: keyed(views(self.bindings@), binding_key()),
        }
    }
}

impl Tables {
    /// Whether the keys of every table are unique.
    pub closed spec fn well_formed(&self) -> bool {
        &&& distinct(views(self.projects@), project_key())
        &&& distinct(views(self.operations@), operation_key())
        &&& distinct(views(self.operations@), request_key())
        &&& distinct(self.claims@, session_key())
        &&& distinct(self.claims@, claimant_key())
        &&& distinct(views(self.conversations@), conversation_key())
        &&& forall|i: int|
            0 <= i < self.conversations@.len() ==> {
                let row = (#[trigger] self.conversations@[i])@;
                turns_distinct(row.turns) && turns_belong(
                    row.turns,
                    row.conversation.conversation_id,
                )
            }
        &&& distinct(views(self.diagnostics@), diagnostic_key())
        &&& distinct(views(self.bindings@), binding_key())
    }

    /// Well-formed tables are consistent.
    pub proof fn lemma_consistent(&self)
        requires
            self.well_formed(),
        ensures
            self@.consistent(),
    {
        let operations = views(self.operations@);
        assert forall|id: OperationId| #[trigger] self@.operations.contains_key(id) implies {
            let at = crate::keyed::place(operations, operation_key(), id);
            &&& 0 <= at < operations.len()
            &&& self@.operations[id] == operations[at]
            &&& operations[at].operation.operation_id == id
        } by {
            lemma_present(operations, operation_key(), id);
        }
        assert forall|left: OperationId, right: OperationId|
            #![trigger self@.operations.contains_key(left), self@.operations.contains_key(right)]
            self@.operations.contains_key(left) && self@.operations.contains_key(right)
                && self@.operations[left].operation.request_id
                == self@.operations[right].operation.request_id implies left == right by {
            let first = crate::keyed::place(operations, operation_key(), left);
            let second = crate::keyed::place(operations, operation_key(), right);
            assert(request_key()(operations[first]) == request_key()(operations[second]));
        }
        assert forall|session: SessionId| #[trigger] self@.claims.contains_key(session) implies {
            let at = crate::keyed::place(self.claims@, session_key(), session);
            &&& 0 <= at < self.claims@.len()
            &&& self@.claims[session] == self.claims@[at]
            &&& self.claims@[at].session_id == session
        } by {
            lemma_present(self.claims@, session_key(), session);
        }
        assert forall|left: SessionId, right: SessionId|
            #![trigger self@.claims.contains_key(left), self@.claims.contains_key(right)]
            self@.claims.contains_key(left) && self@.claims.contains_key(right)
                && self@.claims[left].operation_id == self@.claims[right].operation_id implies left
            == right by {
            let first = crate::keyed::place(self.claims@, session_key(), left);
            let second = crate::keyed::place(self.claims@, session_key(), right);
            assert(claimant_key()(self.claims@[first]) == claimant_key()(self.claims@[second]));
        }
        let conversations = views(self.conversations@);
        assert forall|id: ConversationId| #[trigger] self@.conversations.contains_key(id) implies {
            &&& self@.conversations[id].conversation.conversation_id == id
            &&& turns_distinct(self@.conversations[id].turns)
            &&& turns_belong(self@.conversations[id].turns, id)
        } by {
            lemma_present(conversations, conversation_key(), id);
            let at = crate::keyed::place(conversations, conversation_key(), id);
            assert(conversations[at] == self.conversations@[at]@);
        }
        assert forall|id: Seq<char>| #[trigger]
            self@.projects.contains_key(id) implies self@.projects[id].project_id == id by {
            lemma_present(views(self.projects@), project_key(), id);
        }
        assert forall|key: BindingKey| #[trigger]
            self@.bindings.contains_key(key) implies self@.bindings[key].project_id == key.0
            && self@.bindings[key].identity == key.1 by {
            lemma_present(views(self.bindings@), binding_key(), key);
        }
        assert forall|id: OperationId| #[trigger]
            self@.diagnostics.contains_key(id) implies self@.diagnostics[id].operation_id
            == id by {
            lemma_present(views(self.diagnostics@), diagnostic_key(), id);
        }
    }
}

impl Tables {
    /// Tables without a row.
    pub fn new() -> (tables: Tables)
        ensures
            tables.well_formed(),
            tables@ == TablesView::empty(),
    {
        let tables = Tables {
            projects: Vec::new(),
            operations: Vec::new(),
            claims: Vec::new(),
            conversations: Vec::new(),
            diagnostics: Vec::new(),
            bindings: Vec::new(),
        };
        proof {
            assert(tables@ =~= TablesView::empty());
        }
        tables
    }

    /// The place of a project.
    fn project_index(&self, project_id: &ProjectId) -> (found: Option<usize>)
        ensures
            match found {
                Some(index) => index < self.projects@.len() && project_key()(views(self.projects@)[index as int]) == project_id@,
                None => forall|i: int| 0 <= i < self.projects@.len() ==> project_key()(#[trigger] views(self.projects@)[i]) != project_id@,
            },
    {
        let mut index: usize = 0;
        while index < self.projects.len()
            invariant
                index <= self.projects@.len(),
                forall|i: int| 0 <= i < index ==> project_key()(#[trigger] views(self.projects@)[i]) != project_id@,
            decreases self.projects@.len() - index,
        {
            assert(views(self.projects@)[index as int] == self.projects@[index as int]@);
            let row = &self.projects[index];
            if row.project_id.same(project_id) {
                return Some(index);
            }
            index = index + 1;
        }
        None
    }

    /// The place of an operation.
    fn operation_index(&self, operation_id: OperationId) -> (found: Option<usize>)
        ensures
            match found {
                Some(index) => index < self.operations@.len() && operation_key()(views(self.operations@)[index as int]) == operation_id,
                None => forall|i: int| 0 <= i < self.operations@.len() ==> operation_key()(#[trigger] views(self.operations@)[i]) != operation_id,
            },
    {
        let mut index: usize = 0;
        while index < self.operations.len()
            invariant
                index <= self.operations@.len(),
                forall|i: int| 0 <= i < index ==> operation_key()(#[trigger] views(self.operations@)[i]) != operation_id,
            decreases self.operations@.len() - index,
        {
            assert(views(self.operations@)[index as int] == self.operations@[index as int]@);
            let row = &self.operations[index];
            if row.operation.operation_id == operation_id {
                return Some(index);
            }
            index = index + 1;
        }
        None
    }

    /// The place of the operation admitted for a request.
    fn request_index(&self, request_id: RequestId) -> (found: Option<usize>)
        ensures
            match found {
                Some(index) => index < self.operations@.len() && request_key()(views(self.operations@)[index as int]) == request_id,
                None => forall|i: int| 0 <= i < self.operations@.len() ==> request_key()(#[trigger] views(self.operations@)[i]) != request_id,
            },
    {
        let mut index: usize = 0;
        while index < self.operations.len()
            invariant
                index <= self.operations@.len(),
                forall|i: int| 0 <= i < index ==> request_key()(#[trigger] views(self.operations@)[i]) != request_id,
            decreases self.operations@.len() - index,
        {
            assert(views(self.operations@)[index as int] == self.operations@[index as int]@);
            let row = &self.operations[index];
            if row.operation.request_id == request_id {
                return Some(index);
            }
            index = index + 1;
        }
        None
    }

    /// The place of the claim to a session.
    fn claim_index(&self, session_id: SessionId) -> (found: Option<usize>)
        ensures
            match found {
                Some(index) => index < self.claims@.len() && session_key()(self.claims@[index as int]) == session_id,
                None => forall|i: int| 0 <= i < self.claims@.len() ==> session_key()(#[trigger] self.claims@[i]) != session_id,
            },
    {
        let mut index: usize = 0;
        while index < self.claims.len()
            invariant
                index <= self.claims@.len(),
                forall|i: int| 0 <= i < index ==> session_key()(#[trigger] self.claims@[i]) != session_id,
            decreases self.claims@.len() - index,
        {
            
            let row = &self.claims[index];
            if row.session_id == session_id {
                return Some(index);
            }
            index = index + 1;
        }
        None
    }

    /// The place of the claim of an operation.
    fn claimant_index(&self, operation_id: OperationId) -> (found: Option<usize>)
        ensures
            match found {
                Some(index) => index < self.claims@.len() && claimant_key()(self.claims@[index as int]) == operation_id,
                None => forall|i: int| 0 <= i < self.claims@.len() ==> claimant_key()(#[trigger] self.claims@[i]) != operation_id,
            },
    {
        let mut index: usize = 0;
        while index < self.claims.len()
            invariant
                index <= self.claims@.len(),
                forall|i: int| 0 <= i < index ==> claimant_key()(#[trigger] self.claims@[i]) != operation_id,
            decreases self.claims@.len() - index,
        {
            
            let row = &self.claims[index];
            if row.operation_id == operation_id {
                return Some(index);
            }
            index = index + 1;
        }
        None
    }

    /// The place of a conversation.
    fn conversation_index(&self, conversation_id: ConversationId) -> (found: Option<usize>)
        ensures
            match found {
                Some(index) => index < self.conversations@.len() && conversation_key()(views(self.conversations@)[index as int]) == conversation_id,
                None => forall|i: int| 0 <= i < self.conversations@.len() ==> conversation_key()(#[trigger] views(self.conversations@)[i]) != conversation_id,
            },
    {
        let mut index: usize = 0;
        while index < self.conversations.len()
            invariant
                index <= self.conversations@.len(),
                forall|i: int| 0 <= i < index ==> conversation_key()(#[trigger] views(self.conversations@)[i]) != conversation_id,
            decreases self.conversations@.len() - index,
        {
            assert(views(self.conversations@)[index as int] == self.conversations@[index as int]@);
            let row = &self.conversations[index];
            if row.conversation.conversation_id == conversation_id {
                return Some(index);
            }
            index = index + 1;
        }
        None
    }

    /// The place of the diagnostics of an operation.
    fn diagnostic_index(&self, operation_id: OperationId) -> (found: Option<usize>)
        ensures
            match found {
                Some(index) => index < self.diagnostics@.len() && diagnostic_key()(views(self.diagnostics@)[index as int]) == operation_id,
                None => forall|i: int| 0 <= i < self.diagnostics@.len() ==> diagnostic_key()(#[trigger] views(self.diagnostics@)[i]) != operation_id,
            },
    {
        let mut index: usize = 0;
        while index < self.diagnostics.len()
            invariant
                index <= self.diagnostics@.len(),
                forall|i: int| 0 <= i < index ==> diagnostic_key()(#[trigger] views(self.diagnostics@)[i]) != operation_id,
            decreases self.diagnostics@.len() - index,
        {
            assert(views(self.diagnostics@)[index as int] == self.diagnostics@[index as int]@);
            let row = &self.diagnostics[index];
            if row.operation_id == operation_id {
                return Some(index);
            }
            index = index + 1;
        }
        None
    }

    /// The place of a binding.
    fn binding_index(&self, project_id: &ProjectId, identity: &InitiatorIdentity) -> (found: Option<usize>)
        ensures
            match found {
                Some(index) => index < self.bindings@.len() && binding_key()(views(self.bindings@)[index as int]) == (project_id@, identity@),
                None => forall|i: int| 0 <= i < self.bindings@.len() ==> binding_key()(#[trigger] views(self.bindings@)[i]) != (project_id@, identity@),
            },
    {
        let mut index: usize = 0;
        while index < self.bindings.len()
            invariant
                index <= self.bindings@.len(),
                forall|i: int| 0 <= i < index ==> binding_key()(#[trigger] views(self.bindings@)[i]) != (project_id@, identity@),
            decreases self.bindings@.len() - index,
        {
            assert(views(self.bindings@)[index as int] == self.bindings@[index as int]@);
            let row = &self.bindings[index];
            if row.project_id.same(project_id) && row.identity.same(identity) {
                return Some(index);
            }
            index = index + 1;
        }
        None
    }

    /// The registered project, if any.
    pub fn project(&self, project_id: &ProjectId) -> (found: Option<&ProjectRegistration>)
        requires
            self.well_formed(),
        ensures
            optional(found) == lookup(self@.projects, project_id@),
    {
        match self.project_index(project_id) {
            Some(index) => {
                proof {
                    lemma_row(views(self.projects@), project_key(), index as int);
                }
                Some(&self.projects[index])
            },
            None => {
                proof {
                    lemma_absent(views(self.projects@), project_key(), project_id@);
                }
                None
            },
        }
    }

    /// The operation with its fingerprint, if any.
    pub fn operation(&self, operation_id: OperationId) -> (found: Option<&OperationRecord>)
        requires
            self.well_formed(),
        ensures
            optional(found) == lookup(self@.operations, operation_id),
    {
        match self.operation_index(operation_id) {
            Some(index) => {
                proof {
                    lemma_row(views(self.operations@), operation_key(), index as int);
                }
                Some(&self.operations[index])
            },
            None => {
                proof {
                    lemma_absent(views(self.operations@), operation_key(), operation_id);
                }
                None
            },
        }
    }

    /// The claim to a session, if any.
    pub fn claim(&self, session_id: SessionId) -> (found: Option<&Claim>)
        requires
            self.well_formed(),
        ensures
            (match found { Some(claim) => Some(*claim), None => None }) == lookup(self@.claims, session_id),
    {
        match self.claim_index(session_id) {
            Some(index) => {
                proof {
                    lemma_row(self.claims@, session_key(), index as int);
                }
                Some(&self.claims[index])
            },
            None => {
                proof {
                    lemma_absent(self.claims@, session_key(), session_id);
                }
                None
            },
        }
    }

    /// The record of a conversation, if any.
    pub fn conversation(&self, conversation_id: ConversationId) -> (found: Option<&ConversationRecord>)
        requires
            self.well_formed(),
        ensures
            optional(found) == lookup(self@.conversations, conversation_id),
    {
        match self.conversation_index(conversation_id) {
            Some(index) => {
                proof {
                    lemma_row(views(self.conversations@), conversation_key(), index as int);
                }
                Some(&self.conversations[index])
            },
            None => {
                proof {
                    lemma_absent(views(self.conversations@), conversation_key(), conversation_id);
                }
                None
            },
        }
    }

    /// The diagnostics of a covered operation, if it is covered.
    pub fn diagnostics(&self, operation_id: OperationId) -> (found: Option<&DiagnosticRecord>)
        requires
            self.well_formed(),
        ensures
            optional(found) == lookup(self@.diagnostics, operation_id),
    {
        match self.diagnostic_index(operation_id) {
            Some(index) => {
                proof {
                    lemma_row(views(self.diagnostics@), diagnostic_key(), index as int);
                }
                Some(&self.diagnostics[index])
            },
            None => {
                proof {
                    lemma_absent(views(self.diagnostics@), diagnostic_key(), operation_id);
                }
                None
            },
        }
    }

    /// The binding of an exact identity, if any.
    pub fn binding(&self, project_id: &ProjectId, identity: &InitiatorIdentity) -> (found: Option<&InitiatorBinding>)
        requires
            self.well_formed(),
        ensures
            optional(found) == lookup(self@.bindings, (project_id@, identity@)),
    {
        match self.binding_index(project_id, identity) {
            Some(index) => {
                proof {
                    lemma_row(views(self.bindings@), binding_key(), index as int);
                }
                Some(&self.bindings[index])
            },
            None => {
                proof {
                    lemma_absent(views(self.bindings@), binding_key(), (project_id@, identity@));
                }
                None
            },
        }
    }

    /// The operation admitted for a request with its fingerprint, if any.
    pub fn requested(&self, request_id: RequestId) -> (found: Option<&OperationRecord>)
        requires
            self.well_formed(),
        ensures
            optional(found) == self@.requested(request_id),
    {
        let ghost rows = views(self.operations@);
        match self.request_index(request_id) {
            Some(index) => {
                proof {
                    let id = rows[index as int].operation.operation_id;
                    lemma_row(rows, operation_key(), index as int);
                    assert(self@.operations.contains_key(id));
                    assert(self@.has_request(request_id));
                    self.lemma_consistent();
                    let chosen = choose|id: OperationId| #[trigger]
                        self@.operations.contains_key(id)
                            && self@.operations[id].operation.request_id == request_id;
                    assert(chosen == id);
                }
                Some(&self.operations[index])
            },
            None => {
                proof {
                    if self@.has_request(request_id) {
                        let id = choose|id: OperationId| #[trigger]
                            self@.operations.contains_key(id)
                                && self@.operations[id].operation.request_id == request_id;
                        lemma_present(rows, operation_key(), id);
                    }
                }
                None
            },
        }
    }

    /// Whether an operation holds a claim.
    pub fn holds_claim(&self, operation_id: OperationId) -> (holds: bool)
        requires
            self.well_formed(),
        ensures
            holds == self@.has_claim(operation_id),
    {
        match self.claimant_index(operation_id) {
            Some(index) => {
                proof {
                    lemma_row(self.claims@, session_key(), index as int);
                    assert(self@.claims.contains_key(self.claims@[index as int].session_id));
                }
                true
            },
            None => {
                proof {
                    if self@.has_claim(operation_id) {
                        let session = choose|session: SessionId| #[trigger]
                            self@.claims.contains_key(session)
                                && self@.claims[session].operation_id == operation_id;
                        lemma_present(self.claims@, session_key(), session);
                    }
                }
                false
            },
        }
    }
}

impl Tables {
    /// The operations in the order of their rows.
    pub closed spec fn operation_rows(&self) -> Seq<OperationRecordView> {
        views(self.operations@)
    }

    /// The number of operations.
    pub(crate) fn operation_count(&self) -> (count: usize)
        ensures
            count == self.operation_rows().len(),
    {
        self.operations.len()
    }

    /// The operation at one place.
    pub(crate) fn operation_at(&self, index: usize) -> (row: &OperationRecord)
        requires
            index < self.operation_rows().len(),
        ensures
            row@ == self.operation_rows()[index as int],
    {
        &self.operations[index]
    }

    /// The rows of the operations are exactly the values of their map.
    pub proof fn lemma_operation_rows(&self)
        requires
            self.well_formed(),
        ensures
            forall|i: int|
                #![trigger self.operation_rows()[i]]
                0 <= i < self.operation_rows().len() ==> lookup(
                    self@.operations,
                    self.operation_rows()[i].operation.operation_id,
                ) == Some(self.operation_rows()[i]),
            forall|key: OperationId| #[trigger]
                self@.operations.contains_key(key) ==> exists|i: int|
                    0 <= i < self.operation_rows().len() && #[trigger] self.operation_rows()[i]
                        == self@.operations[key],
            forall|i: int, j: int|
                #![trigger self.operation_rows()[i], self.operation_rows()[j]]
                0 <= i < self.operation_rows().len() && 0 <= j < self.operation_rows().len()
                    && self.operation_rows()[i].operation.operation_id
                    == self.operation_rows()[j].operation.operation_id ==> i == j,
    {
        let rows = self.operation_rows();
        assert forall|i: int| #![trigger rows[i]] 0 <= i < rows.len() implies lookup(
            self@.operations,
            rows[i].operation.operation_id,
        ) == Some(rows[i]) by {
            lemma_row(rows, operation_key(), i);
        }
        assert forall|key: OperationId| #[trigger] self@.operations.contains_key(key) implies exists|i: int|
            0 <= i < rows.len() && #[trigger] rows[i] == self@.operations[key] by {
            lemma_present(rows, operation_key(), key);
            assert(rows[crate::keyed::place(rows, operation_key(), key)] == self@.operations[key]);
        }
        assert forall|i: int, j: int|
            #![trigger rows[i], rows[j]]
            0 <= i < rows.len() && 0 <= j < rows.len() && rows[i].operation.operation_id == rows[j].operation.operation_id implies i
            == j by {
            assert(operation_key()(rows[i]) == operation_key()(rows[j]));
        }
    }
}

impl Tables {
    /// The conversations in the order of their rows.
    pub closed spec fn conversation_rows(&self) -> Seq<ConversationRecordView> {
        views(self.conversations@)
    }

    /// The number of conversations.
    pub(crate) fn conversation_count(&self) -> (count: usize)
        ensures
            count == self.conversation_rows().len(),
    {
        self.conversations.len()
    }

    /// The conversation at one place.
    pub(crate) fn conversation_at(&self, index: usize) -> (row: &ConversationRecord)
        requires
            index < self.conversation_rows().len(),
        ensures
            row@ == self.conversation_rows()[index as int],
    {
        &self.conversations[index]
    }

    /// The rows of the conversations are exactly the values of their map.
    pub proof fn lemma_conversation_rows(&self)
        requires
            self.well_formed(),
        ensures
            forall|i: int|
                #![trigger self.conversation_rows()[i]]
                0 <= i < self.conversation_rows().len() ==> lookup(
                    self@.conversations,
                    self.conversation_rows()[i].conversation.conversation_id,
                ) == Some(self.conversation_rows()[i]),
            forall|key: ConversationId| #[trigger]
                self@.conversations.contains_key(key) ==> exists|i: int|
                    0 <= i < self.conversation_rows().len() && #[trigger] self.conversation_rows()[i]
                        == self@.conversations[key],
            forall|i: int, j: int|
                #![trigger self.conversation_rows()[i], self.conversation_rows()[j]]
                0 <= i < self.conversation_rows().len() && 0 <= j < self.conversation_rows().len()
                    && self.conversation_rows()[i].conversation.conversation_id
                    == self.conversation_rows()[j].conversation.conversation_id ==> i == j,
    {
        let rows = self.conversation_rows();
        assert forall|i: int| #![trigger rows[i]] 0 <= i < rows.len() implies lookup(
            self@.conversations,
            rows[i].conversation.conversation_id,
        ) == Some(rows[i]) by {
            lemma_row(rows, conversation_key(), i);
        }
        assert forall|key: ConversationId| #[trigger] self@.conversations.contains_key(key) implies exists|i: int|
            0 <= i < rows.len() && #[trigger] rows[i] == self@.conversations[key] by {
            lemma_present(rows, conversation_key(), key);
            assert(rows[crate::keyed::place(rows, conversation_key(), key)] == self@.conversations[key]);
        }
        assert forall|i: int, j: int|
            #![trigger rows[i], rows[j]]
            0 <= i < rows.len() && 0 <= j < rows.len() && rows[i].conversation.conversation_id == rows[j].conversation.conversation_id implies i
            == j by {
            assert(conversation_key()(rows[i]) == conversation_key()(rows[j]));
        }
    }
}

impl Tables {
    /// The projects in the order of their rows.
    pub closed spec fn project_rows(&self) -> Seq<ProjectRegistrationView> {
        views(self.projects@)
    }

    /// The number of projects.
    pub(crate) fn project_count(&self) -> (count: usize)
        ensures
            count == self.project_rows().len(),
    {
        self.projects.len()
    }

    /// The project at one place.
    pub(crate) fn project_at(&self, index: usize) -> (row: &ProjectRegistration)
        requires
            index < self.project_rows().len(),
        ensures
            row@ == self.project_rows()[index as int],
    {
        &self.projects[index]
    }

    /// The rows of the projects are exactly the values of their map.
    pub proof fn lemma_project_rows(&self)
        requires
            self.well_formed(),
        ensures
            forall|i: int|
                #![trigger self.project_rows()[i]]
                0 <= i < self.project_rows().len() ==> lookup(
                    self@.projects,
                    self.project_rows()[i].project_id,
                ) == Some(self.project_rows()[i]),
            forall|key: Seq<char>| #[trigger]
                self@.projects.contains_key(key) ==> exists|i: int|
                    0 <= i < self.project_rows().len() && #[trigger] self.project_rows()[i]
                        == self@.projects[key],
            forall|i: int, j: int|
                #![trigger self.project_rows()[i], self.project_rows()[j]]
                0 <= i < self.project_rows().len() && 0 <= j < self.project_rows().len()
                    && self.project_rows()[i].project_id
                    == self.project_rows()[j].project_id ==> i == j,
    {
        let rows = self.project_rows();
        assert forall|i: int| #![trigger rows[i]] 0 <= i < rows.len() implies lookup(
            self@.projects,
            rows[i].project_id,
        ) == Some(rows[i]) by {
            lemma_row(rows, project_key(), i);
        }
        assert forall|key: Seq<char>| #[trigger] self@.projects.contains_key(key) implies exists|i: int|
            0 <= i < rows.len() && #[trigger] rows[i] == self@.projects[key] by {
            lemma_present(rows, project_key(), key);
            assert(rows[crate::keyed::place(rows, project_key(), key)] == self@.projects[key]);
        }
        assert forall|i: int, j: int|
            #![trigger rows[i], rows[j]]
            0 <= i < rows.len() && 0 <= j < rows.len() && rows[i].project_id == rows[j].project_id implies i
            == j by {
            assert(project_key()(rows[i]) == project_key()(rows[j]));
        }
    }
}

impl Tables {
    /// The bindings in the order of their rows.
    pub closed spec fn binding_rows(&self) -> Seq<InitiatorBindingView> {
        views(self.bindings@)
    }

    /// The number of bindings.
    pub(crate) fn binding_count(&self) -> (count: usize)
        ensures
            count == self.binding_rows().len(),
    {
        self.bindings.len()
    }

    /// The binding at one place.
    pub(crate) fn binding_at(&self, index: usize) -> (row: &InitiatorBinding)
        requires
            index < self.binding_rows().len(),
        ensures
            row@ == self.binding_rows()[index as int],
    {
        &self.bindings[index]
    }

    /// The rows of the bindings are exactly the values of their map.
    pub proof fn lemma_binding_rows(&self)
        requires
            self.well_formed(),
        ensures
            forall|i: int|
                #![trigger self.binding_rows()[i]]
                0 <= i < self.binding_rows().len() ==> lookup(
                    self@.bindings,
                    (self.binding_rows()[i].project_id, self.binding_rows()[i].identity),
                ) == Some(self.binding_rows()[i]),
            forall|key: BindingKey| #[trigger]
                self@.bindings.contains_key(key) ==> exists|i: int|
                    0 <= i < self.binding_rows().len() && #[trigger] self.binding_rows()[i]
                        == self@.bindings[key],
            forall|i: int, j: int|
                #![trigger self.binding_rows()[i], self.binding_rows()[j]]
                0 <= i < self.binding_rows().len() && 0 <= j < self.binding_rows().len()
                    && (self.binding_rows()[i].project_id, self.binding_rows()[i].identity)
                    == (self.binding_rows()[j].project_id, self.binding_rows()[j].identity) ==> i == j,
    {
        let rows = self.binding_rows();
        assert forall|i: int| #![trigger rows[i]] 0 <= i < rows.len() implies lookup(
            self@.bindings,
            (rows[i].project_id, rows[i].identity),
        ) == Some(rows[i]) by {
            lemma_row(rows, binding_key(), i);
        }
        assert forall|key: BindingKey| #[trigger] self@.bindings.contains_key(key) implies exists|i: int|
            0 <= i < rows.len() && #[trigger] rows[i] == self@.bindings[key] by {
            lemma_present(rows, binding_key(), key);
            assert(rows[crate::keyed::place(rows, binding_key(), key)] == self@.bindings[key]);
        }
        assert forall|i: int, j: int|
            #![trigger rows[i], rows[j]]
            0 <= i < rows.len() && 0 <= j < rows.len() && (rows[i].project_id, rows[i].identity) == (rows[j].project_id, rows[j].identity) implies i
            == j by {
            assert(binding_key()(rows[i]) == binding_key()(rows[j]));
        }
    }
}

proof fn lemma_views_push<T: View>(values: Seq<T>, value: T)
    ensures
        views(values.push(value)) == views(values).push(value@),
{
    assert(views(values.push(value)) =~= views(values).push(value@));
}

proof fn lemma_views_update<T: View>(values: Seq<T>, index: int, value: T)
    requires
        0 <= index < values.len(),
    ensures
        views(values.update(index, value)) == views(values).update(index, value@),
{
    assert(views(values.update(index, value)) =~= views(values).update(index, value@));
}

/// The place of a turn among the turns of a conversation.
fn turn_index(turns: &Vec<TurnRecord>, turn_id: TurnId) -> (found: Option<usize>)
    ensures
        match found {
            Some(index) => index < turns@.len() && turns@[index as int]@.turn.turn_id == turn_id,
            None => !has_turn(views(turns@), turn_id),
        },
{
    let mut index: usize = 0;
    while index < turns.len()
        invariant
            index <= turns@.len(),
            forall|i: int|
                0 <= i < index ==> (#[trigger] views(turns@)[i]).turn.turn_id != turn_id,
        decreases turns@.len() - index,
    {
        if turns[index].turn.turn_id == turn_id {
            return Some(index);
        }
        index = index + 1;
    }
    None
}

impl ConversationRecord {
    /// The turn with its fingerprint, if the conversation has it.
    pub fn turn(&self, turn_id: TurnId) -> (found: Option<&TurnRecord>)
        requires
            turns_distinct(self@.turns),
        ensures
            optional(found) == find_turn(self@.turns, turn_id),
    {
        match turn_index(&self.turns, turn_id) {
            Some(index) => {
                proof {
                    lemma_turn_place(self@.turns, index as int);
                }
                Some(&self.turns[index])
            },
            None => None,
        }
    }
}

/// A turn stands at its own place.
pub proof fn lemma_turn_place(turns: Seq<TurnRecordView>, index: int)
    requires
        turns_distinct(turns),
        0 <= index < turns.len(),
    ensures
        has_turn(turns, turns[index].turn.turn_id),
        turn_place(turns, turns[index].turn.turn_id) == index,
{
    let id = turns[index].turn.turn_id;
    assert(has_turn(turns, id));
    let chosen = turn_place(turns, id);
    assert(0 <= chosen < turns.len() && turns[chosen].turn.turn_id == id);
}

impl Tables {
    fn insert_project(&mut self, project: &ProjectRegistration)
        requires
            old(self).well_formed(),
        ensures
            final(self).well_formed(),
            final(self)@ == old(self)@.after(ChangeView::InsertProject(project@)),
    {
        let ghost rows = views(self.projects@);
        match self.project_index(&project.project_id) {
            Some(index) => {
                proof {
                    lemma_row(rows, project_key(), index as int);
                }
            },
            None => {
                let row = project.clone();
                proof {
                    lemma_absent(rows, project_key(), project@.project_id);
                    lemma_push(rows, project_key(), row@);
                    lemma_views_push(self.projects@, row);
                }
                self.projects.push(row);
            },
        }
    }

    fn insert_operation(&mut self, record: &OperationRecord)
        requires
            old(self).well_formed(),
        ensures
            final(self).well_formed(),
            final(self)@ == old(self)@.after(ChangeView::InsertOperation(record@)),
    {
        let ghost rows = views(self.operations@);
        if self.requested(record.operation.request_id).is_some() {
            return;
        }
        match self.operation_index(record.operation.operation_id) {
            Some(index) => {
                proof {
                    lemma_row(rows, operation_key(), index as int);
                }
            },
            None => {
                let row = record.clone();
                proof {
                    lemma_absent(rows, operation_key(), record@.operation.operation_id);
                    lemma_push(rows, operation_key(), row@);
                    assert forall|i: int| 0 <= i < rows.len() implies request_key()(
                        #[trigger] rows[i],
                    ) != request_key()(row@) by {
                        lemma_row(rows, operation_key(), i);
                        assert(self@.operations.contains_key(rows[i].operation.operation_id));
                    }
                    lemma_absent(rows, request_key(), record@.operation.request_id);
                    lemma_push(rows, request_key(), row@);
                    lemma_views_push(self.operations@, row);
                }
                self.operations.push(row);
            },
        }
    }

    fn update_operation(&mut self, operation: &Operation)
        requires
            old(self).well_formed(),
        ensures
            final(self).well_formed(),
            final(self)@ == old(self)@.after(ChangeView::UpdateOperation(operation@)),
    {
        let ghost rows = views(self.operations@);
        match self.operation_index(operation.operation_id) {
            Some(index) => {
                proof {
                    lemma_row(rows, operation_key(), index as int);
                }
                if self.operations[index].operation.request_id == operation.request_id {
                    let row = OperationRecord {
                        operation: operation.clone(),
                        fingerprint: self.operations[index].fingerprint.clone(),
                    };
                    proof {
                        lemma_update(rows, operation_key(), index as int, row@);
                        lemma_update(rows, request_key(), index as int, row@);
                        lemma_views_update(self.operations@, index as int, row);
                    }
                    self.operations.set(index, row);
                }
            },
            None => {
                proof {
                    lemma_absent(rows, operation_key(), operation@.operation_id);
                }
            },
        }
    }

    fn claim_session(&mut self, claim: &Claim)
        requires
            old(self).well_formed(),
        ensures
            final(self).well_formed(),
            final(self)@ == old(self)@.after(ChangeView::ClaimSession(*claim)),
    {
        let ghost rows = self.claims@;
        match self.claimant_index(claim.operation_id) {
            Some(index) => {
                proof {
                    lemma_row(rows, session_key(), index as int);
                    assert(self@.claims.contains_key(rows[index as int].session_id));
                }
            },
            None => {
                proof {
                    if self@.has_claim(claim.operation_id) {
                        let session = choose|session: SessionId| #[trigger]
                            self@.claims.contains_key(session)
                                && self@.claims[session].operation_id == claim.operation_id;
                        lemma_present(rows, session_key(), session);
                    }
                }
                match self.claim_index(claim.session_id) {
                    Some(index) => {
                        proof {
                            lemma_row(rows, session_key(), index as int);
                        }
                    },
                    None => {
                        proof {
                            lemma_absent(rows, session_key(), claim.session_id);
                            lemma_push(rows, session_key(), *claim);
                            lemma_absent(rows, claimant_key(), claim.operation_id);
                            lemma_push(rows, claimant_key(), *claim);
                        }
                        self.claims.push(*claim);
                    },
                }
            },
        }
    }

    fn release_session(&mut self, operation_id: OperationId)
        requires
            old(self).well_formed(),
        ensures
            final(self).well_formed(),
            final(self)@ == old(self)@.after(ChangeView::ReleaseSession { operation_id }),
    {
        let ghost rows = self.claims@;
        let ghost before = self@;
        proof {
            self.lemma_consistent();
        }
        match self.claimant_index(operation_id) {
            Some(index) => {
                proof {
                    lemma_row(rows, session_key(), index as int);
                    lemma_remove(rows, session_key(), index as int);
                    lemma_remove(rows, claimant_key(), index as int);
                    assert(before.claims.contains_key(rows[index as int].session_id));
                }
                self.claims.remove(index);
            },
            None => {
                proof {
                    assert forall|session: SessionId| #[trigger]
                        before.claims.contains_key(session) implies before.claims[session]
                        .operation_id != operation_id by {
                        lemma_present(rows, session_key(), session);
                    }
                }
            },
        }
        proof {
            assert(self@.claims =~= before.after(
                ChangeView::ReleaseSession { operation_id },
            ).claims);
        }
    }

    fn insert_conversation(&mut self, conversation: &Conversation)
        requires
            old(self).well_formed(),
        ensures
            final(self).well_formed(),
            final(self)@ == old(self)@.after(ChangeView::InsertConversation(conversation@)),
    {
        let ghost rows = views(self.conversations@);
        match self.conversation_index(conversation.conversation_id) {
            Some(index) => {
                proof {
                    lemma_row(rows, conversation_key(), index as int);
                }
            },
            None => {
                let row = ConversationRecord {
                    conversation: conversation.clone(),
                    turns: Vec::new(),
                    events: Vec::new(),
                };
                proof {
                    assert(row@.turns =~= Seq::empty());
                    assert(row@.events =~= Seq::empty());
                    lemma_absent(rows, conversation_key(), conversation@.conversation_id);
                    lemma_push(rows, conversation_key(), row@);
                    lemma_views_push(self.conversations@, row);
                }
                self.conversations.push(row);
            },
        }
    }

    /// Puts a record in the place of the one of the same conversation.
    fn set_conversation(&mut self, index: usize, row: ConversationRecord)
        requires
            old(self).well_formed(),
            index < old(self).conversations@.len(),
            old(self).conversations@[index as int]@.conversation.conversation_id
                == row@.conversation.conversation_id,
            turns_distinct(row@.turns),
            turns_belong(row@.turns, row@.conversation.conversation_id),
        ensures
            final(self).well_formed(),
            final(self)@ == (TablesView {
                conversations: old(self)@.conversations.insert(
                    row@.conversation.conversation_id,
                    row@,
                ),
                ..old(self)@
            }),
    {
        let ghost rows = views(self.conversations@);
        proof {
            lemma_update(rows, conversation_key(), index as int, row@);
            lemma_views_update(self.conversations@, index as int, row);
        }
        self.conversations.set(index, row);
    }

    fn update_conversation(&mut self, conversation: &Conversation)
        requires
            old(self).well_formed(),
        ensures
            final(self).well_formed(),
            final(self)@ == old(self)@.after(ChangeView::UpdateConversation(conversation@)),
    {
        let ghost rows = views(self.conversations@);
        match self.conversation_index(conversation.conversation_id) {
            Some(index) => {
                proof {
                    lemma_row(rows, conversation_key(), index as int);
                }
                let mut row = self.conversations[index].clone();
                row.conversation = conversation.clone();
                proof {
                    assert(row@.turns == rows[index as int].turns);
                }
                self.set_conversation(index, row);
            },
            None => {
                proof {
                    lemma_absent(rows, conversation_key(), conversation@.conversation_id);
                }
            },
        }
    }

    fn insert_turn(&mut self, turn: &TurnRecord)
        requires
            old(self).well_formed(),
        ensures
            final(self).well_formed(),
            final(self)@ == old(self)@.after(ChangeView::InsertTurn(turn@)),
    {
        let ghost rows = views(self.conversations@);
        let ghost before = self@;
        match self.conversation_index(turn.turn.conversation_id) {
            Some(index) => {
                proof {
                    lemma_row(rows, conversation_key(), index as int);
                }
                let mut row = self.conversations[index].clone();
                proof {
                    assert(row@ == rows[index as int]);
                }
                let copy = turn.clone();
                match turn_index(&row.turns, turn.turn.turn_id) {
                    Some(at) => {
                        proof {
                            assert(row@.turns[at as int].turn.turn_id == turn@.turn.turn_id);
                            assert(before.conversations =~= before.conversations.insert(
                                turn@.turn.conversation_id,
                                row@,
                            ));
                        }
                    },
                    None => {
                        let ghost turns = row@.turns;
                        proof {
                            lemma_views_push(row.turns@, copy);
                            assert(turns_distinct(turns.push(copy@))) by {
                                let more = turns.push(copy@);
                                assert forall|i: int, j: int|
                                    #![trigger more[i], more[j]]
                                    0 <= i < more.len() && 0 <= j < more.len()
                                        && more[i].turn.turn_id == more[j].turn.turn_id implies i
                                    == j by {
                                    if i < turns.len() {
                                        assert(turns[i] == more[i]);
                                    }
                                    if j < turns.len() {
                                        assert(turns[j] == more[j]);
                                    }
                                }
                            }
                        }
                        row.turns.push(copy);
                        self.set_conversation(index, row);
                    },
                }
            },
            None => {
                proof {
                    lemma_absent(rows, conversation_key(), turn@.turn.conversation_id);
                }
            },
        }
    }

    fn update_turn(&mut self, turn: &ConversationTurn)
        requires
            old(self).well_formed(),
        ensures
            final(self).well_formed(),
            final(self)@ == old(self)@.after(ChangeView::UpdateTurn(turn@)),
    {
        let ghost rows = views(self.conversations@);
        let ghost before = self@;
        match self.conversation_index(turn.conversation_id) {
            Some(index) => {
                proof {
                    lemma_row(rows, conversation_key(), index as int);
                }
                let mut row = self.conversations[index].clone();
                let ghost turns = row@.turns;
                proof {
                    assert(row@ == rows[index as int]);
                }
                match turn_index(&row.turns, turn.turn_id) {
                    Some(at) => {
                        let changed = TurnRecord {
                            turn: turn.clone(),
                            fingerprint: row.turns[at].fingerprint.clone(),
                        };
                        proof {
                            assert(turns[at as int] == row.turns@[at as int]@);
                            lemma_turn_place(turns, at as int);
                            lemma_views_update(row.turns@, at as int, changed);
                            let updated = turns.update(at as int, changed@);
                            assert forall|i: int, j: int|
                                #![trigger updated[i], updated[j]]
                                0 <= i < updated.len() && 0 <= j < updated.len()
                                    && updated[i].turn.turn_id == updated[j].turn.turn_id implies i
                                == j by {
                                assert(turns[i].turn.turn_id == updated[i].turn.turn_id);
                                assert(turns[j].turn.turn_id == updated[j].turn.turn_id);
                            }
                        }
                        row.turns.set(at, changed);
                        self.set_conversation(index, row);
                    },
                    None => {
                        proof {
                            assert(before.conversations =~= before.conversations.insert(
                                turn@.conversation_id,
                                row@,
                            ));
                        }
                    },
                }
            },
            None => {
                proof {
                    lemma_absent(rows, conversation_key(), turn@.conversation_id);
                }
            },
        }
    }

    fn append_event(&mut self, event: &ConversationEvent)
        requires
            old(self).well_formed(),
        ensures
            final(self).well_formed(),
            final(self)@ == old(self)@.after(ChangeView::AppendEvent(event@)),
    {
        let ghost rows = views(self.conversations@);
        match self.conversation_index(event.conversation_id) {
            Some(index) => {
                proof {
                    lemma_row(rows, conversation_key(), index as int);
                }
                let mut row = self.conversations[index].clone();
                let copy = event.clone();
                proof {
                    assert(row@ == rows[index as int]);
                    lemma_views_push(row.events@, copy);
                }
                row.events.push(copy);
                self.set_conversation(index, row);
            },
            None => {
                proof {
                    lemma_absent(rows, conversation_key(), event@.conversation_id);
                }
            },
        }
    }

    fn cover_operation(&mut self, operation_id: OperationId)
        requires
            old(self).well_formed(),
        ensures
            final(self).well_formed(),
            final(self)@ == old(self)@.after(ChangeView::CoverOperation { operation_id }),
    {
        let ghost rows = views(self.diagnostics@);
        match self.diagnostic_index(operation_id) {
            Some(index) => {
                proof {
                    lemma_row(rows, diagnostic_key(), index as int);
                }
            },
            None => {
                let row = DiagnosticRecord { operation_id, diagnostics: Vec::new() };
                proof {
                    assert(row@.diagnostics =~= Seq::empty());
                    lemma_absent(rows, diagnostic_key(), operation_id);
                    lemma_push(rows, diagnostic_key(), row@);
                    lemma_views_push(self.diagnostics@, row);
                }
                self.diagnostics.push(row);
            },
        }
    }

    fn append_diagnostic(&mut self, diagnostic: &OperationDiagnostic)
        requires
            old(self).well_formed(),
        ensures
            final(self).well_formed(),
            final(self)@ == old(self)@.after(ChangeView::AppendDiagnostic(*diagnostic)),
    {
        let ghost rows = views(self.diagnostics@);
        match self.diagnostic_index(diagnostic.operation_id) {
            Some(index) => {
                proof {
                    lemma_row(rows, diagnostic_key(), index as int);
                }
                let mut row = self.diagnostics[index].clone();
                proof {
                    assert(row@ == rows[index as int]);
                }
                row.diagnostics.push(*diagnostic);
                proof {
                    lemma_update(rows, diagnostic_key(), index as int, row@);
                    lemma_views_update(self.diagnostics@, index as int, row);
                }
                self.diagnostics.set(index, row);
            },
            None => {
                proof {
                    lemma_absent(rows, diagnostic_key(), diagnostic.operation_id);
                }
            },
        }
    }

    fn insert_binding(&mut self, binding: &InitiatorBinding)
        requires
            old(self).well_formed(),
        ensures
            final(self).well_formed(),
            final(self)@ == old(self)@.after(ChangeView::InsertBinding(binding@)),
    {
        let ghost rows = views(self.bindings@);
        match self.binding_index(&binding.project_id, &binding.identity) {
            Some(index) => {
                proof {
                    lemma_row(rows, binding_key(), index as int);
                }
            },
            None => {
                let row = binding.clone();
                proof {
                    lemma_absent(
                        rows,
                        binding_key(),
                        (binding@.project_id, binding@.identity),
                    );
                    lemma_push(rows, binding_key(), row@);
                    lemma_views_push(self.bindings@, row);
                }
                self.bindings.push(row);
            },
        }
    }

    /// Performs one write.
    pub fn apply(&mut self, change: &Change)
        requires
            old(self).well_formed(),
        ensures
            final(self).well_formed(),
            final(self)@ == old(self)@.after(change@),
    {
        match change {
            Change::InsertProject(project) => self.insert_project(project),
            Change::InsertOperation(record) => self.insert_operation(record),
            Change::UpdateOperation(operation) => self.update_operation(operation),
            Change::ClaimSession(claim) => self.claim_session(claim),
            Change::ReleaseSession { operation_id } => self.release_session(*operation_id),
            Change::InsertConversation(conversation) => self.insert_conversation(conversation),
            Change::UpdateConversation(conversation) => self.update_conversation(conversation),
            Change::InsertTurn(turn) => self.insert_turn(turn),
            Change::UpdateTurn(turn) => self.update_turn(turn),
            Change::AppendEvent(event) => self.append_event(event),
            Change::CoverOperation { operation_id } => self.cover_operation(*operation_id),
            Change::AppendDiagnostic(diagnostic) => self.append_diagnostic(diagnostic),
            Change::InsertBinding(binding) => self.insert_binding(binding),
        }
    }

    /// Performs the writes of one decision, in order.
    pub fn commit(&mut self, changes: &Vec<Change>)
        requires
            old(self).well_formed(),
        ensures
            final(self).well_formed(),
            final(self)@ == old(self)@.after_all(views(changes@)),
    {
        let ghost before = self@;
        let mut index: usize = 0;
        while index < changes.len()
            invariant
                index <= changes@.len(),
                self.well_formed(),
                self@ == before.after_all(views(changes@).take(index as int)),
            decreases changes@.len() - index,
        {
            let ghost taken = views(changes@).take(index as int);
            self.apply(&changes[index]);
            index = index + 1;
            proof {
                assert(views(changes@).take(index as int) =~= taken.push(
                    changes@[index - 1]@,
                ));
                lemma_after_push(before, taken, changes@[index - 1]@);
            }
        }
        proof {
            assert(views(changes@).take(index as int) =~= views(changes@));
        }
    }
}
} // verus!
