//! What holds of durable state as a whole.

use vstd::prelude::*;

use crate::contract::control::{
    BindingPersistence, ConversationStartAdmissionView, ConversationStartView,
    InitiatorBindingView, OperationAdmissionView, OperationDiagnostic, OperationDiagnosticPayload,
    OperationDiagnosticsView, OperationStartView, OperationState, OperationView,
    OperatorErrorView, ProjectRegistrationView, TerminalOutcomeView,
};
use crate::contract::identity::{OperationId, RequestId, SessionId};
use crate::state::conversation::start_admission;
use crate::state::diagnostic::{
    diagnostic_recorded, diagnostics_after, diagnostics_read, highest_diagnostic,
};
use crate::state::initiator_binding::binding_persistence;
use crate::keyed::lookup;
use crate::state::operation::{admission, admitted_operation, transitioned};
use crate::state::project::{registered, registration};
use crate::state::tables::{
    has_turn, lemma_after_one, lemma_after_three, lemma_after_two, turn_place, ChangeView, Claim,
    DiagnosticRecordView, OperationRecordView, TablesView,
};

verus! {

/// Whether every unfinished operation holds the claim to its own session.
pub open spec fn writers_claimed(tables: TablesView) -> bool {
    forall|id: OperationId| #[trigger]
        tables.operations.contains_key(id) && !tables.operations[id].operation.state.is_terminal()
            ==> lookup(tables.claims, tables.operations[id].operation.session_id) == Some(
            Claim {
                session_id: tables.operations[id].operation.session_id,
                operation_id: id,
            },
        )
}

/// One session never has two unfinished operations, one-shot or live.
pub proof fn one_active_writer(tables: TablesView, left: OperationId, right: OperationId)
    requires
        writers_claimed(tables),
        tables.operations.contains_key(left),
        tables.operations.contains_key(right),
        !tables.operations[left].operation.state.is_terminal(),
        !tables.operations[right].operation.state.is_terminal(),
        tables.operations[left].operation.session_id
            == tables.operations[right].operation.session_id,
    ensures
        left == right,
{
}

/// Tables without a row satisfy the claim of every writer.
pub proof fn empty_tables_claimed()
    ensures
        TablesView::empty().consistent(),
        writers_claimed(TablesView::empty()),
{
}

/// What an inserted one-shot operation leaves in the tables.
pub(crate) proof fn lemma_admitted(
    tables: TablesView,
    request: OperationStartView,
    session_id: SessionId,
    fingerprint: Seq<char>,
    fresh: OperationId,
    operation: OperationView,
    changes: Seq<ChangeView>,
)
    requires
        tables.consistent(),
        admission(tables, request, session_id, fingerprint, fresh) == Ok::<_, OperatorErrorView>(
            (OperationAdmissionView::Inserted(operation), changes),
        ),
    ensures
        operation == admitted_operation(
            fresh,
            request.request_id,
            request.project_id,
            request.intent,
            session_id,
        ),
        tables.after_all(changes).operations == tables.operations.insert(
            fresh,
            OperationRecordView { operation, fingerprint },
        ),
        tables.after_all(changes).claims == tables.claims.insert(
            session_id,
            Claim { session_id, operation_id: fresh },
        ),
        tables.after_all(changes).conversations == tables.conversations,
        tables.after_all(changes).projects == tables.projects,
        tables.after_all(changes).bindings == tables.bindings,
        tables.after_all(changes).diagnostics == tables.diagnostics.insert(
            fresh,
            DiagnosticRecordView { operation_id: fresh, diagnostics: Seq::empty() },
        ),
        !tables.operations.contains_key(fresh),
        !tables.has_request(request.request_id),
        !tables.claims.contains_key(session_id),
        !tables.has_claim(fresh),
{
    let insert = ChangeView::InsertOperation(OperationRecordView { operation, fingerprint });
    let claim = ChangeView::ClaimSession(Claim { session_id, operation_id: fresh });
    let cover = ChangeView::CoverOperation { operation_id: fresh };
    lemma_after_three(tables, insert, claim, cover);
    assert(changes =~= seq![insert, claim, cover]);
    let first = tables.after(insert);
    assert(first.operations =~= tables.operations.insert(
        fresh,
        OperationRecordView { operation, fingerprint },
    ));
    assert(!first.has_claim(fresh)) by {
        if first.has_claim(fresh) {
            let session = choose|session: SessionId| #[trigger]
                first.claims.contains_key(session) && first.claims[session].operation_id == fresh;
            assert(tables.claims.contains_key(session));
        }
    }
}

/// A one-shot admission keeps the tables consistent and every unfinished operation claimed.
pub proof fn admission_keeps_writers(
    tables: TablesView,
    request: OperationStartView,
    session_id: SessionId,
    fingerprint: Seq<char>,
    fresh: OperationId,
    admitted: OperationAdmissionView,
    changes: Seq<ChangeView>,
)
    requires
        tables.consistent(),
        writers_claimed(tables),
        admission(tables, request, session_id, fingerprint, fresh) == Ok::<_, OperatorErrorView>(
            (admitted, changes),
        ),
    ensures
        tables.after_all(changes).consistent(),
        writers_claimed(tables.after_all(changes)),
{
    writes_keep_consistency(tables, changes);
    match admitted {
        OperationAdmissionView::Inserted(operation) => {
            lemma_admitted(
                tables,
                request,
                session_id,
                fingerprint,
                fresh,
                operation,
                changes,
            );
            let after = tables.after_all(changes);
            assert forall|id: OperationId| #[trigger]
                after.operations.contains_key(id)
                    && !after.operations[id].operation.state.is_terminal() implies lookup(
                after.claims,
                after.operations[id].operation.session_id,
            ) == Some(
                Claim {
                    session_id: after.operations[id].operation.session_id,
                    operation_id: id,
                },
            ) by {
                if id != fresh {
                    assert(tables.operations.contains_key(id));
                }
            }
        },
        _ => {
            assert(changes =~= Seq::empty());
        },
    }
}

/// An admitted operation is read back as it was admitted, with no diagnostics yet, and every other
/// operation stays as it was.
pub proof fn admitted_operation_is_read_back(
    tables: TablesView,
    request: OperationStartView,
    session_id: SessionId,
    fingerprint: Seq<char>,
    fresh: OperationId,
    operation: OperationView,
    changes: Seq<ChangeView>,
    other: OperationId,
)
    requires
        tables.consistent(),
        admission(tables, request, session_id, fingerprint, fresh) == Ok::<_, OperatorErrorView>(
            (OperationAdmissionView::Inserted(operation), changes),
        ),
        other != fresh,
    ensures
        tables.after_all(changes).operation(fresh) == Some(operation),
        diagnostics_read(tables.after_all(changes), fresh, 0) == Ok::<_, OperatorErrorView>(
            OperationDiagnosticsView { operation, diagnostics: Seq::empty() },
        ),
        tables.after_all(changes).operation(other) == tables.operation(other),
        operation.state is Accepted,
        operation.session_id == session_id,
{
    lemma_admitted(tables, request, session_id, fingerprint, fresh, operation, changes);
    assert(diagnostics_after(Seq::empty(), 0) =~= Seq::empty()) by {
        reveal(Seq::filter);
    }
}

/// One request is admitted once: after it was inserted, admitting it again yields that operation
/// with its first fingerprint and changes nothing.
pub proof fn admission_is_idempotent(
    tables: TablesView,
    request: OperationStartView,
    session_id: SessionId,
    fingerprint: Seq<char>,
    fresh: OperationId,
    operation: OperationView,
    changes: Seq<ChangeView>,
    again: OperationStartView,
    other_session: SessionId,
    other_fingerprint: Seq<char>,
    other_fresh: OperationId,
)
    requires
        tables.consistent(),
        admission(tables, request, session_id, fingerprint, fresh) == Ok::<_, OperatorErrorView>(
            (OperationAdmissionView::Inserted(operation), changes),
        ),
        again.request_id == request.request_id,
    ensures
        admission(
            tables.after_all(changes),
            again,
            other_session,
            other_fingerprint,
            other_fresh,
        ) == Ok::<_, OperatorErrorView>(
            (
                OperationAdmissionView::Existing { operation, fingerprint },
                Seq::<ChangeView>::empty(),
            ),
        ),
{
    lemma_admitted(tables, request, session_id, fingerprint, fresh, operation, changes);
    lemma_requested(tables, tables.after_all(changes), fresh, request.request_id);
}

/// The operation inserted for a new request is the one found for it.
proof fn lemma_requested(
    before: TablesView,
    after: TablesView,
    fresh: OperationId,
    request_id: RequestId,
)
    requires
        before.consistent(),
        !before.has_request(request_id),
        after.operations.contains_key(fresh),
        after.operations[fresh].operation.request_id == request_id,
        forall|id: OperationId| #[trigger]
            after.operations.contains_key(id) && id != fresh ==> before.operations.contains_key(id)
                && after.operations[id] == before.operations[id],
    ensures
        after.requested(request_id) == Some(after.operations[fresh]),
{
    assert(after.has_request(request_id));
    let id = choose|id: OperationId| #[trigger]
        after.operations.contains_key(id) && after.operations[id].operation.request_id
            == request_id;
    if id != fresh {
        assert(before.operations.contains_key(id));
    }
}

/// While an admitted operation holds a session, a one-shot request for that session is answered
/// with the operation that holds it.
pub proof fn claimed_session_refuses_operation(
    tables: TablesView,
    request: OperationStartView,
    session_id: SessionId,
    fingerprint: Seq<char>,
    fresh: OperationId,
    holder: OperationView,
)
    requires
        !tables.has_request(request.request_id),
        tables.projects.contains_key(request.project_id),
        tables.operation(holder.operation_id) == Some(holder),
        lookup(tables.claims, session_id) == Some(
            Claim { session_id, operation_id: holder.operation_id },
        ),
    ensures
        admission(tables, request, session_id, fingerprint, fresh) == Ok::<_, OperatorErrorView>(
            (OperationAdmissionView::ActiveSession { operation: holder }, Seq::<ChangeView>::empty()),
        ),
{
}

/// While an admitted operation holds a session, a conversation for that session is answered with
/// the operation that holds it: one-shot and live writers share the claims.
pub proof fn claimed_session_refuses_conversation(
    tables: TablesView,
    request: ConversationStartView,
    session_id: SessionId,
    fingerprint: Seq<char>,
    fresh: OperationId,
    holder: OperationView,
)
    requires
        !tables.has_request(request.request_id),
        tables.projects.contains_key(request.project_id),
        tables.operation(holder.operation_id) == Some(holder),
        lookup(tables.claims, session_id) == Some(
            Claim { session_id, operation_id: holder.operation_id },
        ),
    ensures
        start_admission(tables, request, session_id, fingerprint, fresh) == Ok::<
            _,
            OperatorErrorView,
        >(
            (
                ConversationStartAdmissionView::ActiveSession { operation: holder },
                Seq::<ChangeView>::empty(),
            ),
        ),
{
}

/// A release leaves the operation without a claim, and every other claim in place.
proof fn lemma_released(tables: TablesView, operation_id: OperationId)
    ensures
        ({
            let after = tables.after(ChangeView::ReleaseSession { operation_id });
            &&& !after.has_claim(operation_id)
            &&& after.operations == tables.operations
            &&& after.conversations == tables.conversations
            &&& forall|session: SessionId| #[trigger]
                after.claims.contains_key(session) ==> tables.claims.contains_key(session)
                    && after.claims[session] == tables.claims[session]
            &&& forall|session: SessionId| #[trigger]
                tables.claims.contains_key(session) && tables.claims[session].operation_id
                    != operation_id ==> after.claims.contains_key(session)
        }),
{
}

/// A transition keeps every unfinished operation claimed; one to a terminal state leaves the
/// operation without a claim and frees its session for another writer.
pub proof fn transition_keeps_writers(
    tables: TablesView,
    operation_id: OperationId,
    next: OperationState,
    terminal: Option<TerminalOutcomeView>,
    observed_session: Option<SessionId>,
    observed_model: Option<Seq<char>>,
    observed_version: Option<Seq<char>>,
    moved: OperationView,
    changes: Seq<ChangeView>,
)
    requires
        tables.consistent(),
        writers_claimed(tables),
        transitioned(
            tables,
            operation_id,
            next,
            terminal,
            observed_session,
            observed_model,
            observed_version,
        ) == Ok::<_, OperatorErrorView>((moved, changes)),
    ensures
        writers_claimed(tables.after_all(changes)),
        tables.after_all(changes).operation(operation_id) == Some(moved),
        next.is_terminal() ==> !tables.after_all(changes).has_claim(operation_id)
            && !tables.after_all(changes).claims.contains_key(moved.session_id),
{
    assert(tables.operations.contains_key(operation_id));
    let update = ChangeView::UpdateOperation(moved);
    let first = tables.after(update);
    assert(moved.operation_id == operation_id);
    if next.is_terminal() {
        let release = ChangeView::ReleaseSession { operation_id };
        lemma_after_two(tables, update, release);
        assert(changes =~= seq![update, release]);
        lemma_released(first, operation_id);
        let after = tables.after_all(changes);
        assert forall|id: OperationId| #[trigger]
            after.operations.contains_key(id)
                && !after.operations[id].operation.state.is_terminal() implies lookup(
            after.claims,
            after.operations[id].operation.session_id,
        ) == Some(
            Claim { session_id: after.operations[id].operation.session_id, operation_id: id },
        ) by {
            assert(tables.operations.contains_key(id) && id != operation_id);
            assert(tables.claims.contains_key(after.operations[id].operation.session_id));
        }
        if after.claims.contains_key(moved.session_id) {
            assert(tables.claims[moved.session_id].operation_id == operation_id);
            assert(after.claims.contains_key(moved.session_id));
            assert(after.has_claim(operation_id));
        }
    } else {
        lemma_after_one(tables, update);
        assert(changes =~= seq![update]);
        let after = tables.after_all(changes);
        assert forall|id: OperationId| #[trigger]
            after.operations.contains_key(id)
                && !after.operations[id].operation.state.is_terminal() implies lookup(
            after.claims,
            after.operations[id].operation.session_id,
        ) == Some(
            Claim { session_id: after.operations[id].operation.session_id, operation_id: id },
        ) by {
            assert(tables.operations.contains_key(id));
        }
    }
}

/// An operation that has ended stays as it is: every further transition is a conflict.
pub proof fn terminal_operation_is_final(
    tables: TablesView,
    operation: OperationView,
    next: OperationState,
    terminal: Option<TerminalOutcomeView>,
    observed_session: Option<SessionId>,
    observed_model: Option<Seq<char>>,
    observed_version: Option<Seq<char>>,
)
    requires
        tables.operation(operation.operation_id) == Some(operation),
        operation.state.is_terminal(),
    ensures
        transitioned(
            tables,
            operation.operation_id,
            next,
            terminal,
            observed_session,
            observed_model,
            observed_version,
        ) == Err::<(OperationView, Seq<ChangeView>), _>(
            crate::contract::control::conflict("operation transition is not permitted"@),
        ),
{
}

/// Whether an operation has an outcome exactly where it has ended.
pub open spec fn outcome_matches_state(operation: OperationView) -> bool {
    operation.terminal_outcome is Some <==> operation.state.is_terminal()
}

/// A transition gives an operation an outcome exactly where it ends it.
pub proof fn transition_matches_outcome(
    tables: TablesView,
    operation_id: OperationId,
    next: OperationState,
    terminal: Option<TerminalOutcomeView>,
    observed_session: Option<SessionId>,
    observed_model: Option<Seq<char>>,
    observed_version: Option<Seq<char>>,
    moved: OperationView,
    changes: Seq<ChangeView>,
)
    requires
        transitioned(
            tables,
            operation_id,
            next,
            terminal,
            observed_session,
            observed_model,
            observed_version,
        ) == Ok::<_, OperatorErrorView>((moved, changes)),
    ensures
        outcome_matches_state(moved),
        moved.state == next,
{
}

/// Every write keeps the tables consistent.
pub proof fn writes_keep_consistency(tables: TablesView, changes: Seq<ChangeView>)
    requires
        tables.consistent(),
    ensures
        tables.after_all(changes).consistent(),
    decreases changes.len(),
{
    if changes.len() > 0 {
        writes_keep_consistency(tables, changes.drop_last());
        lemma_write_keeps_consistency(tables.after_all(changes.drop_last()), changes.last());
    }
}

/// One write keeps the tables consistent.
proof fn lemma_write_keeps_consistency(tables: TablesView, change: ChangeView)
    requires
        tables.consistent(),
    ensures
        tables.after(change).consistent(),
{
    let after = tables.after(change);
    match change {
        ChangeView::InsertOperation(record) => {
            assert forall|left: OperationId, right: OperationId|
                #![trigger after.operations.contains_key(left), after.operations.contains_key(right)]
                after.operations.contains_key(left) && after.operations.contains_key(right)
                    && after.operations[left].operation.request_id
                    == after.operations[right].operation.request_id implies left == right by {
                if left != right {
                    if left != record.operation.operation_id {
                        assert(tables.operations.contains_key(left));
                    }
                    if right != record.operation.operation_id {
                        assert(tables.operations.contains_key(right));
                    }
                }
            }
        },
        ChangeView::UpdateOperation(operation) => {
            assert forall|left: OperationId, right: OperationId|
                #![trigger after.operations.contains_key(left), after.operations.contains_key(right)]
                after.operations.contains_key(left) && after.operations.contains_key(right)
                    && after.operations[left].operation.request_id
                    == after.operations[right].operation.request_id implies left == right by {
                assert(tables.operations.contains_key(left));
                assert(tables.operations.contains_key(right));
            }
        },
        ChangeView::ClaimSession(claim) => {
            assert forall|left: SessionId, right: SessionId|
                #![trigger after.claims.contains_key(left), after.claims.contains_key(right)]
                after.claims.contains_key(left) && after.claims.contains_key(right)
                    && after.claims[left].operation_id == after.claims[right].operation_id implies left
                == right by {
                if left != right {
                    if left != claim.session_id {
                        assert(tables.claims.contains_key(left));
                    }
                    if right != claim.session_id {
                        assert(tables.claims.contains_key(right));
                    }
                }
            }
        },
        ChangeView::ReleaseSession { operation_id } => {
            assert forall|left: SessionId, right: SessionId|
                #![trigger after.claims.contains_key(left), after.claims.contains_key(right)]
                after.claims.contains_key(left) && after.claims.contains_key(right)
                    && after.claims[left].operation_id == after.claims[right].operation_id implies left
                == right by {
                assert(tables.claims.contains_key(left));
                assert(tables.claims.contains_key(right));
            }
        },
        ChangeView::InsertTurn(turn) => {
            let id = turn.turn.conversation_id;
            if tables.conversations.contains_key(id) {
                let before = tables.conversations[id].turns;
                let turns = after.conversations[id].turns;
                assert forall|i: int, j: int|
                    #![trigger turns[i], turns[j]]
                    0 <= i < turns.len() && 0 <= j < turns.len() && turns[i].turn.turn_id
                        == turns[j].turn.turn_id implies i == j by {
                    if i < before.len() {
                        assert(turns[i] == before[i]);
                    }
                    if j < before.len() {
                        assert(turns[j] == before[j]);
                    }
                }
                assert forall|i: int| 0 <= i < turns.len() implies (
                #[trigger] turns[i]).turn.conversation_id == id by {
                    if i < before.len() {
                        assert(turns[i] == before[i]);
                    }
                }
            }
        },
        ChangeView::UpdateTurn(turn) => {
            let id = turn.conversation_id;
            if tables.conversations.contains_key(id) {
                let before = tables.conversations[id].turns;
                let turns = after.conversations[id].turns;
                if has_turn(before, turn.turn_id) {
                    let place = turn_place(before, turn.turn_id);
                    assert(0 <= place < before.len() && before[place].turn.turn_id
                        == turn.turn_id);
                }
                assert forall|i: int| 0 <= i < turns.len() implies (
                #[trigger] turns[i]).turn.conversation_id == id && turns[i].turn.turn_id
                    == before[i].turn.turn_id by {}
                assert forall|i: int, j: int|
                    #![trigger turns[i], turns[j]]
                    0 <= i < turns.len() && 0 <= j < turns.len() && turns[i].turn.turn_id
                        == turns[j].turn.turn_id implies i == j by {
                    assert(before[i].turn.turn_id == before[j].turn.turn_id);
                }
            }
        },
        _ => {},
    }
}

/// A project is registered once: the same registration again changes nothing, and a different one
/// under its name is a conflict.
pub proof fn registration_is_stable(
    tables: TablesView,
    project: ProjectRegistrationView,
    changes: Seq<ChangeView>,
    other: ProjectRegistrationView,
)
    requires
        registration(tables, project) == Ok::<_, OperatorErrorView>((project, changes)),
        other.project_id == project.project_id,
    ensures
        registration(tables.after_all(changes), other) == (if other == project {
            Ok::<(ProjectRegistrationView, Seq<ChangeView>), OperatorErrorView>(
                (project, Seq::empty()),
            )
        } else {
            Err(
                crate::contract::control::conflict(
                    "project_id is already registered with different configuration"@,
                ),
            )
        }),
{
    if changes.len() == 0 {
        assert(changes =~= Seq::empty());
    } else {
        lemma_after_one(tables, ChangeView::InsertProject(project));
        assert(changes =~= seq![ChangeView::InsertProject(project)]);
    }
}

/// A registered project is read back as it was registered, and every other project stays as it was.
pub proof fn registered_project_is_read_back(
    tables: TablesView,
    project: ProjectRegistrationView,
    changes: Seq<ChangeView>,
    other: Seq<char>,
)
    requires
        registration(tables, project) == Ok::<_, OperatorErrorView>((project, changes)),
        other != project.project_id,
    ensures
        registered(tables.after_all(changes), project.project_id) == Ok::<_, OperatorErrorView>(
            project,
        ),
        registered(tables.after_all(changes), other) == registered(tables, other),
{
    if changes.len() == 0 {
        assert(changes =~= Seq::empty());
    } else {
        lemma_after_one(tables, ChangeView::InsertProject(project));
        assert(changes =~= seq![ChangeView::InsertProject(project)]);
    }
}

/// A binding is never replaced: once an identity is bound, persisting any binding of it tells the
/// session it was first bound to and changes nothing.
pub proof fn binding_is_stable(
    tables: TablesView,
    binding: InitiatorBindingView,
    other: InitiatorBindingView,
)
    requires
        binding_persistence(tables, binding).0 is Inserted,
        other.project_id == binding.project_id,
        other.identity == binding.identity,
    ensures
        binding_persistence(tables.after_all(binding_persistence(tables, binding).1), other) == (
            BindingPersistence::Existing { target_session_id: binding.target_session_id },
            Seq::<ChangeView>::empty(),
        ),
{
    lemma_after_one(tables, ChangeView::InsertBinding(binding));
}

/// Whether diagnostics are numbered from one without a gap.
pub open spec fn diagnostics_numbered(diagnostics: Seq<OperationDiagnostic>) -> bool {
    forall|i: int|
        0 <= i < diagnostics.len() ==> (#[trigger] diagnostics[i]).diagnostic_sequence == i + 1
}

/// A cursor loses nothing and repeats nothing: reading gapless diagnostics after a cursor gives
/// exactly those beyond it, in their order.
pub proof fn diagnostic_cursor_reads_the_rest(
    diagnostics: Seq<OperationDiagnostic>,
    cursor: u64,
)
    requires
        diagnostics_numbered(diagnostics),
    ensures
        diagnostics_after(diagnostics, cursor) == (if cursor <= diagnostics.len() {
            diagnostics.skip(cursor as int)
        } else {
            Seq::empty()
        }),
    decreases diagnostics.len(),
{
    reveal(Seq::filter);
    if diagnostics.len() > 0 {
        let rest = diagnostics.drop_last();
        assert(diagnostics_numbered(rest)) by {
            assert forall|i: int| 0 <= i < rest.len() implies (
            #[trigger] rest[i]).diagnostic_sequence == i + 1 by {
                assert(rest[i] == diagnostics[i]);
            }
        }
        diagnostic_cursor_reads_the_rest(rest, cursor);
        assert(diagnostics.last().diagnostic_sequence == diagnostics.len());
        if cursor < diagnostics.len() {
            assert(rest.skip(cursor as int).push(diagnostics.last()) =~= diagnostics.skip(
                cursor as int,
            ));
        } else if cursor == diagnostics.len() {
            assert(diagnostics.skip(cursor as int) =~= Seq::empty());
        }
    }
}

/// The highest number of gapless diagnostics is how many there are.
pub(crate) proof fn lemma_highest_diagnostic(diagnostics: Seq<OperationDiagnostic>)
    requires
        diagnostics_numbered(diagnostics),
    ensures
        highest_diagnostic(diagnostics) == diagnostics.len(),
    decreases diagnostics.len(),
{
    if diagnostics.len() > 0 {
        let rest = diagnostics.drop_last();
        assert forall|i: int| 0 <= i < rest.len() implies (
        #[trigger] rest[i]).diagnostic_sequence == i + 1 by {
            assert(rest[i] == diagnostics[i]);
        }
        lemma_highest_diagnostic(rest);
        assert(diagnostics.last() == diagnostics[diagnostics.len() - 1]);
    }
}

/// A recorded diagnostic takes the next number, after those that are already there.
pub proof fn diagnostics_stay_numbered(
    tables: TablesView,
    operation_id: OperationId,
    payload: OperationDiagnosticPayload,
    recorded: OperationDiagnostic,
    changes: Seq<ChangeView>,
)
    requires
        diagnostic_recorded(tables, operation_id, payload) == Ok::<_, OperatorErrorView>(
            (recorded, changes),
        ),
        diagnostics_numbered(tables.diagnostics[operation_id].diagnostics),
    ensures
        diagnostics_numbered(tables.after_all(changes).diagnostics[operation_id].diagnostics),
        tables.after_all(changes).diagnostics[operation_id].diagnostics
            == tables.diagnostics[operation_id].diagnostics.push(recorded),
        recorded.payload == payload,
{
    lemma_after_one(tables, ChangeView::AppendDiagnostic(recorded));
    assert(changes =~= seq![ChangeView::AppendDiagnostic(recorded)]);
    lemma_highest_diagnostic(tables.diagnostics[operation_id].diagnostics);
}

} // verus!
