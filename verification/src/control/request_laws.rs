//! What each request is answered, told of the durable records themselves.

use vstd::prelude::*;

use crate::contract::control::{
    conflict, invalid_request, BindingRegistrationStatus, BindingRegistrationView,
    DaemonRequestView, DaemonResponseView, InitiatorBindingRequestView, InitiatorBindingView,
    OperationState, OperationView, OperatorErrorView, ProjectRegistrationView,
    SessionDecisionEvidenceView, SessionDecisionRequestView, SessionDecisionView,
    SessionEvidenceView, SessionInspectRequestView, SessionInventoryRequestView,
    SessionRefusalReason, TerminalOutcomeView,
};
use crate::contract::identity::{ConversationId, OperationId, SessionId};
use crate::contract::target::TargetLiveObservationView;
use crate::control::conversation::observation_applied;
use crate::control::dispatch::{handled, HandlingView};
use crate::control::outcome_laws::{
    exit_changes_only_the_end, exit_succeeds_with_the_last_answer, underway,
};
use crate::control::session_decision::proving_operations;
use crate::control::session_inventory::session_evidenced;
use crate::identifier::uuid_text;
use crate::state::operation::{evidence_of, evidenced, transitioned, whole_evidence};
use crate::state::tables::{lemma_after_one, lemma_after_two, BindingKey, ChangeView, TablesView};
use crate::text::{lemma_text_irreflexive, text_before};

verus! {

/// What is done with a request, or why it is refused.
pub type Handled = Result<(HandlingView, Seq<ChangeView>), OperatorErrorView>;

/// An answer that writes nothing.
pub open spec fn tells(result: Handled, response: DaemonResponseView) -> bool {
    result matches Ok((HandlingView::Answer(told), changes)) && told == response && changes.len()
        == 0
}

/// Whether a request is refused with an error.
pub open spec fn fails(result: Handled, error: OperatorErrorView) -> bool {
    result matches Err(told) && told == error
}

/// Whether an operation of the project succeeded in the session it was meant for, and its model was
/// observed.
pub open spec fn proves(
    operation: OperationView,
    project_id: Seq<char>,
    session: SessionId,
) -> bool {
    &&& operation.project_id == project_id
    &&& operation.state is Succeeded
    &&& operation.terminal_outcome matches Some(TerminalOutcomeView::Succeeded(_))
    &&& operation.observed_session_id == Some(session)
    &&& operation.session_id == session
    &&& operation.observed_model is Some
}

/// Whether a stored operation proves the session.
pub open spec fn proven_by(
    tables: TablesView,
    project_id: Seq<char>,
    session: SessionId,
    id: OperationId,
) -> bool {
    tables.operations.contains_key(id) && proves(
        tables.operations[id].operation,
        project_id,
        session,
    )
}

/// Whether some stored operation proves the session.
pub open spec fn proven(tables: TablesView, project_id: Seq<char>, session: SessionId) -> bool {
    exists|id: OperationId| #[trigger] proven_by(tables, project_id, session, id)
}

/// The evidence of an operation in its own words.
pub open spec fn evidence_in(operation: OperationView) -> SessionEvidenceView {
    SessionEvidenceView {
        operation_id: operation.operation_id,
        target_session_id: operation.session_id,
        observed_model: operation.observed_model->Some_0,
        observed_claude_version: operation.observed_claude_version,
    }
}

/// Whether operations stand in a list by strictly rising identity.
pub open spec fn rising(list: Seq<SessionEvidenceView>) -> bool {
    forall|i: int, j: int|
        #![trigger list[i], list[j]]
        0 <= i < j < list.len() ==> list[i].operation_id.0 < list[j].operation_id.0
}

/// An operation that proves a session gives evidence of it.
proof fn lemma_evidenced(
    tables: TablesView,
    project_id: Seq<char>,
    session: SessionId,
    id: OperationId,
)
    requires
        proven_by(tables, project_id, session, id),
    ensures
        evidenced(tables, project_id, None, evidence_in(tables.operations[id].operation)),
        evidenced(tables, project_id, Some(session), evidence_in(tables.operations[id].operation)),
        session_evidenced(tables, project_id, session),
{
    let operation = tables.operations[id].operation;
    assert(evidence_of(operation, project_id, None) == Some(evidence_in(operation)));
    assert(evidence_of(operation, project_id, Some(session)) == Some(evidence_in(operation)));
}

/// Evidence comes from an operation that proves its session.
proof fn lemma_proven(
    tables: TablesView,
    project_id: Seq<char>,
    wanted: Option<SessionId>,
    evidence: SessionEvidenceView,
) -> (id: OperationId)
    requires
        evidenced(tables, project_id, wanted, evidence),
    ensures
        proven_by(tables, project_id, evidence.target_session_id, id),
        evidence == evidence_in(tables.operations[id].operation),
        wanted is Some ==> evidence.target_session_id == wanted->Some_0,
{
    let id = choose|id: OperationId| #[trigger]
        tables.operations.contains_key(id) && evidence_of(
            tables.operations[id].operation,
            project_id,
            wanted,
        ) == Some(evidence);
    id
}

/// The inventory of a registered project tells every operation of it that succeeded in its intended
/// session with an observed model, whatever it was asked for, and writes nothing.
pub proof fn inventory_tells_every_success(
    tables: TablesView,
    project_id: Seq<char>,
    id: OperationId,
    result: Handled,
)
    requires
        tables.projects.contains_key(project_id),
        proven_by(tables, project_id, tables.operations[id].operation.session_id, id),
        handled(
            None,
            tables,
            DaemonRequestView::SessionInventory(SessionInventoryRequestView { project_id }),
            result,
        ),
    ensures
        result matches Ok((HandlingView::Answer(DaemonResponseView::SessionInventory(list)), changes))
            && list.contains(evidence_in(tables.operations[id].operation)) && rising(list)
            && changes.len() == 0,
{
    lemma_evidenced(tables, project_id, tables.operations[id].operation.session_id, id);
    let list = choose|list| #[trigger]
        whole_evidence(tables, project_id, None, list) && tells(
            result,
            DaemonResponseView::SessionInventory(list),
        );
    assert(whole_evidence(tables, project_id, None, list));
}

/// The inventory of a registered project tells nothing but such operations.
pub proof fn inventory_tells_only_successes(
    tables: TablesView,
    project_id: Seq<char>,
    result: Handled,
)
    requires
        tables.projects.contains_key(project_id),
        handled(
            None,
            tables,
            DaemonRequestView::SessionInventory(SessionInventoryRequestView { project_id }),
            result,
        ),
    ensures
        result matches Ok((HandlingView::Answer(DaemonResponseView::SessionInventory(list)), changes))
            && forall|i: int|
            0 <= i < list.len() ==> exists|id: OperationId| #[trigger]
                proven_by(tables, project_id, list[i].target_session_id, id) && #[trigger] list[i]
                    == evidence_in(tables.operations[id].operation),
{
    let list = choose|list| #[trigger]
        whole_evidence(tables, project_id, None, list) && tells(
            result,
            DaemonResponseView::SessionInventory(list),
        );
    assert forall|i: int| 0 <= i < list.len() implies exists|id: OperationId| #[trigger]
        proven_by(tables, project_id, list[i].target_session_id, id) && #[trigger] list[i]
            == evidence_in(tables.operations[id].operation) by {
        assert(list.contains(list[i]));
        let id = lemma_proven(tables, project_id, None, list[i]);
        assert(proven_by(tables, project_id, list[i].target_session_id, id));
    }
}

/// The inspection of a session tells every operation that succeeded in it, whatever it was asked
/// for.
pub proof fn inspection_tells_every_success(
    tables: TablesView,
    project_id: Seq<char>,
    session: SessionId,
    id: OperationId,
    result: Handled,
)
    requires
        tables.projects.contains_key(project_id),
        proven_by(tables, project_id, session, id),
        handled(
            None,
            tables,
            DaemonRequestView::SessionInspect(
                SessionInspectRequestView { project_id, target_session_id: session },
            ),
            result,
        ),
    ensures
        result matches Ok((HandlingView::Answer(DaemonResponseView::SessionEvidence(list)), changes))
            && list.contains(evidence_in(tables.operations[id].operation)) && rising(list)
            && changes.len() == 0,
{
    lemma_evidenced(tables, project_id, session, id);
    let list = choose|list| #[trigger]
        whole_evidence(tables, project_id, Some(session), list) && tells(
            result,
            DaemonResponseView::SessionEvidence(list),
        );
    assert(whole_evidence(tables, project_id, Some(session), list));
}

/// The inspection of a session tells nothing but operations that succeeded in it.
pub proof fn inspection_tells_only_its_session(
    tables: TablesView,
    project_id: Seq<char>,
    session: SessionId,
    result: Handled,
    list: Seq<SessionEvidenceView>,
)
    requires
        tables.projects.contains_key(project_id),
        handled(
            None,
            tables,
            DaemonRequestView::SessionInspect(
                SessionInspectRequestView { project_id, target_session_id: session },
            ),
            result,
        ),
        tells(result, DaemonResponseView::SessionEvidence(list)),
    ensures
        list.len() > 0,
        forall|i: int|
            0 <= i < list.len() ==> exists|id: OperationId| #[trigger]
                proven_by(tables, project_id, session, id) && #[trigger] list[i] == evidence_in(
                    tables.operations[id].operation,
                ),
{
    assert(whole_evidence(tables, project_id, Some(session), list));
    let some = choose|evidence: SessionEvidenceView| #[trigger]
        evidenced(tables, project_id, Some(session), evidence);
    assert(list.contains(some));
    assert forall|i: int| 0 <= i < list.len() implies exists|id: OperationId| #[trigger]
        proven_by(tables, project_id, session, id) && #[trigger] list[i] == evidence_in(
            tables.operations[id].operation,
        ) by {
        assert(list.contains(list[i]));
        let id = lemma_proven(tables, project_id, Some(session), list[i]);
        assert(proven_by(tables, project_id, session, id));
    }
}

/// The inspection of a session that no operation succeeded in tells that the session is unknown.
pub proof fn unproven_session_is_unknown(
    tables: TablesView,
    project_id: Seq<char>,
    session: SessionId,
    result: Handled,
)
    requires
        tables.projects.contains_key(project_id),
        forall|id: OperationId| !#[trigger] proven_by(tables, project_id, session, id),
        handled(
            None,
            tables,
            DaemonRequestView::SessionInspect(
                SessionInspectRequestView { project_id, target_session_id: session },
            ),
            result,
        ),
    ensures
        fails(
            result,
            OperatorErrorView::UnknownSession { project_id, target_session_id: session },
        ),
{
    if session_evidenced(tables, project_id, session) {
        let evidence = choose|evidence: SessionEvidenceView| #[trigger]
            evidenced(tables, project_id, Some(session), evidence);
        let id = lemma_proven(tables, project_id, Some(session), evidence);
        assert(proven_by(tables, project_id, session, id));
    }
}

/// A running operation whose success was recorded with the session it was meant for and a model is
/// told by the next inspection of that session, whatever it was asked for.
pub proof fn recorded_success_is_inspected(
    tables: TablesView,
    id: OperationId,
    answer: Seq<char>,
    model: Seq<char>,
    version: Option<Seq<char>>,
    result: Handled,
)
    requires
        tables.consistent(),
        tables.operations.contains_key(id),
        tables.operations[id].operation.state is Running,
        tables.projects.contains_key(tables.operations[id].operation.project_id),
        ({
            let operation = tables.operations[id].operation;
            transitioned(
                tables,
                id,
                OperationState::Succeeded,
                Some(TerminalOutcomeView::Succeeded(answer)),
                Some(operation.session_id),
                Some(model),
                version,
            ) matches Ok((_, changes)) ==> handled(
                None,
                tables.after_all(changes),
                DaemonRequestView::SessionInspect(
                    SessionInspectRequestView {
                        project_id: operation.project_id,
                        target_session_id: operation.session_id,
                    },
                ),
                result,
            )
        }),
    ensures
        result matches Ok((HandlingView::Answer(DaemonResponseView::SessionEvidence(list)), _))
            && exists|i: int|
            0 <= i < list.len() && (#[trigger] list[i]).operation_id == id
                && list[i].target_session_id == tables.operations[id].operation.session_id
                && list[i].observed_model == model,
{
    let operation = tables.operations[id].operation;
    let (moved, changes) = transitioned(
        tables,
        id,
        OperationState::Succeeded,
        Some(TerminalOutcomeView::Succeeded(answer)),
        Some(operation.session_id),
        Some(model),
        version,
    )->Ok_0;
    let update = ChangeView::UpdateOperation(moved);
    let release = ChangeView::ReleaseSession { operation_id: moved.operation_id };
    lemma_after_two(tables, update, release);
    assert(changes =~= seq![update, release]);
    let after = tables.after_all(changes);
    assert(after.operations[id].operation == moved);
    inspection_tells_every_success(
        after,
        operation.project_id,
        operation.session_id,
        id,
        result,
    );
    let list = result->Ok_0.0->Answer_0->SessionEvidence_0;
    let i = choose|i: int| 0 <= i < list.len() && list[i] == evidence_in(moved);
    assert(list[i].operation_id == id);
}

/// No write takes a project away.
proof fn lemma_projects_stay(tables: TablesView, changes: Seq<ChangeView>)
    ensures
        forall|id: Seq<char>| #[trigger]
            tables.projects.contains_key(id) ==> tables.after_all(changes).projects.contains_key(id),
    decreases changes.len(),
{
    if changes.len() > 0 {
        lemma_projects_stay(tables, changes.drop_last());
    }
}

/// A conversation that succeeded in the session it was opened for, after its provider named that
/// session and a model, is told by the next inspection of that session.
pub proof fn succeeded_conversation_is_inspected(
    tables: TablesView,
    id: ConversationId,
    result: Handled,
)
    requires
        tables.consistent(),
        underway(tables, id),
        tables.operations.contains_key(id.0),
        tables.operations[id.0].operation.observed_session_id == Some(
            tables.operations[id.0].operation.session_id,
        ),
        tables.operations[id.0].operation.observed_model is Some,
        tables.projects.contains_key(tables.operations[id.0].operation.project_id),
        observation_applied(tables, id, TargetLiveObservationView::Exited) is Ok,
        handled(
            None,
            tables.after_all(
                observation_applied(tables, id, TargetLiveObservationView::Exited)->Ok_0,
            ),
            DaemonRequestView::SessionInspect(
                SessionInspectRequestView {
                    project_id: tables.operations[id.0].operation.project_id,
                    target_session_id: tables.operations[id.0].operation.session_id,
                },
            ),
            result,
        ),
    ensures
        result matches Ok((HandlingView::Answer(DaemonResponseView::SessionEvidence(list)), _))
            && exists|i: int| 0 <= i < list.len() && (#[trigger] list[i]).operation_id == id.0,
{
    exit_succeeds_with_the_last_answer(tables, id);
    let changes = observation_applied(tables, id, TargetLiveObservationView::Exited)->Ok_0;
    let after = tables.after_all(changes);
    let operation = tables.operations[id.0].operation;
    exit_changes_only_the_end(tables, id);
    lemma_projects_stay(tables, changes);
    assert(proven_by(after, operation.project_id, operation.session_id, id.0));
    inspection_tells_every_success(
        after,
        operation.project_id,
        operation.session_id,
        id.0,
        result,
    );
    let list = result->Ok_0.0->Answer_0->SessionEvidence_0;
    let i = choose|i: int|
        0 <= i < list.len() && list[i] == evidence_in(after.operations[id.0].operation);
    assert(list[i].operation_id == id.0);
}

/// The binding a request asks for.
pub open spec fn asked_binding(request: InitiatorBindingRequestView) -> InitiatorBindingView {
    InitiatorBindingView {
        project_id: request.project_id,
        identity: request.identity,
        target_session_id: request.target_session_id,
    }
}

/// An identity that is bound to nothing yet is bound to any session that an operation succeeded in,
/// and the binding is stored as it was asked for.
pub proof fn proven_session_is_bound(
    tables: TablesView,
    request: InitiatorBindingRequestView,
    id: OperationId,
    result: Handled,
)
    requires
        tables.projects.contains_key(request.project_id),
        proven_by(tables, request.project_id, request.target_session_id, id),
        !tables.bindings.contains_key((request.project_id, request.identity)),
        handled(None, tables, DaemonRequestView::InitiatorBindingRegister(request), result),
    ensures
        result matches Ok((HandlingView::Answer(told), changes)) && told
            == DaemonResponseView::BindingRegistration(
            BindingRegistrationView {
                binding: asked_binding(request),
                status: BindingRegistrationStatus::Inserted,
            },
        ) && ({
            let after = tables.after_all(changes);
            &&& after.bindings == tables.bindings.insert(
                (request.project_id, request.identity),
                asked_binding(request),
            )
            &&& after.operations == tables.operations
            &&& after.claims == tables.claims
            &&& after.conversations == tables.conversations
        }),
{
    lemma_evidenced(tables, request.project_id, request.target_session_id, id);
    lemma_after_one(tables, ChangeView::InsertBinding(asked_binding(request)));
}

/// An identity that is bound stays bound to its session: the same binding again is told as existing
/// and writes nothing, and another one is refused with both sessions.
pub proof fn bound_identity_stays_bound(
    tables: TablesView,
    request: InitiatorBindingRequestView,
    id: OperationId,
    result: Handled,
)
    requires
        tables.projects.contains_key(request.project_id),
        proven_by(tables, request.project_id, request.target_session_id, id),
        tables.bindings.contains_key((request.project_id, request.identity)),
        handled(None, tables, DaemonRequestView::InitiatorBindingRegister(request), result),
    ensures
        ({
            let bound = tables.bindings[(request.project_id, request.identity)].target_session_id;
            if bound == request.target_session_id {
                tells(
                    result,
                    DaemonResponseView::BindingRegistration(
                        BindingRegistrationView {
                            binding: asked_binding(request),
                            status: BindingRegistrationStatus::Existing,
                        },
                    ),
                )
            } else {
                fails(
                    result,
                    OperatorErrorView::BindingConflict {
                        existing_target_session_id: bound,
                        requested_target_session_id: request.target_session_id,
                    },
                )
            }
        }),
{
    lemma_evidenced(tables, request.project_id, request.target_session_id, id);
}

/// A session that no operation succeeded in is bound to nobody.
pub proof fn unproven_session_is_not_bound(
    tables: TablesView,
    request: InitiatorBindingRequestView,
    result: Handled,
)
    requires
        tables.projects.contains_key(request.project_id),
        forall|id: OperationId|
            !#[trigger] proven_by(tables, request.project_id, request.target_session_id, id),
        handled(None, tables, DaemonRequestView::InitiatorBindingRegister(request), result),
    ensures
        fails(
            result,
            OperatorErrorView::UnknownSession {
                project_id: request.project_id,
                target_session_id: request.target_session_id,
            },
        ),
{
    if session_evidenced(tables, request.project_id, request.target_session_id) {
        let wanted = Some(request.target_session_id);
        let evidence = choose|evidence: SessionEvidenceView| #[trigger]
            evidenced(tables, request.project_id, wanted, evidence);
        let id = lemma_proven(tables, request.project_id, wanted, evidence);
        assert(proven_by(tables, request.project_id, request.target_session_id, id));
    }
}

/// Whether a list holds exactly the operations that prove the session, by rising identity.
pub open spec fn provers(
    tables: TablesView,
    project_id: Seq<char>,
    session: SessionId,
    list: Seq<OperationId>,
) -> bool {
    &&& forall|i: int, j: int|
        #![trigger list[i], list[j]]
        0 <= i < j < list.len() ==> list[i].0 < list[j].0
    &&& forall|id: OperationId| #[trigger]
        proven_by(tables, project_id, session, id) ==> list.contains(id)
    &&& forall|i: int|
        0 <= i < list.len() ==> proven_by(tables, project_id, session, #[trigger] list[i])
}

/// The operations that prove a session are those of its evidence.
proof fn lemma_provers(
    tables: TablesView,
    project_id: Seq<char>,
    session: SessionId,
    list: Seq<OperationId>,
)
    requires
        tables.consistent(),
        proving_operations(tables, project_id, session, list),
    ensures
        provers(tables, project_id, session, list),
{
    let evidence = choose|evidence: Seq<SessionEvidenceView>| #[trigger]
        whole_evidence(tables, project_id, Some(session), evidence) && list
            == evidence.map_values(|item: SessionEvidenceView| item.operation_id);
    assert forall|i: int, j: int|
        #![trigger list[i], list[j]]
        0 <= i < j < list.len() implies list[i].0 < list[j].0 by {
        assert(evidence[i].operation_id.0 < evidence[j].operation_id.0);
    }
    assert forall|id: OperationId| #[trigger]
        proven_by(tables, project_id, session, id) implies list.contains(id) by {
        lemma_evidenced(tables, project_id, session, id);
        let item = evidence_in(tables.operations[id].operation);
        assert(evidence.contains(item));
        let i = choose|i: int| 0 <= i < evidence.len() && evidence[i] == item;
        assert(list[i] == id);
    }
    assert forall|i: int| 0 <= i < list.len() implies proven_by(
        tables,
        project_id,
        session,
        #[trigger] list[i],
    ) by {
        assert(evidence.contains(evidence[i]));
        let id = lemma_proven(tables, project_id, Some(session), evidence[i]);
        assert(tables.operations[id].operation.operation_id == id);
        assert(list[i] == id);
    }
}

/// A continuation of an identity that is bound to a session with a success resumes exactly that
/// session, and tells exactly the operations that succeeded in it.
pub proof fn bound_continuation_resumes(
    tables: TablesView,
    request: SessionDecisionRequestView,
    id: OperationId,
    result: Handled,
)
    requires
        tables.consistent(),
        tables.projects.contains_key(request.project_id),
        request.continuity is ContinueBound,
        tables.bindings.contains_key((request.project_id, request.identity)),
        proven_by(
            tables,
            request.project_id,
            tables.bindings[(request.project_id, request.identity)].target_session_id,
            id,
        ),
        handled(None, tables, DaemonRequestView::SessionDecide(request), result),
    ensures
        ({
            let session = tables.bindings[(
                request.project_id,
                request.identity,
            )].target_session_id;
            result matches Ok((
                HandlingView::Answer(
                    DaemonResponseView::SessionDecision(
                        SessionDecisionView::ResumeExact {
                            target_session_id,
                            evidence_operation_ids,
                        },
                    ),
                ),
                changes,
            )) && target_session_id == session && changes.len() == 0 && provers(
                tables,
                request.project_id,
                session,
                evidence_operation_ids,
            )
        }),
{
    let session = tables.bindings[(request.project_id, request.identity)].target_session_id;
    lemma_evidenced(tables, request.project_id, session, id);
    let list = result->Ok_0.0->Answer_0->SessionDecision_0->evidence_operation_ids;
    lemma_provers(tables, request.project_id, session, list);
}

/// A continuation of an identity whose session has no success is refused with its binding.
pub proof fn bound_continuation_needs_a_success(
    tables: TablesView,
    request: SessionDecisionRequestView,
    result: Handled,
)
    requires
        tables.projects.contains_key(request.project_id),
        request.continuity is ContinueBound,
        tables.bindings.contains_key((request.project_id, request.identity)),
        forall|id: OperationId|
            !#[trigger] proven_by(
                tables,
                request.project_id,
                tables.bindings[(request.project_id, request.identity)].target_session_id,
                id,
            ),
        handled(None, tables, DaemonRequestView::SessionDecide(request), result),
    ensures
        fails(
            result,
            OperatorErrorView::BoundSessionEvidenceMissing {
                binding: tables.bindings[(request.project_id, request.identity)],
                target_session_id: tables.bindings[(
                    request.project_id,
                    request.identity,
                )].target_session_id,
            },
        ),
{
    let session = tables.bindings[(request.project_id, request.identity)].target_session_id;
    if session_evidenced(tables, request.project_id, session) {
        let evidence = choose|evidence: SessionEvidenceView| #[trigger]
            evidenced(tables, request.project_id, Some(session), evidence);
        let id = lemma_proven(tables, request.project_id, Some(session), evidence);
        assert(proven_by(tables, request.project_id, session, id));
    }
}

/// Whether a binding belongs to the initiator of an identity in the project.
pub open spec fn same_initiator(
    binding: InitiatorBindingView,
    request: SessionDecisionRequestView,
) -> bool {
    &&& binding.project_id == request.project_id
    &&& binding.identity.initiator_session_id == request.identity.initiator_session_id
    &&& binding.identity.initiator_agent_id == request.identity.initiator_agent_id
}

/// A continuation of an identity without a binding, whose initiator has other bindings, is refused
/// as a mismatch, and tells every one of them and no other.
pub proof fn unbound_continuation_tells_the_bindings_of_its_initiator(
    tables: TablesView,
    request: SessionDecisionRequestView,
    other: InitiatorBindingView,
    result: Handled,
)
    requires
        tables.consistent(),
        tables.projects.contains_key(request.project_id),
        request.continuity is ContinueBound,
        !tables.bindings.contains_key((request.project_id, request.identity)),
        tables.bindings.contains_key((other.project_id, other.identity)),
        tables.bindings[(other.project_id, other.identity)] == other,
        same_initiator(other, request),
        handled(None, tables, DaemonRequestView::SessionDecide(request), result),
    ensures
        result matches Ok((
            HandlingView::Answer(
                DaemonResponseView::SessionDecision(
                    SessionDecisionView::Refuse {
                        reason,
                        evidence: SessionDecisionEvidenceView::IdentityBindings { bindings },
                    },
                ),
            ),
            changes,
        )) && reason is IdentityMismatch && changes.len() == 0 && bindings.contains(other)
            && forall|i: int|
            0 <= i < bindings.len() ==> same_initiator(#[trigger] bindings[i], request)
                && tables.bindings.contains_key((bindings[i].project_id, bindings[i].identity))
                && tables.bindings[(bindings[i].project_id, bindings[i].identity)] == bindings[i],
{
    let empty = Seq::<InitiatorBindingView>::empty();
    assert(!empty.contains(other));
    match result->Ok_0.0->Answer_0->SessionDecision_0->Refuse_evidence {
        SessionDecisionEvidenceView::IdentityBindings { bindings } => {
            assert forall|i: int| 0 <= i < bindings.len() implies same_initiator(
                #[trigger] bindings[i],
                request,
            ) && tables.bindings.contains_key((bindings[i].project_id, bindings[i].identity))
                && tables.bindings[(bindings[i].project_id, bindings[i].identity)]
                == bindings[i] by {
                assert(bindings.contains(bindings[i]));
            }
        },
        _ => {},
    }
}

/// Whether a list holds exactly the sessions that some operation proves, by rising identity.
pub open spec fn proven_sessions(
    tables: TablesView,
    project_id: Seq<char>,
    list: Seq<SessionId>,
) -> bool {
    &&& forall|i: int, j: int|
        #![trigger list[i], list[j]]
        0 <= i < j < list.len() ==> list[i].0 < list[j].0
    &&& forall|session: SessionId, id: OperationId| #[trigger]
        proven_by(tables, project_id, session, id) ==> list.contains(session)
    &&& forall|i: int|
        0 <= i < list.len() ==> proven(tables, project_id, #[trigger] list[i])
}

/// A continuation of an identity whose initiator has no binding is refused, and tells every session
/// that has a success and no other, by rising identity: as ambiguous where there are several, and
/// as in need of a binding otherwise.
pub proof fn unbound_continuation_tells_the_proven_sessions(
    tables: TablesView,
    request: SessionDecisionRequestView,
    result: Handled,
)
    requires
        tables.consistent(),
        tables.projects.contains_key(request.project_id),
        request.continuity is ContinueBound,
        forall|key: BindingKey| #[trigger]
            tables.bindings.contains_key(key) ==> !same_initiator(tables.bindings[key], request),
        handled(None, tables, DaemonRequestView::SessionDecide(request), result),
    ensures
        result matches Ok((
            HandlingView::Answer(
                DaemonResponseView::SessionDecision(
                    SessionDecisionView::Refuse {
                        reason,
                        evidence: SessionDecisionEvidenceView::CandidateSessions {
                            target_session_ids,
                        },
                    },
                ),
            ),
            changes,
        )) && changes.len() == 0 && proven_sessions(
            tables,
            request.project_id,
            target_session_ids,
        ) && if target_session_ids.len() > 1 {
            reason is AmbiguousSessions
        } else {
            reason is BindingRequired
        },
{
    let project_id = request.project_id;
    if tables.bindings.contains_key((project_id, request.identity)) {
        assert(same_initiator(tables.bindings[(project_id, request.identity)], request));
    }
    match result->Ok_0.0->Answer_0->SessionDecision_0->Refuse_evidence {
        SessionDecisionEvidenceView::IdentityBindings { bindings } => {
            assert(bindings.contains(bindings[0]));
            assert(tables.bindings.contains_key((bindings[0].project_id, bindings[0].identity)));
            assert(same_initiator(bindings[0], request));
        },
        SessionDecisionEvidenceView::CandidateSessions { target_session_ids: list } => {
            assert forall|session: SessionId, id: OperationId| #[trigger]
                proven_by(tables, project_id, session, id) implies list.contains(session) by {
                lemma_evidenced(tables, project_id, session, id);
                let item = evidence_in(tables.operations[id].operation);
                assert(evidenced(tables, project_id, None, item));
            }
            assert forall|i: int| 0 <= i < list.len() implies proven(
                tables,
                project_id,
                #[trigger] list[i],
            ) by {
                assert(list.contains(list[i]));
                let item = choose|evidence: SessionEvidenceView|
                    #![trigger evidenced(tables, project_id, None, evidence)]
                    evidenced(tables, project_id, None, evidence) && evidence.target_session_id
                        == list[i];
                let id = lemma_proven(tables, project_id, None, item);
                assert(proven_by(tables, project_id, list[i], id));
            }
        },
        _ => {},
    }
}

/// A complete registration of a name that is free is stored as it is and answered with itself.
pub proof fn free_name_is_registered(
    tables: TablesView,
    project: ProjectRegistrationView,
    result: Handled,
)
    requires
        project.expected_opus_model.len() > 0,
        project.working_directory.len() > 0,
        project.claude_executable.len() > 0,
        !tables.projects.contains_key(project.project_id),
        handled(None, tables, DaemonRequestView::ProjectRegister(project), result),
    ensures
        result matches Ok((HandlingView::Answer(told), changes)) && told
            == DaemonResponseView::Project(project) && tables.after_all(changes)
            == (TablesView {
            projects: tables.projects.insert(project.project_id, project),
            ..tables
        }),
{
    lemma_after_one(tables, ChangeView::InsertProject(project));
}

/// A name that is taken is registered again only with the same configuration, which writes nothing.
pub proof fn taken_name_keeps_its_configuration(
    tables: TablesView,
    project: ProjectRegistrationView,
    result: Handled,
)
    requires
        project.expected_opus_model.len() > 0,
        project.working_directory.len() > 0,
        project.claude_executable.len() > 0,
        tables.projects.contains_key(project.project_id),
        handled(None, tables, DaemonRequestView::ProjectRegister(project), result),
    ensures
        tables.projects[project.project_id] == project ==> tells(
            result,
            DaemonResponseView::Project(project),
        ),
        tables.projects[project.project_id] != project ==> fails(
            result,
            conflict("project_id is already registered with different configuration"@),
        ),
{
}

/// A registration without a model, a directory or an executable is refused, and says which.
pub proof fn incomplete_registration_is_refused(
    tables: TablesView,
    project: ProjectRegistrationView,
    result: Handled,
)
    requires
        handled(None, tables, DaemonRequestView::ProjectRegister(project), result),
    ensures
        project.expected_opus_model.len() == 0 ==> fails(
            result,
            invalid_request("expected_opus_model must not be empty"@),
        ),
        project.expected_opus_model.len() > 0 && (project.working_directory.len() == 0
            || project.claude_executable.len() == 0) ==> fails(
            result,
            invalid_request("project paths must not be empty"@),
        ),
{
}

/// A registered project is told as it is stored, and the list of projects holds exactly the stored
/// ones.
pub proof fn stored_projects_are_told(
    tables: TablesView,
    project_id: Seq<char>,
    one: Handled,
    all: Handled,
)
    requires
        tables.consistent(),
        tables.projects.contains_key(project_id),
        handled(None, tables, DaemonRequestView::ProjectGet { project_id }, one),
        handled(None, tables, DaemonRequestView::ProjectList, all),
    ensures
        tells(one, DaemonResponseView::Project(tables.projects[project_id])),
        all matches Ok((HandlingView::Answer(DaemonResponseView::Projects(list)), changes))
            && changes.len() == 0 && list.contains(tables.projects[project_id]) && forall|i: int|
            0 <= i < list.len() ==> tables.projects.contains_key(
                (#[trigger] list[i]).project_id,
            ) && tables.projects[list[i].project_id] == list[i],
{
    let list = all->Ok_0.0->Answer_0->Projects_0;
    assert(tables.projects[project_id].project_id == project_id);
    assert forall|i: int| 0 <= i < list.len() implies tables.projects.contains_key(
        (#[trigger] list[i]).project_id,
    ) && tables.projects[list[i].project_id] == list[i] by {
        assert(list.contains(list[i]));
    }
}

/// A request about a project that is not registered is refused with its name, by whatever request.
pub proof fn unregistered_project_is_unknown(
    tables: TablesView,
    project_id: Seq<char>,
    inspected: SessionId,
    binding: InitiatorBindingRequestView,
    decision: SessionDecisionRequestView,
    result: Handled,
)
    requires
        !tables.projects.contains_key(project_id),
        binding.project_id == project_id,
        decision.project_id == project_id,
        handled(None, tables, DaemonRequestView::ProjectGet { project_id }, result) || handled(
            None,
            tables,
            DaemonRequestView::SessionInventory(SessionInventoryRequestView { project_id }),
            result,
        ) || handled(
            None,
            tables,
            DaemonRequestView::SessionInspect(
                SessionInspectRequestView { project_id, target_session_id: inspected },
            ),
            result,
        ) || handled(None, tables, DaemonRequestView::InitiatorBindingRegister(binding), result)
            || handled(None, tables, DaemonRequestView::SessionDecide(decision), result),
    ensures
        fails(result, OperatorErrorView::UnknownProject(project_id)),
{
}

/// A stored operation is told as it is stored, and an unknown one is refused with its identity.
pub proof fn stored_operation_is_told(tables: TablesView, operation_id: OperationId, result: Handled)
    requires
        handled(None, tables, DaemonRequestView::OperationGet { operation_id }, result),
    ensures
        tables.operations.contains_key(operation_id) ==> tells(
            result,
            DaemonResponseView::Operation(tables.operations[operation_id].operation),
        ),
        !tables.operations.contains_key(operation_id) ==> fails(
            result,
            OperatorErrorView::UnknownOperation(uuid_text(operation_id.0)),
        ),
{
}

/// A request that a capability takes reaches it with everything that was asked for, and nothing is
/// written on the way.
pub proof fn requests_reach_their_capability(
    tables: TablesView,
    request: DaemonRequestView,
    result: Handled,
)
    requires
        handled(None, tables, request, result),
    ensures
        match request {
            DaemonRequestView::OperationStart(start) => result == Ok::<_, OperatorErrorView>(
                (HandlingView::StartOperation(start), Seq::<ChangeView>::empty()),
            ),
            DaemonRequestView::OperationWait { operation_id, wait_millis } => result == Ok::<
                _,
                OperatorErrorView,
            >(
                (
                    HandlingView::WaitOperation { operation_id, wait_millis },
                    Seq::<ChangeView>::empty(),
                ),
            ),
            DaemonRequestView::OperationCancel { operation_id } => result == Ok::<
                _,
                OperatorErrorView,
            >((HandlingView::CancelOperation { operation_id }, Seq::<ChangeView>::empty())),
            DaemonRequestView::OperationDiagnostics(asked) => result == Ok::<_, OperatorErrorView>(
                (HandlingView::ReadDiagnostics(asked), Seq::<ChangeView>::empty()),
            ),
            DaemonRequestView::ConversationStart(start) => result == Ok::<_, OperatorErrorView>(
                (HandlingView::StartConversation(start), Seq::<ChangeView>::empty()),
            ),
            DaemonRequestView::ConversationSend(send) => result == Ok::<_, OperatorErrorView>(
                (HandlingView::SendTurn(send), Seq::<ChangeView>::empty()),
            ),
            DaemonRequestView::ConversationWait(wait) => result == Ok::<_, OperatorErrorView>(
                (HandlingView::WaitConversation(wait), Seq::<ChangeView>::empty()),
            ),
            DaemonRequestView::ConversationStop { conversation_id, mode } => result == Ok::<
                _,
                OperatorErrorView,
            >(
                (
                    HandlingView::StopConversation { conversation_id, mode },
                    Seq::<ChangeView>::empty(),
                ),
            ),
            _ => true,
        },
{
}

/// Once a refusal was recorded every request is refused with it.
pub proof fn recorded_refusal_refuses_everything(
    tables: TablesView,
    refusal: OperatorErrorView,
    request: DaemonRequestView,
    result: Handled,
)
    requires
        handled(Some(refusal), tables, request, result),
    ensures
        fails(result, refusal),
{
}

/// The list of projects is in the order of their names, and names none twice.
pub proof fn projects_are_listed_by_name(tables: TablesView, result: Handled)
    requires
        handled(None, tables, DaemonRequestView::ProjectList, result),
    ensures
        result matches Ok((HandlingView::Answer(DaemonResponseView::Projects(list)), _))
            && forall|i: int, j: int|
            #![trigger list[i], list[j]]
            0 <= i < j < list.len() ==> text_before(list[i].project_id, list[j].project_id)
                && list[i].project_id != list[j].project_id,
{
    let list = result->Ok_0.0->Answer_0->Projects_0;
    assert forall|i: int, j: int|
        #![trigger list[i], list[j]]
        0 <= i < j < list.len() implies text_before(list[i].project_id, list[j].project_id)
        && list[i].project_id != list[j].project_id by {
        lemma_text_irreflexive(list[i].project_id);
    }
}

/// The bindings that a refused continuation tells are in the order of their roles, of their tasks
/// within a role, and of their subjects within a task.
pub proof fn told_bindings_are_in_order(
    tables: TablesView,
    request: SessionDecisionRequestView,
    result: Handled,
    bindings: Seq<InitiatorBindingView>,
    i: int,
    j: int,
)
    requires
        tables.projects.contains_key(request.project_id),
        request.continuity is ContinueBound,
        !tables.bindings.contains_key((request.project_id, request.identity)),
        handled(None, tables, DaemonRequestView::SessionDecide(request), result),
        tells(
            result,
            DaemonResponseView::SessionDecision(
                SessionDecisionView::Refuse {
                    reason: SessionRefusalReason::IdentityMismatch,
                    evidence: SessionDecisionEvidenceView::IdentityBindings { bindings },
                },
            ),
        ),
        0 <= i < j < bindings.len(),
    ensures
        ({
            let left = bindings[i].identity;
            let right = bindings[j].identity;
            if left.role_id != right.role_id {
                text_before(left.role_id, right.role_id)
            } else if left.task_id != right.task_id {
                text_before(left.task_id, right.task_id)
            } else {
                text_before(left.subject_id, right.subject_id)
            }
        }),
{
    let left = bindings[i].identity;
    let right = bindings[j].identity;
    if left.role_id == right.role_id {
        lemma_text_irreflexive(left.role_id);
        if left.task_id == right.task_id {
            lemma_text_irreflexive(left.task_id);
        }
    }
}

/// An independent review gets a new session, whatever is bound or proven.
pub proof fn independent_review_gets_a_new_session(
    tables: TablesView,
    request: SessionDecisionRequestView,
    result: Handled,
)
    requires
        tables.projects.contains_key(request.project_id),
        request.continuity is Independent,
        handled(None, tables, DaemonRequestView::SessionDecide(request), result),
    ensures
        tells(
            result,
            DaemonResponseView::SessionDecision(
                SessionDecisionView::New { evidence: SessionDecisionEvidenceView::Independent },
            ),
        ),
{
}

} // verus!
