//! Evaluates the total, effect-free exact-session decision algebra.

use vstd::prelude::*;

use crate::contract::control::{
    InitiatorBinding, InitiatorBindingView, OperatorError, OperatorErrorView, SessionContinuity,
    SessionDecision, SessionDecisionEvidence, SessionDecisionEvidenceView, SessionDecisionRequest,
    SessionDecisionRequestView, SessionDecisionView, SessionEvidence, SessionEvidenceView,
    SessionRefusalReason,
};
use crate::contract::identity::{OperationId, SessionId};
use crate::control::project;
use crate::control::session_inventory::{for_exact_session, for_project, session_evidenced};
use crate::keyed::lookup;
use crate::state::initiator_binding::every_binding;
use crate::state::operation::{evidenced, whole_evidence};
use crate::state::project::registered;
use crate::state::tables::{Tables, TablesView};
use crate::text::views;

verus! {

/// Whether a list is every session that the project has evidence of, in rising order.
pub open spec fn candidate_sessions(
    tables: TablesView,
    project_id: Seq<char>,
    sessions: Seq<SessionId>,
) -> bool {
    &&& forall|i: int, j: int|
        #![trigger sessions[i], sessions[j]]
        0 <= i < j < sessions.len() ==> sessions[i].0 < sessions[j].0
    &&& forall|session: SessionId| #[trigger]
        sessions.contains(session) <==> exists|evidence: SessionEvidenceView|
            #![trigger evidenced(tables, project_id, None, evidence)]
            evidenced(tables, project_id, None, evidence) && evidence.target_session_id == session
}

/// Whether a list is every operation that proves something of the session, in rising order.
pub open spec fn proving_operations(
    tables: TablesView,
    project_id: Seq<char>,
    target_session_id: SessionId,
    operations: Seq<OperationId>,
) -> bool {
    exists|evidence: Seq<SessionEvidenceView>| #[trigger]
        whole_evidence(tables, project_id, Some(target_session_id), evidence) && operations
            == evidence.map_values(|item: SessionEvidenceView| item.operation_id)
}

/// Whether a decision is the one for the request. An independent review gets a new session. One
/// that continues gets exactly the session its identity is bound to, with the operations that
/// prove it; without that binding it is refused, with the bindings of its initiator where there are
/// some, and with the sessions that have evidence otherwise: many are ambiguous, one or none needs
/// a binding.
pub open spec fn decided(
    tables: TablesView,
    request: SessionDecisionRequestView,
    decision: Result<SessionDecisionView, OperatorErrorView>,
) -> bool {
    match registered(tables, request.project_id) {
        Err(error) => decision == Err::<SessionDecisionView, _>(error),
        Ok(_) => match request.continuity {
            SessionContinuity::Independent => decision == Ok::<_, OperatorErrorView>(
                SessionDecisionView::New { evidence: SessionDecisionEvidenceView::Independent },
            ),
            SessionContinuity::ContinueBound => match lookup(
                tables.bindings,
                (request.project_id, request.identity),
            ) {
                Some(binding) => if session_evidenced(
                    tables,
                    request.project_id,
                    binding.target_session_id,
                ) {
                    decision matches Ok(SessionDecisionView::ResumeExact {
                        target_session_id,
                        evidence_operation_ids,
                    }) && target_session_id == binding.target_session_id && proving_operations(
                        tables,
                        request.project_id,
                        target_session_id,
                        evidence_operation_ids,
                    )
                } else {
                    decision == Err::<SessionDecisionView, _>(
                        OperatorErrorView::BoundSessionEvidenceMissing {
                            binding,
                            target_session_id: binding.target_session_id,
                        },
                    )
                },
                None => decision matches Ok(SessionDecisionView::Refuse { reason, evidence })
                    && refused(tables, request, reason, evidence),
            },
        },
    }
}

/// Whether a refusal is the one for an identity without a binding.
pub open spec fn refused(
    tables: TablesView,
    request: SessionDecisionRequestView,
    reason: SessionRefusalReason,
    evidence: SessionDecisionEvidenceView,
) -> bool {
    match evidence {
        SessionDecisionEvidenceView::Independent => false,
        SessionDecisionEvidenceView::IdentityBindings { bindings } => {
            &&& reason is IdentityMismatch
            &&& bindings.len() > 0
            &&& every_binding(
                tables,
                request.project_id,
                request.identity.initiator_session_id,
                request.identity.initiator_agent_id,
                bindings,
            )
        },
        SessionDecisionEvidenceView::CandidateSessions { target_session_ids } => {
            &&& every_binding(
                tables,
                request.project_id,
                request.identity.initiator_session_id,
                request.identity.initiator_agent_id,
                Seq::empty(),
            )
            &&& candidate_sessions(tables, request.project_id, target_session_ids)
            &&& reason == (if target_session_ids.len() > 1 {
                SessionRefusalReason::AmbiguousSessions
            } else {
                SessionRefusalReason::BindingRequired
            })
        },
    }
}

/// The operations of evidence.
fn operation_ids(evidence: &Vec<SessionEvidence>) -> (operations: Vec<OperationId>)
    ensures
        operations@ == views(evidence@).map_values(|item: SessionEvidenceView| item.operation_id),
{
    let mut operations: Vec<OperationId> = Vec::new();
    let mut index: usize = 0;
    while index < evidence.len()
        invariant
            index <= evidence@.len(),
            operations@.len() == index,
            forall|i: int|
                0 <= i < index ==> #[trigger] operations@[i] == evidence@[i]@.operation_id,
        decreases evidence@.len() - index,
    {
        operations.push(evidence[index].operation_id);
        index = index + 1;
    }
    proof {
        assert(operations@ =~= views(evidence@).map_values(
            |item: SessionEvidenceView| item.operation_id,
        ));
    }
    operations
}

/// Puts a session in its place among rising ones, unless it is there.
fn insert_session(sessions: &mut Vec<SessionId>, session: SessionId)
    requires
        forall|i: int, j: int|
            #![trigger old(sessions)@[i], old(sessions)@[j]]
            0 <= i < j < old(sessions)@.len() ==> old(sessions)@[i].0 < old(sessions)@[j].0,
    ensures
        forall|i: int, j: int|
            #![trigger final(sessions)@[i], final(sessions)@[j]]
            0 <= i < j < final(sessions)@.len() ==> final(sessions)@[i].0 < final(sessions)@[j].0,
        forall|wanted: SessionId| #[trigger]
            final(sessions)@.contains(wanted) <==> old(sessions)@.contains(wanted) || wanted
                == session,
{
    let ghost before = sessions@;
    let mut at: usize = 0;
    while at < sessions.len() && sessions[at].0 < session.0
        invariant
            at <= sessions@.len(),
            before == sessions@,
            forall|i: int| 0 <= i < at ==> (#[trigger] before[i]).0 < session.0,
        decreases sessions@.len() - at,
    {
        at = at + 1;
    }
    if at < sessions.len() && sessions[at] == session {
        proof {
            assert(before[at as int] == session);
        }
        return;
    }
    proof {
        let after = before.insert(at as int, session);
        assert forall|i: int, j: int|
            #![trigger after[i], after[j]]
            0 <= i < j < after.len() implies after[i].0 < after[j].0 by {
            let fi = if i <= at { i } else { i - 1 };
            let fj = if j <= at { j } else { j - 1 };
            if i != at {
                assert(after[i] == before[fi]);
            }
            if j != at {
                assert(after[j] == before[fj]);
            }
            if i == at {
                assert(before[at as int].0 > session.0);
                assert(at < fj || fj == at);
            }
        }
        assert forall|wanted: SessionId| #[trigger]
            after.contains(wanted) <==> before.contains(wanted) || wanted == session by {
            crate::order::lemma_insert_contains(before, at as int, session, wanted);
        }
    }
    sessions.insert(at, session);
}

/// The sessions of evidence, each once and in rising order.
fn unique_sessions(evidence: &Vec<SessionEvidence>) -> (sessions: Vec<SessionId>)
    ensures
        forall|i: int, j: int|
            #![trigger sessions@[i], sessions@[j]]
            0 <= i < j < sessions@.len() ==> sessions@[i].0 < sessions@[j].0,
        forall|session: SessionId| #[trigger]
            sessions@.contains(session) <==> exists|i: int|
                0 <= i < evidence@.len() && (#[trigger] views(evidence@)[i]).target_session_id
                    == session,
{
    let ghost all = views(evidence@);
    let mut sessions: Vec<SessionId> = Vec::new();
    let mut index: usize = 0;
    while index < evidence.len()
        invariant
            index <= evidence@.len(),
            all == views(evidence@),
            forall|i: int, j: int|
                #![trigger sessions@[i], sessions@[j]]
                0 <= i < j < sessions@.len() ==> sessions@[i].0 < sessions@[j].0,
            forall|session: SessionId| #[trigger]
                sessions@.contains(session) <==> exists|i: int|
                    0 <= i < index && (#[trigger] all[i]).target_session_id == session,
        decreases evidence@.len() - index,
    {
        let session = evidence[index].target_session_id;
        let ghost before = sessions@;
        insert_session(&mut sessions, session);
        proof {
            assert(all[index as int].target_session_id == session);
            assert forall|wanted: SessionId| #[trigger]
                sessions@.contains(wanted) <==> exists|i: int|
                    0 <= i < index + 1 && (#[trigger] all[i]).target_session_id == wanted by {
                if before.contains(wanted) {
                    let i = choose|i: int|
                        0 <= i < index && (#[trigger] all[i]).target_session_id == wanted;
                    assert(0 <= i < index + 1 && all[i].target_session_id == wanted);
                }
            }
        }
        index = index + 1;
    }
    sessions
}

/// Decides for an identity that is bound.
fn decide_binding(tables: &Tables, binding: InitiatorBinding) -> (decision: Result<
    SessionDecision,
    OperatorError,
>)
    requires
        tables.well_formed(),
    ensures
        if session_evidenced(tables@, binding@.project_id, binding@.target_session_id) {
            decision matches Ok(told) && (told@ matches SessionDecisionView::ResumeExact {
                target_session_id,
                evidence_operation_ids,
            } && target_session_id == binding@.target_session_id && proving_operations(
                tables@,
                binding@.project_id,
                target_session_id,
                evidence_operation_ids,
            ))
        } else {
            decision matches Err(error) && error@
                == (OperatorErrorView::BoundSessionEvidenceMissing {
                binding: binding@,
                target_session_id: binding@.target_session_id,
            })
        },
{
    let evidence = for_exact_session(tables, &binding.project_id, binding.target_session_id);
    if evidence.len() == 0 {
        let target_session_id = binding.target_session_id;
        return Err(
            OperatorError::BoundSessionEvidenceMissing {
                binding: Box::new(binding),
                target_session_id,
            },
        );
    }
    proof {
        assert(whole_evidence(
            tables@,
            binding@.project_id,
            Some(binding@.target_session_id),
            views(evidence@),
        ));
    }
    Ok(
        SessionDecision::ResumeExact {
            target_session_id: binding.target_session_id,
            evidence_operation_ids: operation_ids(&evidence),
        },
    )
}

/// Decides for an identity that is not bound.
fn decide_unbound(tables: &Tables, request: SessionDecisionRequest) -> (decision: SessionDecision)
    requires
        tables.well_formed(),
    ensures
        decision@ matches SessionDecisionView::Refuse { reason, evidence } && refused(
            tables@,
            request@,
            reason,
            evidence,
        ),
{
    let bindings = tables.list_initiator_bindings_for_initiator(
        &request.project_id,
        &request.identity.initiator_session_id,
        &request.identity.initiator_agent_id,
    );
    if bindings.len() > 0 {
        return SessionDecision::Refuse {
            reason: SessionRefusalReason::IdentityMismatch,
            evidence: SessionDecisionEvidence::IdentityBindings { bindings },
        };
    }
    let evidence = for_project(tables, &request.project_id);
    let sessions = unique_sessions(&evidence);
    proof {
        assert(views(bindings@) =~= Seq::<InitiatorBindingView>::empty());
        let found = views(evidence@);
        assert forall|session: SessionId| #[trigger]
            sessions@.contains(session) <==> exists|item: SessionEvidenceView|
                #![trigger evidenced(tables@, request@.project_id, None, item)]
                evidenced(tables@, request@.project_id, None, item) && item.target_session_id
                    == session by {
            if sessions@.contains(session) {
                let i = choose|i: int|
                    0 <= i < found.len() && (#[trigger] found[i]).target_session_id == session;
                assert(found.contains(found[i]));
                assert(evidenced(tables@, request@.project_id, None, found[i]));
            }
            if exists|item: SessionEvidenceView|
                #![trigger evidenced(tables@, request@.project_id, None, item)]
                evidenced(tables@, request@.project_id, None, item) && item.target_session_id
                    == session {
                let item = choose|item: SessionEvidenceView|
                    #![trigger evidenced(tables@, request@.project_id, None, item)]
                    evidenced(tables@, request@.project_id, None, item) && item.target_session_id
                        == session;
                assert(found.contains(item));
                let i = choose|i: int| 0 <= i < found.len() && found[i] == item;
                assert(found[i].target_session_id == session);
            }
        }
    }
    let reason = if sessions.len() > 1 {
        SessionRefusalReason::AmbiguousSessions
    } else {
        SessionRefusalReason::BindingRequired
    };
    SessionDecision::Refuse {
        reason,
        evidence: SessionDecisionEvidence::CandidateSessions { target_session_ids: sessions },
    }
}

/// Decides which session a review is to use.
pub fn decide(tables: &Tables, request: SessionDecisionRequest) -> (decision: Result<
    SessionDecision,
    OperatorError,
>)
    requires
        tables.well_formed(),
    ensures
        decided(tables@, request@, crate::state::decision::answer(decision)),
{
    match project::get(tables, &request.project_id) {
        Ok(_) => {},
        Err(error) => {
            return Err(error);
        },
    }
    match request.continuity {
        SessionContinuity::Independent => Ok(
            SessionDecision::New { evidence: SessionDecisionEvidence::Independent },
        ),
        SessionContinuity::ContinueBound => match tables.get_initiator_binding(
            &request.project_id,
            &request.identity,
        ) {
            Some(binding) => {
                proof {
                    tables.lemma_consistent();
                    assert(tables@.bindings.contains_key(
                        (request@.project_id, request@.identity),
                    ));
                }
                decide_binding(tables, binding)
            },
            None => Ok(decide_unbound(tables, request)),
        },
    }
}

/// A session is resumed only by an identity that is bound to exactly it, and only where a
/// successful operation of the project proves it.
pub proof fn resume_needs_binding_and_evidence(
    tables: TablesView,
    request: SessionDecisionRequestView,
    target_session_id: SessionId,
    evidence_operation_ids: Seq<OperationId>,
)
    requires
        decided(
            tables,
            request,
            Ok(SessionDecisionView::ResumeExact { target_session_id, evidence_operation_ids }),
        ),
    ensures
        request.continuity is ContinueBound,
        tables.bindings.contains_key((request.project_id, request.identity)),
        tables.bindings[(request.project_id, request.identity)].target_session_id
            == target_session_id,
        session_evidenced(tables, request.project_id, target_session_id),
{
}

} // verus!
