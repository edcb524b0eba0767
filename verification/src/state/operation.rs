//! Operation persistence: idempotent admission, transitions, and session evidence.

use vstd::prelude::*;

use crate::contract::control::{
    conflict, state_failure, Operation, OperationAdmission, OperationAdmissionView,
    OperationIntent, OperationStart, OperationStartView, OperationState, OperationView,
    OperatorError, OperatorErrorView, SessionEvidence, SessionEvidenceView, TerminalOutcome,
    TerminalOutcomeView,
};
use crate::contract::identity::{ConversationId, OperationId, ProjectId, RequestId, SessionId};
use crate::identifier::{random_uuid_layout, uuid_text};
use crate::order::{insert_in_order, lemma_insert_contains, ordered, Ranked};
use crate::state::decision::{answer, changed, decision, unchanged, Decided};
use crate::keyed::lookup;
use crate::state::tables::{
    Change, ChangeView, Claim, OperationRecord, OperationRecordView, Tables, TablesView,
};
use crate::text::{optional, views};

verus! {

/// An operation as it is admitted: accepted, with nothing observed yet.
pub open spec fn admitted_operation(
    operation_id: OperationId,
    request_id: RequestId,
    project_id: Seq<char>,
    intent: OperationIntent,
    session_id: SessionId,
) -> OperationView {
    OperationView {
        operation_id,
        request_id,
        project_id,
        intent,
        session_id,
        state: OperationState::Accepted,
        observed_session_id: None,
        observed_model: None,
        observed_claude_version: None,
        terminal_outcome: None,
    }
}

/// An operation as it is admitted: accepted, with nothing observed yet.
pub(crate) fn new_operation(
    operation_id: OperationId,
    request_id: RequestId,
    project_id: &ProjectId,
    intent: OperationIntent,
    session_id: SessionId,
) -> (operation: Operation)
    ensures
        operation@ == admitted_operation(
            operation_id,
            request_id,
            project_id@,
            intent,
            session_id,
        ),
{
    Operation {
        operation_id,
        request_id,
        project_id: project_id.clone(),
        intent,
        session_id,
        state: OperationState::Accepted,
        observed_session_id: None,
        observed_model: None,
        observed_claude_version: None,
        terminal_outcome: None,
    }
}

/// Whether an operation identity is free: neither an operation, nor a claim, nor diagnostics, nor a
/// conversation bear it.
pub open spec fn identity_free(tables: TablesView, operation_id: OperationId) -> bool {
    &&& !tables.operations.contains_key(operation_id)
    &&& !tables.has_claim(operation_id)
    &&& !tables.diagnostics.contains_key(operation_id)
    &&& !tables.conversations.contains_key(ConversationId(operation_id))
}

/// What admitting a one-shot request yields, where `fresh` is the identity for a new operation:
/// the operation already admitted for the request; or the absence of its project; or the operation
/// that holds the session; or a new operation that claims the session and whose diagnostics are
/// covered.
pub open spec fn admission(
    tables: TablesView,
    request: OperationStartView,
    session_id: SessionId,
    fingerprint: Seq<char>,
    fresh: OperationId,
) -> Result<(OperationAdmissionView, Seq<ChangeView>), OperatorErrorView> {
    match tables.requested(request.request_id) {
        Some(record) => Ok(
            (
                OperationAdmissionView::Existing {
                    operation: record.operation,
                    fingerprint: record.fingerprint,
                },
                Seq::empty(),
            ),
        ),
        None => if !tables.projects.contains_key(request.project_id) {
            Ok((OperationAdmissionView::MissingProject, Seq::empty()))
        } else {
            match lookup(tables.claims, session_id) {
                Some(claim) => match tables.operation(claim.operation_id) {
                    Some(operation) => Ok(
                        (OperationAdmissionView::ActiveSession { operation }, Seq::empty()),
                    ),
                    None => Err(state_failure("active session references no operation"@)),
                },
                None => if identity_free(tables, fresh) {
                    let operation = admitted_operation(
                        fresh,
                        request.request_id,
                        request.project_id,
                        request.intent,
                        session_id,
                    );
                    Ok(
                        (
                            OperationAdmissionView::Inserted(operation),
                            seq![
                                ChangeView::InsertOperation(
                                    OperationRecordView { operation, fingerprint },
                                ),
                                ChangeView::ClaimSession(
                                    Claim { session_id, operation_id: fresh },
                                ),
                                ChangeView::CoverOperation { operation_id: fresh },
                            ],
                        ),
                    )
                } else {
                    Err(state_failure("operation identity is already in use"@))
                },
            }
        },
    }
}

/// Whether one operation state may follow another.
pub open spec fn transition_allowed(current: OperationState, next: OperationState) -> bool {
    match current {
        OperationState::Accepted => !(next is Accepted || next is Succeeded),
        OperationState::Running => !(next is Accepted || next is Running),
        _ => false,
    }
}

/// Whether one operation state may follow another.
pub fn allowed(current: OperationState, next: OperationState) -> (allowed: bool)
    ensures
        allowed == transition_allowed(current, next),
{
    match current {
        OperationState::Accepted => matches!(
            next,
            OperationState::Running
                | OperationState::Failed
                | OperationState::Cancelled
                | OperationState::Indeterminate
        ),
        OperationState::Running => matches!(
            next,
            OperationState::Succeeded
                | OperationState::Failed
                | OperationState::Cancelled
                | OperationState::Indeterminate
        ),
        OperationState::Succeeded
        | OperationState::Failed
        | OperationState::Cancelled
        | OperationState::Indeterminate => false,
    }
}

/// A later value, or the earlier one where there is none.
pub open spec fn latest<T>(later: Option<T>, earlier: Option<T>) -> Option<T> {
    if later is Some {
        later
    } else {
        earlier
    }
}

/// What a transition yields: the operation in its next state with what was observed, and the
/// release of its claim where that state is terminal.
pub open spec fn transitioned(
    tables: TablesView,
    operation_id: OperationId,
    next: OperationState,
    terminal: Option<TerminalOutcomeView>,
    observed_session: Option<SessionId>,
    observed_model: Option<Seq<char>>,
    observed_version: Option<Seq<char>>,
) -> Result<(OperationView, Seq<ChangeView>), OperatorErrorView> {
    match tables.operation(operation_id) {
        None => Err(OperatorErrorView::UnknownOperation(uuid_text(operation_id.0))),
        Some(operation) => if !transition_allowed(operation.state, next) {
            Err(conflict("operation transition is not permitted"@))
        } else if next.is_terminal() != (terminal is Some) {
            Err(state_failure("terminal outcome must exactly match terminal state"@))
        } else {
            let moved = OperationView {
                state: next,
                terminal_outcome: terminal,
                observed_session_id: latest(observed_session, operation.observed_session_id),
                observed_model: latest(observed_model, operation.observed_model),
                observed_claude_version: latest(
                    observed_version,
                    operation.observed_claude_version,
                ),
                ..operation
            };
            Ok(
                (
                    moved,
                    if next.is_terminal() {
                        seq![
                            ChangeView::UpdateOperation(moved),
                            ChangeView::ReleaseSession { operation_id: moved.operation_id },
                        ]
                    } else {
                        seq![ChangeView::UpdateOperation(moved)]
                    },
                ),
            )
        },
    }
}

/// The evidence an operation gives: only a success whose observed session is the intended one,
/// in the project, and of the target session where one is asked for.
pub open spec fn evidence_of(
    operation: OperationView,
    project_id: Seq<char>,
    target_session_id: Option<SessionId>,
) -> Option<SessionEvidenceView> {
    match (operation.observed_session_id, operation.observed_model, operation.terminal_outcome) {
        (Some(session), Some(model), Some(TerminalOutcomeView::Succeeded(_))) => if operation.project_id
            == project_id && operation.state == OperationState::Succeeded && session
            == operation.session_id && (target_session_id is Some ==> session
            == target_session_id->Some_0) {
            Some(
                SessionEvidenceView {
                    operation_id: operation.operation_id,
                    target_session_id: session,
                    observed_model: model,
                    observed_claude_version: operation.observed_claude_version,
                },
            )
        } else {
            None
        },
        _ => None,
    }
}

/// Whether some operation gives the evidence.
pub open spec fn evidenced(
    tables: TablesView,
    project_id: Seq<char>,
    target_session_id: Option<SessionId>,
    evidence: SessionEvidenceView,
) -> bool {
    exists|id: OperationId| #[trigger]
        tables.operations.contains_key(id) && evidence_of(
            tables.operations[id].operation,
            project_id,
            target_session_id,
        ) == Some(evidence)
}

/// Whether a list is the whole evidence, by rising operation identity.
pub open spec fn whole_evidence(
    tables: TablesView,
    project_id: Seq<char>,
    target_session_id: Option<SessionId>,
    list: Seq<SessionEvidenceView>,
) -> bool {
    &&& forall|i: int, j: int|
        #![trigger list[i], list[j]]
        0 <= i < j < list.len() ==> list[i].operation_id.0 < list[j].operation_id.0
    &&& forall|evidence: SessionEvidenceView|
        list.contains(evidence) <==> #[trigger] evidenced(
            tables,
            project_id,
            target_session_id,
            evidence,
        )
}

impl Ranked for SessionEvidence {
    open spec fn before(left: SessionEvidenceView, right: SessionEvidenceView) -> bool {
        left.operation_id.0 < right.operation_id.0
    }

    proof fn irreflexive(value: SessionEvidenceView) {
    }

    proof fn transitive(
        first: SessionEvidenceView,
        second: SessionEvidenceView,
        third: SessionEvidenceView,
    ) {
    }

    fn ranks_before(&self, other: &Self) -> (before: bool) {
        self.operation_id.0 < other.operation_id.0
    }
}

/// The evidence an operation gives.
fn evidence(
    operation: &Operation,
    project_id: &ProjectId,
    target_session_id: Option<SessionId>,
) -> (found: Option<SessionEvidence>)
    ensures
        optional(found) == evidence_of(operation@, project_id@, target_session_id),
{
    if !operation.project_id.same(project_id) || operation.state != OperationState::Succeeded {
        return None;
    }
    match (
        operation.observed_session_id,
        &operation.observed_model,
        &operation.terminal_outcome,
    ) {
        (Some(session), Some(model), Some(TerminalOutcome::Succeeded(_))) => {
            if session != operation.session_id {
                return None;
            }
            match target_session_id {
                Some(required) => {
                    if session != required {
                        return None;
                    }
                },
                None => {},
            }
            Some(
                SessionEvidence {
                    operation_id: operation.operation_id,
                    target_session_id: session,
                    observed_model: model.clone(),
                    observed_claude_version: operation.observed_claude_version.clone(),
                },
            )
        },
        _ => None,
    }
}

impl Tables {
    /// Admits a one-shot request under the given fresh identity.
    pub fn admit_operation(
        &self,
        request: &OperationStart,
        session_id: SessionId,
        fingerprint: &str,
        fresh: OperationId,
    ) -> (admitted: Result<Decided<OperationAdmission>, OperatorError>)
        requires
            self.well_formed(),
        ensures
            decision(admitted) == admission(self@, request@, session_id, fingerprint@, fresh),
    {
        match self.requested(request.request_id) {
            Some(record) => {
                return unchanged(
                    OperationAdmission::Existing {
                        operation: record.operation.clone(),
                        fingerprint: record.fingerprint.clone(),
                    },
                );
            },
            None => {},
        }
        if self.project(&request.project_id).is_none() {
            return unchanged(OperationAdmission::MissingProject);
        }
        match self.claim(session_id) {
            Some(claim) => {
                return match self.operation(claim.operation_id) {
                    Some(record) => unchanged(
                        OperationAdmission::ActiveSession { operation: record.operation.clone() },
                    ),
                    None => Err(
                        OperatorError::State("active session references no operation".to_owned()),
                    ),
                };
            },
            None => {},
        }
        if !self.identity_is_free(fresh) {
            return Err(OperatorError::State("operation identity is already in use".to_owned()));
        }
        let operation = new_operation(
            fresh,
            request.request_id,
            &request.project_id,
            request.intent,
            session_id,
        );
        let record = OperationRecord {
            operation: operation.clone(),
            fingerprint: fingerprint.to_owned(),
        };
        let mut changes = Vec::new();
        changes.push(Change::InsertOperation(record));
        changes.push(Change::ClaimSession(Claim { session_id, operation_id: fresh }));
        changes.push(Change::CoverOperation { operation_id: fresh });
        proof {
            assert(views(changes@) =~= seq![
                ChangeView::InsertOperation(
                    OperationRecordView { operation: operation@, fingerprint: fingerprint@ },
                ),
                ChangeView::ClaimSession(Claim { session_id, operation_id: fresh }),
                ChangeView::CoverOperation { operation_id: fresh },
            ]);
        }
        changed(OperationAdmission::Inserted(operation), changes)
    }

    /// Admits a one-shot request under a random fresh identity.
    pub fn persist_operation_admission(
        &self,
        request: &OperationStart,
        session_id: SessionId,
        fingerprint: &str,
    ) -> (admitted: Result<Decided<OperationAdmission>, OperatorError>)
        requires
            self.well_formed(),
        ensures
            exists|fresh: OperationId|
                random_uuid_layout(fresh.0) && decision(admitted) == #[trigger] admission(
                    self@,
                    request@,
                    session_id,
                    fingerprint@,
                    fresh,
                ),
    {
        let fresh = OperationId::new();
        self.admit_operation(request, session_id, fingerprint, fresh)
    }

    /// Whether an operation identity is free.
    pub(crate) fn identity_is_free(&self, operation_id: OperationId) -> (free: bool)
        requires
            self.well_formed(),
        ensures
            free == identity_free(self@, operation_id),
    {
        self.operation(operation_id).is_none() && !self.holds_claim(operation_id)
            && self.diagnostics(operation_id).is_none() && self.conversation(
            ConversationId::new(operation_id),
        ).is_none()
    }

    /// The operation under an identity.
    pub fn get_operation(&self, operation_id: OperationId) -> (found: Result<
        Operation,
        OperatorError,
    >)
        requires
            self.well_formed(),
        ensures
            answer(found) == (match self@.operation(operation_id) {
                Some(operation) => Ok(operation),
                None => Err(OperatorErrorView::UnknownOperation(uuid_text(operation_id.0))),
            }),
    {
        match self.operation(operation_id) {
            Some(record) => Ok(record.operation.clone()),
            None => Err(OperatorError::UnknownOperation(operation_id.to_text())),
        }
    }

    /// Moves an operation to its next state.
    pub fn transition(
        &self,
        operation_id: OperationId,
        next: OperationState,
        terminal: Option<TerminalOutcome>,
        observed_session: Option<SessionId>,
        observed_model: Option<String>,
        observed_version: Option<String>,
    ) -> (moved: Result<Decided<Operation>, OperatorError>)
        requires
            self.well_formed(),
        ensures
            decision(moved) == transitioned(
                self@,
                operation_id,
                next,
                optional(terminal),
                observed_session,
                optional(observed_model),
                optional(observed_version),
            ),
    {
        let mut operation = match self.get_operation(operation_id) {
            Ok(operation) => operation,
            Err(error) => {
                return Err(error);
            },
        };
        if !allowed(operation.state, next) {
            return Err(
                OperatorError::Conflict("operation transition is not permitted".to_owned()),
            );
        }
        if next.terminal() != terminal.is_some() {
            return Err(
                OperatorError::State(
                    "terminal outcome must exactly match terminal state".to_owned(),
                ),
            );
        }
        operation.state = next;
        operation.terminal_outcome = terminal;
        if observed_session.is_some() {
            operation.observed_session_id = observed_session;
        }
        if observed_model.is_some() {
            operation.observed_model = observed_model;
        }
        if observed_version.is_some() {
            operation.observed_claude_version = observed_version;
        }
        let mut changes = Vec::new();
        changes.push(Change::UpdateOperation(operation.clone()));
        if next.terminal() {
            changes.push(Change::ReleaseSession { operation_id: operation.operation_id });
            proof {
                assert(views(changes@) =~= seq![
                    ChangeView::UpdateOperation(operation@),
                    ChangeView::ReleaseSession { operation_id: operation@.operation_id },
                ]);
            }
        } else {
            proof {
                assert(views(changes@) =~= seq![ChangeView::UpdateOperation(operation@)]);
            }
        }
        changed(operation, changes)
    }

    /// The whole evidence of a project, of one target session where one is given.
    fn evidence_for_project(
        &self,
        project_id: &ProjectId,
        target_session_id: Option<SessionId>,
    ) -> (list: Vec<SessionEvidence>)
        requires
            self.well_formed(),
        ensures
            whole_evidence(self@, project_id@, target_session_id, views(list@)),
    {
        let ghost rows = self.operation_rows();
        proof {
            self.lemma_operation_rows();
        }
        let mut list: Vec<SessionEvidence> = Vec::new();
        let mut index: usize = 0;
        while index < self.operation_count()
            invariant
                index <= rows.len(),
                rows == self.operation_rows(),
                forall|i: int, j: int|
                    #![trigger rows[i], rows[j]]
                    0 <= i < rows.len() && 0 <= j < rows.len() && rows[i].operation.operation_id
                        == rows[j].operation.operation_id ==> i == j,
                ordered::<SessionEvidence>(views(list@)),
                forall|i: int, j: int|
                    #![trigger views(list@)[i], views(list@)[j]]
                    0 <= i < j < list@.len() ==> views(list@)[i].operation_id
                        != views(list@)[j].operation_id,
                forall|e: SessionEvidenceView| #[trigger]
                    views(list@).contains(e) <==> exists|k: int|
                        0 <= k < index && evidence_of(
                            (#[trigger] rows[k]).operation,
                            project_id@,
                            target_session_id,
                        ) == Some(e),
            decreases rows.len() - index,
        {
            let ghost before = views(list@);
            match evidence(&self.operation_at(index).operation, project_id, target_session_id) {
                Some(item) => {
                    let ghost added = item@;
                    insert_in_order(&mut list, item);
                    proof {
                        let at = choose|at: int|
                            0 <= at <= before.len() && views(list@) == #[trigger] before.insert(
                                at,
                                added,
                            );
                        let after = views(list@);
                        assert forall|i: int| 0 <= i < before.len() implies (
                        #[trigger] before[i]).operation_id != added.operation_id by {
                            assert(before.contains(before[i]));
                            let k = choose|k: int|
                                0 <= k < index && evidence_of(
                                    (#[trigger] rows[k]).operation,
                                    project_id@,
                                    target_session_id,
                                ) == Some(before[i]);
                            assert(rows[k].operation.operation_id != rows[index as int].operation
                                .operation_id);
                        }
                        assert forall|i: int, j: int|
                            #![trigger after[i], after[j]]
                            0 <= i < j < after.len() implies after[i].operation_id
                            != after[j].operation_id by {
                            let fi = if i <= at { i } else { i - 1 };
                            let fj = if j <= at { j } else { j - 1 };
                            if i != at {
                                assert(after[i] == before[fi]);
                            }
                            if j != at {
                                assert(after[j] == before[fj]);
                            }
                        }
                        assert forall|e: SessionEvidenceView| #[trigger]
                            after.contains(e) <==> exists|k: int|
                                0 <= k < index + 1 && evidence_of(
                                    (#[trigger] rows[k]).operation,
                                    project_id@,
                                    target_session_id,
                                ) == Some(e) by {
                            lemma_insert_contains(before, at, added, e);
                            if after.contains(e) {
                                if e == added {
                                    assert(evidence_of(
                                        rows[index as int].operation,
                                        project_id@,
                                        target_session_id,
                                    ) == Some(e));
                                }
                            }
                        }
                    }
                },
                None => {},
            }
            index = index + 1;
        }
        proof {
            let found = views(list@);
            assert forall|e: SessionEvidenceView|
                found.contains(e) <==> #[trigger] evidenced(
                    self@,
                    project_id@,
                    target_session_id,
                    e,
                ) by {
                if found.contains(e) {
                    let k = choose|k: int|
                        0 <= k < index && evidence_of(
                            (#[trigger] rows[k]).operation,
                            project_id@,
                            target_session_id,
                        ) == Some(e);
                    assert(self@.operations.contains_key(rows[k].operation.operation_id));
                }
                if evidenced(self@, project_id@, target_session_id, e) {
                    let id = choose|id: OperationId| #[trigger]
                        self@.operations.contains_key(id) && evidence_of(
                            self@.operations[id].operation,
                            project_id@,
                            target_session_id,
                        ) == Some(e);
                    let k = choose|k: int|
                        0 <= k < rows.len() && #[trigger] rows[k] == self@.operations[id];
                    assert(evidence_of(rows[k].operation, project_id@, target_session_id) == Some(
                        e,
                    ));
                }
            }
        }
        list
    }

    /// The whole evidence of a project.
    pub fn list_session_evidence(&self, project_id: &ProjectId) -> (list: Vec<SessionEvidence>)
        requires
            self.well_formed(),
        ensures
            whole_evidence(self@, project_id@, None, views(list@)),
    {
        self.evidence_for_project(project_id, None)
    }

    /// The whole evidence of one target session in a project.
    pub fn inspect_session_evidence(
        &self,
        project_id: &ProjectId,
        target_session_id: SessionId,
    ) -> (list: Vec<SessionEvidence>)
        requires
            self.well_formed(),
        ensures
            whole_evidence(self@, project_id@, Some(target_session_id), views(list@)),
    {
        self.evidence_for_project(project_id, Some(target_session_id))
    }
}

} // verus!
