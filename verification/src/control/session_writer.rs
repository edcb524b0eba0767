//! Admits the one writer of a session.

use vstd::prelude::*;

use crate::contract::control::{
    conflict, state_failure, Operation, OperationAdmission, OperationAdmissionView,
    OperationIntent, OperationStart, OperationStartView, OperationState, OperationView,
    OperatorError, OperatorErrorView,
};
use crate::contract::identity::{OperationId, SessionId};
use crate::identifier::random_uuid_layout;
use crate::state::decision::{decision, Decided};
use crate::state::operation::admission;
use crate::state::tables::{ChangeView, Tables, TablesView};
use crate::text::same_text;

verus! {

/// Whether a session is the one that an intent asks for: any random one where it asks for a new one.
pub open spec fn session_of_intent(intent: OperationIntent, session: SessionId) -> bool {
    match intent {
        OperationIntent::New => random_uuid_layout(session.0),
        OperationIntent::ResumeExact { session_id } => session == session_id,
    }
}

/// Why a session that an operation holds gets no other writer.
pub open spec fn held_session(state: OperationState) -> OperatorErrorView {
    match state {
        OperationState::Accepted | OperationState::Running => conflict(
            "session already has an active writer"@,
        ),
        OperationState::Indeterminate => OperatorErrorView::UnclassifiedSession(
            "session was held by an operation interrupted by daemon restart"@,
        ),
        _ => state_failure("terminal operation retained an active writer claim"@),
    }
}

/// What an admission means to the caller: the operation, and whether it is new.
pub open spec fn writer_admitted(
    admitted: OperationAdmissionView,
    request: OperationStartView,
    fingerprint: Seq<char>,
) -> Result<(OperationView, bool), OperatorErrorView> {
    match admitted {
        OperationAdmissionView::Existing { operation, fingerprint: existing } => if existing
            == fingerprint {
            Ok((operation, false))
        } else {
            Err(conflict("request_id was already used with a different complete request"@))
        },
        OperationAdmissionView::MissingProject => Err(
            OperatorErrorView::UnknownProject(request.project_id),
        ),
        OperationAdmissionView::ActiveSession { operation } => Err(held_session(operation.state)),
        OperationAdmissionView::Inserted(operation) => Ok((operation, true)),
    }
}

/// An admitted operation, and whether it is new.
pub struct AdmittedWriter {
    pub operation: Operation,
    pub inserted: bool,
}

impl View for AdmittedWriter {
    type V = (OperationView, bool);

    open spec fn view(&self) -> (OperationView, bool) {
        (self.operation@, self.inserted)
    }
}

/// The session of an intent: a random one where it asks for a new one.
pub fn session_for(intent: OperationIntent) -> (session: SessionId)
    ensures
        session_of_intent(intent, session),
{
    match intent {
        OperationIntent::New => SessionId::new(),
        OperationIntent::ResumeExact { session_id } => session_id,
    }
}

/// Why a session that an operation holds gets no other writer.
fn active_writer_error(state: OperationState) -> (error: OperatorError)
    ensures
        error@ == held_session(state),
{
    match state {
        OperationState::Accepted | OperationState::Running => OperatorError::Conflict(
            "session already has an active writer".to_owned(),
        ),
        OperationState::Indeterminate => OperatorError::UnclassifiedSession(
            "session was held by an operation interrupted by daemon restart".to_owned(),
        ),
        OperationState::Succeeded
        | OperationState::Failed
        | OperationState::Cancelled => OperatorError::State(
            "terminal operation retained an active writer claim".to_owned(),
        ),
    }
}

/// Tells what an admission means to the caller.
pub fn classify_admission(
    admitted: OperationAdmission,
    request: &OperationStart,
    fingerprint: &str,
) -> (writer: Result<AdmittedWriter, OperatorError>)
    ensures
        crate::state::decision::answer(writer) == writer_admitted(
            admitted@,
            request@,
            fingerprint@,
        ),
{
    match admitted {
        OperationAdmission::Existing { operation, fingerprint: existing } => {
            if same_text(existing.as_str(), fingerprint) {
                Ok(AdmittedWriter { operation, inserted: false })
            } else {
                Err(
                    OperatorError::Conflict(
                        "request_id was already used with a different complete request".to_owned(),
                    ),
                )
            }
        },
        OperationAdmission::MissingProject => Err(
            OperatorError::UnknownProject(request.project_id.as_str().to_owned()),
        ),
        OperationAdmission::ActiveSession { operation } => Err(
            active_writer_error(operation.state),
        ),
        OperationAdmission::Inserted(operation) => Ok(
            AdmittedWriter { operation, inserted: true },
        ),
    }
}

/// What admitting a writer yields, where both fresh identities are given.
pub open spec fn writer_admission(
    tables: TablesView,
    request: OperationStartView,
    fingerprint: Seq<char>,
    session: SessionId,
    fresh: OperationId,
) -> Result<((OperationView, bool), Seq<ChangeView>), OperatorErrorView> {
    match admission(tables, request, session, fingerprint, fresh) {
        Err(error) => Err(error),
        Ok((admitted, changes)) => match writer_admitted(admitted, request, fingerprint) {
            Err(error) => Err(error),
            Ok(writer) => Ok((writer, changes)),
        },
    }
}

/// Admits the writer of a session under given fresh identities.
pub fn admit_exact(
    tables: &Tables,
    request: &OperationStart,
    fingerprint: &str,
    session: SessionId,
    fresh: OperationId,
) -> (admitted: Result<Decided<AdmittedWriter>, OperatorError>)
    requires
        tables.well_formed(),
    ensures
        decision(admitted) == writer_admission(
            tables@,
            request@,
            fingerprint@,
            session,
            fresh,
        ),
{
    match tables.admit_operation(request, session, fingerprint, fresh) {
        Err(error) => Err(error),
        Ok(decided) => match classify_admission(decided.value, request, fingerprint) {
            Err(error) => Err(error),
            Ok(writer) => Ok(Decided { value: writer, changes: decided.changes }),
        },
    }
}

/// Admits the writer of a session under random fresh identities.
pub fn admit_writer(tables: &Tables, request: &OperationStart, fingerprint: &str) -> (
admitted: Result<Decided<AdmittedWriter>, OperatorError>)
    requires
        tables.well_formed(),
    ensures
        exists|session: SessionId, fresh: OperationId|
            session_of_intent(request@.intent, session) && random_uuid_layout(fresh.0) && decision(
                admitted,
            ) == #[trigger] writer_admission(tables@, request@, fingerprint@, session, fresh),
{
    let session = session_for(request.intent);
    let fresh = OperationId::new();
    admit_exact(tables, request, fingerprint, session, fresh)
}

/// The same complete request again is answered with its operation and changes nothing; its identity
/// with other content is a conflict.
pub proof fn repeated_request_is_answered(
    tables: TablesView,
    request: OperationStartView,
    fingerprint: Seq<char>,
    session: SessionId,
    fresh: OperationId,
    record: crate::state::tables::OperationRecordView,
)
    requires
        tables.requested(request.request_id) == Some(record),
    ensures
        writer_admission(tables, request, fingerprint, session, fresh) == (if record.fingerprint
            == fingerprint {
            Ok::<((OperationView, bool), Seq<ChangeView>), OperatorErrorView>(
                ((record.operation, false), Seq::empty()),
            )
        } else {
            Err(conflict("request_id was already used with a different complete request"@))
        }),
{
}

} // verus!
