//! Derives continuation evidence solely from successful operator operations.

use vstd::prelude::*;

use crate::contract::control::{
    OperatorError, OperatorErrorView, SessionEvidence, SessionEvidenceView, SessionInspectRequest,
    SessionInventoryRequest,
};
use crate::contract::identity::{ProjectId, SessionId};
use crate::control::project;
use crate::state::operation::{evidenced, whole_evidence};
use crate::state::project::registered;
use crate::state::tables::{Tables, TablesView};
use crate::text::views;

verus! {

/// Whether some operation proves something of the session in the project.
pub open spec fn session_evidenced(
    tables: TablesView,
    project_id: Seq<char>,
    target_session_id: SessionId,
) -> bool {
    exists|evidence: SessionEvidenceView| #[trigger]
        evidenced(tables, project_id, Some(target_session_id), evidence)
}

/// The whole evidence of a project.
pub fn for_project(tables: &Tables, project_id: &ProjectId) -> (list: Vec<SessionEvidence>)
    requires
        tables.well_formed(),
    ensures
        whole_evidence(tables@, project_id@, None, views(list@)),
{
    tables.list_session_evidence(project_id)
}

/// The whole evidence of one target session.
pub fn for_exact_session(
    tables: &Tables,
    project_id: &ProjectId,
    target_session_id: SessionId,
) -> (list: Vec<SessionEvidence>)
    requires
        tables.well_formed(),
    ensures
        whole_evidence(tables@, project_id@, Some(target_session_id), views(list@)),
        list@.len() == 0 <==> !session_evidenced(tables@, project_id@, target_session_id),
{
    let list = tables.inspect_session_evidence(project_id, target_session_id);
    proof {
        let found = views(list@);
        if found.len() > 0 {
            assert(found.contains(found[0]));
            assert(evidenced(tables@, project_id@, Some(target_session_id), found[0]));
        }
        if session_evidenced(tables@, project_id@, target_session_id) {
            let evidence = choose|evidence: SessionEvidenceView| #[trigger]
                evidenced(tables@, project_id@, Some(target_session_id), evidence);
            assert(found.contains(evidence));
        }
    }
    list
}

/// The whole evidence of a registered project.
pub fn inventory(tables: &Tables, request: SessionInventoryRequest) -> (found: Result<
    Vec<SessionEvidence>,
    OperatorError,
>)
    requires
        tables.well_formed(),
    ensures
        match found {
            Ok(list) => registered(tables@, request@.project_id) is Ok && whole_evidence(
                tables@,
                request@.project_id,
                None,
                views(list@),
            ),
            Err(error) => registered(tables@, request@.project_id) == Err::<
                crate::contract::control::ProjectRegistrationView,
                _,
            >(error@),
        },
{
    match project::get(tables, &request.project_id) {
        Ok(_) => Ok(for_project(tables, &request.project_id)),
        Err(error) => Err(error),
    }
}

/// The whole evidence of one target session, which must have some.
pub fn inspect(tables: &Tables, request: SessionInspectRequest) -> (found: Result<
    Vec<SessionEvidence>,
    OperatorError,
>)
    requires
        tables.well_formed(),
    ensures
        match found {
            Ok(list) => {
                &&& registered(tables@, request@.project_id) is Ok
                &&& session_evidenced(tables@, request@.project_id, request@.target_session_id)
                &&& whole_evidence(
                    tables@,
                    request@.project_id,
                    Some(request@.target_session_id),
                    views(list@),
                )
            },
            Err(error) => match registered(tables@, request@.project_id) {
                Err(unknown) => error@ == unknown,
                Ok(_) => {
                    &&& !session_evidenced(tables@, request@.project_id, request@.target_session_id)
                    &&& error@ == (OperatorErrorView::UnknownSession {
                        project_id: request@.project_id,
                        target_session_id: request@.target_session_id,
                    })
                },
            },
        },
{
    match project::get(tables, &request.project_id) {
        Ok(_) => {},
        Err(error) => {
            return Err(error);
        },
    }
    let evidence = for_exact_session(tables, &request.project_id, request.target_session_id);
    if evidence.len() == 0 {
        return Err(
            OperatorError::UnknownSession {
                project_id: request.project_id,
                target_session_id: request.target_session_id,
            },
        );
    }
    Ok(evidence)
}

} // verus!
