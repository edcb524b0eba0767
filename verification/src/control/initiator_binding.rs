//! Proves evidence and assigns one explicit initiator identity binding.

use vstd::prelude::*;

use crate::contract::control::{
    BindingPersistence, BindingRegistration, BindingRegistrationStatus, BindingRegistrationView,
    InitiatorBinding, InitiatorBindingRequest, InitiatorBindingRequestView, InitiatorBindingView,
    OperatorError, OperatorErrorView,
};
use crate::control::project;
use crate::control::session_inventory::{for_exact_session, session_evidenced};
use crate::state::decision::{changed, decision, Decided};
use crate::state::initiator_binding::binding_persistence;
use crate::state::project::registered;
use crate::state::tables::{ChangeView, Tables, TablesView};

verus! {

/// What a request for a binding yields: a binding needs a registered project and evidence of the
/// session; the same binding again is told as existing, and another one is a conflict.
pub open spec fn binding_registered(tables: TablesView, request: InitiatorBindingRequestView) -> Result<
    (BindingRegistrationView, Seq<ChangeView>),
    OperatorErrorView,
> {
    let binding = InitiatorBindingView {
        project_id: request.project_id,
        identity: request.identity,
        target_session_id: request.target_session_id,
    };
    match registered(tables, request.project_id) {
        Err(error) => Err(error),
        Ok(_) => if !session_evidenced(tables, request.project_id, request.target_session_id) {
            Err(
                OperatorErrorView::UnknownSession {
                    project_id: request.project_id,
                    target_session_id: request.target_session_id,
                },
            )
        } else {
            match binding_persistence(tables, binding) {
                (BindingPersistence::Inserted, changes) => Ok(
                    (
                        BindingRegistrationView {
                            binding,
                            status: BindingRegistrationStatus::Inserted,
                        },
                        changes,
                    ),
                ),
                (BindingPersistence::Existing { target_session_id }, changes) => if target_session_id
                    == request.target_session_id {
                    Ok(
                        (
                            BindingRegistrationView {
                                binding,
                                status: BindingRegistrationStatus::Existing,
                            },
                            changes,
                        ),
                    )
                } else {
                    Err(
                        OperatorErrorView::BindingConflict {
                            existing_target_session_id: target_session_id,
                            requested_target_session_id: request.target_session_id,
                        },
                    )
                },
            }
        },
    }
}

/// Registers a binding.
pub fn register(tables: &Tables, request: InitiatorBindingRequest) -> (registered: Result<
    Decided<BindingRegistration>,
    OperatorError,
>)
    requires
        tables.well_formed(),
    ensures
        decision(registered) == binding_registered(tables@, request@),
{
    match project::get(tables, &request.project_id) {
        Ok(_) => {},
        Err(error) => {
            return Err(error);
        },
    }
    let evidence = for_exact_session(tables, &request.project_id, request.target_session_id);
    if evidence.len() == 0 {
        return Err(
            OperatorError::UnknownSession {
                project_id: request.project_id,
                target_session_id: request.target_session_id,
            },
        );
    }
    let binding = InitiatorBinding {
        project_id: request.project_id,
        identity: request.identity,
        target_session_id: request.target_session_id,
    };
    let persisted = match tables.persist_initiator_binding(&binding) {
        Ok(persisted) => persisted,
        Err(error) => {
            return Err(error);
        },
    };
    match persisted.value {
        BindingPersistence::Inserted => changed(
            BindingRegistration { binding, status: BindingRegistrationStatus::Inserted },
            persisted.changes,
        ),
        BindingPersistence::Existing { target_session_id } => {
            if target_session_id == binding.target_session_id {
                changed(
                    BindingRegistration { binding, status: BindingRegistrationStatus::Existing },
                    persisted.changes,
                )
            } else {
                Err(
                    OperatorError::BindingConflict {
                        existing_target_session_id: target_session_id,
                        requested_target_session_id: binding.target_session_id,
                    },
                )
            }
        },
    }
}

} // verus!
