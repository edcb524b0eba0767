//! Typed tool input for evidence, binding, and exact-session decisions.

use vstd::prelude::*;

use crate::contract::control::{
    DaemonRequest, DaemonRequestView, InitiatorBindingRequest, InitiatorBindingRequestView,
    InitiatorIdentity, InitiatorIdentityView, SessionContinuity, SessionDecisionRequest,
    SessionDecisionRequestView, SessionInspectRequest, SessionInspectRequestView,
    SessionInventoryRequest, SessionInventoryRequestView,
};
use crate::contract::identity::{
    InitiatorAgentIdentity, InitiatorSessionIdentity, RoleIdentity, SessionId, SubjectIdentity,
    TaskIdentity,
};
use crate::gateway::error::{projected, refused_arguments, GatewayError, GatewayErrorView};
use crate::gateway::mcp::{parse_uuid, project_id, project_named, uuid_named};

verus! {

/// How a review is to be continued.
#[derive(Clone, Copy, Debug, PartialEq, Eq, Structural)]
pub enum McpSessionContinuity {
    ContinueBound,
    Independent,
}

/// The arguments of `session_inventory`.
#[derive(Debug, PartialEq, Eq)]
pub struct SessionInventoryInput {
    pub project_id: String,
}

/// The mathematical content of [`SessionInventoryInput`].
#[verifier::ext_equal]
pub struct SessionInventoryInputView {
    pub project_id: Seq<char>,
}

impl View for SessionInventoryInput {
    type V = SessionInventoryInputView;

    open spec fn view(&self) -> SessionInventoryInputView {
        SessionInventoryInputView {
            project_id: self.project_id@,
        }
    }
}

/// The arguments of `session_inspect`.
#[derive(Debug, PartialEq, Eq)]
pub struct SessionInspectInput {
    pub project_id: String,
    pub target_session_id: String,
}

/// The mathematical content of [`SessionInspectInput`].
#[verifier::ext_equal]
pub struct SessionInspectInputView {
    pub project_id: Seq<char>,
    pub target_session_id: Seq<char>,
}

impl View for SessionInspectInput {
    type V = SessionInspectInputView;

    open spec fn view(&self) -> SessionInspectInputView {
        SessionInspectInputView {
            project_id: self.project_id@,
            target_session_id: self.target_session_id@,
        }
    }
}

/// The arguments of `initiator_binding_register`.
#[derive(Debug, PartialEq, Eq)]
pub struct InitiatorBindingRegisterInput {
    pub project_id: String,
    pub initiator_session_id: String,
    pub initiator_agent_id: String,
    pub role_id: String,
    pub task_id: String,
    pub subject_id: String,
    pub target_session_id: String,
}

/// The mathematical content of [`InitiatorBindingRegisterInput`].
#[verifier::ext_equal]
pub struct InitiatorBindingRegisterInputView {
    pub project_id: Seq<char>,
    pub initiator_session_id: Seq<char>,
    pub initiator_agent_id: Seq<char>,
    pub role_id: Seq<char>,
    pub task_id: Seq<char>,
    pub subject_id: Seq<char>,
    pub target_session_id: Seq<char>,
}

impl View for InitiatorBindingRegisterInput {
    type V = InitiatorBindingRegisterInputView;

    open spec fn view(&self) -> InitiatorBindingRegisterInputView {
        InitiatorBindingRegisterInputView {
            project_id: self.project_id@,
            initiator_session_id: self.initiator_session_id@,
            initiator_agent_id: self.initiator_agent_id@,
            role_id: self.role_id@,
            task_id: self.task_id@,
            subject_id: self.subject_id@,
            target_session_id: self.target_session_id@,
        }
    }
}

/// The arguments of `session_decide`.
#[derive(Debug, PartialEq, Eq)]
pub struct SessionDecideInput {
    pub project_id: String,
    pub initiator_session_id: String,
    pub initiator_agent_id: String,
    pub role_id: String,
    pub task_id: String,
    pub subject_id: String,
    pub continuity: McpSessionContinuity,
}

/// The mathematical content of [`SessionDecideInput`].
#[verifier::ext_equal]
pub struct SessionDecideInputView {
    pub project_id: Seq<char>,
    pub initiator_session_id: Seq<char>,
    pub initiator_agent_id: Seq<char>,
    pub role_id: Seq<char>,
    pub task_id: Seq<char>,
    pub subject_id: Seq<char>,
    pub continuity: McpSessionContinuity,
}

impl View for SessionDecideInput {
    type V = SessionDecideInputView;

    open spec fn view(&self) -> SessionDecideInputView {
        SessionDecideInputView {
            project_id: self.project_id@,
            initiator_session_id: self.initiator_session_id@,
            initiator_agent_id: self.initiator_agent_id@,
            role_id: self.role_id@,
            task_id: self.task_id@,
            subject_id: self.subject_id@,
            continuity: self.continuity,
        }
    }
}

/// The five parts of an initiator identity, each of which must not be empty.
pub open spec fn identity_named(
    initiator_session_id: Seq<char>,
    initiator_agent_id: Seq<char>,
    role_id: Seq<char>,
    task_id: Seq<char>,
    subject_id: Seq<char>,
) -> Result<InitiatorIdentityView, GatewayErrorView> {
    if initiator_session_id.len() == 0 {
        Err(refused_arguments("invalid request: initiator_session_id must not be empty"@))
    } else if initiator_agent_id.len() == 0 {
        Err(refused_arguments("invalid request: initiator_agent_id must not be empty"@))
    } else if role_id.len() == 0 {
        Err(refused_arguments("invalid request: role_id must not be empty"@))
    } else if task_id.len() == 0 {
        Err(refused_arguments("invalid request: task_id must not be empty"@))
    } else if subject_id.len() == 0 {
        Err(refused_arguments("invalid request: subject_id must not be empty"@))
    } else {
        Ok(
            InitiatorIdentityView {
                initiator_session_id,
                initiator_agent_id,
                role_id,
                task_id,
                subject_id,
            },
        )
    }
}

/// The refusal of an empty part reads as written above.
proof fn lemma_refusals()
    ensures
        "invalid request: "@ + ("initiator_session_id"@ + " must not be empty"@)
            == "invalid request: initiator_session_id must not be empty"@,
        "invalid request: "@ + ("initiator_agent_id"@ + " must not be empty"@)
            == "invalid request: initiator_agent_id must not be empty"@,
        "invalid request: "@ + ("role_id"@ + " must not be empty"@)
            == "invalid request: role_id must not be empty"@,
        "invalid request: "@ + ("task_id"@ + " must not be empty"@)
            == "invalid request: task_id must not be empty"@,
        "invalid request: "@ + ("subject_id"@ + " must not be empty"@)
            == "invalid request: subject_id must not be empty"@,
{
    reveal_strlit("invalid request: ");
    reveal_strlit(" must not be empty");
    reveal_strlit("initiator_session_id");
    reveal_strlit("initiator_agent_id");
    reveal_strlit("role_id");
    reveal_strlit("task_id");
    reveal_strlit("subject_id");
    reveal_strlit("invalid request: initiator_session_id must not be empty");
    reveal_strlit("invalid request: initiator_agent_id must not be empty");
    reveal_strlit("invalid request: role_id must not be empty");
    reveal_strlit("invalid request: task_id must not be empty");
    reveal_strlit("invalid request: subject_id must not be empty");
    assert("invalid request: "@ + ("initiator_session_id"@ + " must not be empty"@)
        =~= "invalid request: initiator_session_id must not be empty"@);
    assert("invalid request: "@ + ("initiator_agent_id"@ + " must not be empty"@)
        =~= "invalid request: initiator_agent_id must not be empty"@);
    assert("invalid request: "@ + ("role_id"@ + " must not be empty"@)
        =~= "invalid request: role_id must not be empty"@);
    assert("invalid request: "@ + ("task_id"@ + " must not be empty"@)
        =~= "invalid request: task_id must not be empty"@);
    assert("invalid request: "@ + ("subject_id"@ + " must not be empty"@)
        =~= "invalid request: subject_id must not be empty"@);
}

/// Makes an initiator identity of its five parts.
pub fn identity(
    initiator_session_id: String,
    initiator_agent_id: String,
    role_id: String,
    task_id: String,
    subject_id: String,
) -> (identity: Result<InitiatorIdentity, GatewayError>)
    ensures
        projected(identity) == identity_named(
            initiator_session_id@,
            initiator_agent_id@,
            role_id@,
            task_id@,
            subject_id@,
        ),
{
    proof {
        lemma_refusals();
    }
    let initiator_session_id = match InitiatorSessionIdentity::new(initiator_session_id) {
        Ok(value) => value,
        Err(error) => {
            return Err(GatewayError::invalid(error.to_text()));
        },
    };
    let initiator_agent_id = match InitiatorAgentIdentity::new(initiator_agent_id) {
        Ok(value) => value,
        Err(error) => {
            return Err(GatewayError::invalid(error.to_text()));
        },
    };
    let role_id = match RoleIdentity::new(role_id) {
        Ok(value) => value,
        Err(error) => {
            return Err(GatewayError::invalid(error.to_text()));
        },
    };
    let task_id = match TaskIdentity::new(task_id) {
        Ok(value) => value,
        Err(error) => {
            return Err(GatewayError::invalid(error.to_text()));
        },
    };
    let subject_id = match SubjectIdentity::new(subject_id) {
        Ok(value) => value,
        Err(error) => {
            return Err(GatewayError::invalid(error.to_text()));
        },
    };
    Ok(
        InitiatorIdentity {
            initiator_session_id,
            initiator_agent_id,
            role_id,
            task_id,
            subject_id,
        },
    )
}

/// The request of `session_inventory`.
pub open spec fn inventory_requested(input: SessionInventoryInputView) -> Result<
    DaemonRequestView,
    GatewayErrorView,
> {
    match project_named(input.project_id) {
        Err(error) => Err(error),
        Ok(project_id) => Ok(
            DaemonRequestView::SessionInventory(SessionInventoryRequestView { project_id }),
        ),
    }
}

/// Makes the request of `session_inventory`.
pub fn inventory(input: SessionInventoryInput) -> (request: Result<DaemonRequest, GatewayError>)
    ensures
        projected(request) == inventory_requested(input@),
{
    match project_id(input.project_id) {
        Err(error) => Err(error),
        Ok(project_id) => Ok(
            DaemonRequest::SessionInventory(SessionInventoryRequest { project_id }),
        ),
    }
}

/// The request of `session_inspect`.
pub open spec fn inspection_requested(input: SessionInspectInputView) -> Result<
    DaemonRequestView,
    GatewayErrorView,
> {
    match project_named(input.project_id) {
        Err(error) => Err(error),
        Ok(project_id) => match uuid_named(input.target_session_id, "target_session_id"@) {
            Err(error) => Err(error),
            Ok(session) => Ok(
                DaemonRequestView::SessionInspect(
                    SessionInspectRequestView {
                        project_id,
                        target_session_id: SessionId(session),
                    },
                ),
            ),
        },
    }
}

/// Makes the request of `session_inspect`.
pub fn inspect(input: SessionInspectInput) -> (request: Result<DaemonRequest, GatewayError>)
    ensures
        projected(request) == inspection_requested(input@),
{
    let project_id = match project_id(input.project_id) {
        Ok(project_id) => project_id,
        Err(error) => {
            return Err(error);
        },
    };
    match parse_uuid(input.target_session_id.as_str(), "target_session_id") {
        Err(error) => Err(error),
        Ok(session) => Ok(
            DaemonRequest::SessionInspect(
                SessionInspectRequest {
                    project_id,
                    target_session_id: SessionId::new_exact(session),
                },
            ),
        ),
    }
}

/// The request of `initiator_binding_register`.
pub open spec fn binding_requested(input: InitiatorBindingRegisterInputView) -> Result<
    DaemonRequestView,
    GatewayErrorView,
> {
    match project_named(input.project_id) {
        Err(error) => Err(error),
        Ok(project_id) => match identity_named(
            input.initiator_session_id,
            input.initiator_agent_id,
            input.role_id,
            input.task_id,
            input.subject_id,
        ) {
            Err(error) => Err(error),
            Ok(identity) => match uuid_named(input.target_session_id, "target_session_id"@) {
                Err(error) => Err(error),
                Ok(session) => Ok(
                    DaemonRequestView::InitiatorBindingRegister(
                        InitiatorBindingRequestView {
                            project_id,
                            identity,
                            target_session_id: SessionId(session),
                        },
                    ),
                ),
            },
        },
    }
}

/// Makes the request of `initiator_binding_register`.
pub fn register(input: InitiatorBindingRegisterInput) -> (request: Result<
    DaemonRequest,
    GatewayError,
>)
    ensures
        projected(request) == binding_requested(input@),
{
    let project_id = match project_id(input.project_id) {
        Ok(project_id) => project_id,
        Err(error) => {
            return Err(error);
        },
    };
    let identity = match identity(
        input.initiator_session_id,
        input.initiator_agent_id,
        input.role_id,
        input.task_id,
        input.subject_id,
    ) {
        Ok(identity) => identity,
        Err(error) => {
            return Err(error);
        },
    };
    match parse_uuid(input.target_session_id.as_str(), "target_session_id") {
        Err(error) => Err(error),
        Ok(session) => Ok(
            DaemonRequest::InitiatorBindingRegister(
                InitiatorBindingRequest {
                    project_id,
                    identity,
                    target_session_id: SessionId::new_exact(session),
                },
            ),
        ),
    }
}

/// The request of `session_decide`.
pub open spec fn decision_requested(input: SessionDecideInputView) -> Result<
    DaemonRequestView,
    GatewayErrorView,
> {
    match project_named(input.project_id) {
        Err(error) => Err(error),
        Ok(project_id) => match identity_named(
            input.initiator_session_id,
            input.initiator_agent_id,
            input.role_id,
            input.task_id,
            input.subject_id,
        ) {
            Err(error) => Err(error),
            Ok(identity) => Ok(
                DaemonRequestView::SessionDecide(
                    SessionDecisionRequestView {
                        project_id,
                        identity,
                        continuity: match input.continuity {
                            McpSessionContinuity::ContinueBound => SessionContinuity::ContinueBound,
                            McpSessionContinuity::Independent => SessionContinuity::Independent,
                        },
                    },
                ),
            ),
        },
    }
}

/// Makes the request of `session_decide`.
pub fn decide(input: SessionDecideInput) -> (request: Result<DaemonRequest, GatewayError>)
    ensures
        projected(request) == decision_requested(input@),
{
    let continuity = match input.continuity {
        McpSessionContinuity::ContinueBound => SessionContinuity::ContinueBound,
        McpSessionContinuity::Independent => SessionContinuity::Independent,
    };
    let project_id = match project_id(input.project_id) {
        Ok(project_id) => project_id,
        Err(error) => {
            return Err(error);
        },
    };
    match identity(
        input.initiator_session_id,
        input.initiator_agent_id,
        input.role_id,
        input.task_id,
        input.subject_id,
    ) {
        Err(error) => Err(error),
        Ok(identity) => Ok(
            DaemonRequest::SessionDecide(
                SessionDecisionRequest { project_id, identity, continuity },
            ),
        ),
    }
}

} // verus!
