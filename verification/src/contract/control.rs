//! Operation Control's public domain and durable-state contract.

use vstd::prelude::*;
use vstd::string::*;

use crate::contract::identity::{
    ConversationId, InitiatorAgentIdentity, InitiatorSessionIdentity, OperationId, ProjectId,
    RequestId, RoleIdentity, SessionId, SubjectIdentity, TaskIdentity, TurnId,
};
use crate::identifier::{display_uuid, uuid_text};
use crate::text::{joined, optional, views};

verus! {

/// The exact identity under which an initiator asks for a review.
#[derive(Debug, PartialEq, Eq)]
pub struct InitiatorIdentity {
    pub initiator_session_id: InitiatorSessionIdentity,
    pub initiator_agent_id: InitiatorAgentIdentity,
    pub role_id: RoleIdentity,
    pub task_id: TaskIdentity,
    pub subject_id: SubjectIdentity,
}

/// The mathematical content of [`InitiatorIdentity`].
#[verifier::ext_equal]
pub struct InitiatorIdentityView {
    pub initiator_session_id: Seq<char>,
    pub initiator_agent_id: Seq<char>,
    pub role_id: Seq<char>,
    pub task_id: Seq<char>,
    pub subject_id: Seq<char>,
}

impl View for InitiatorIdentity {
    type V = InitiatorIdentityView;

    open spec fn view(&self) -> InitiatorIdentityView {
        InitiatorIdentityView {
            initiator_session_id: self.initiator_session_id@,
            initiator_agent_id: self.initiator_agent_id@,
            role_id: self.role_id@,
            task_id: self.task_id@,
            subject_id: self.subject_id@,
        }
    }
}

impl Clone for InitiatorIdentity {
    fn clone(&self) -> (copy: Self)
        ensures
            copy@ == self@,
    {
        InitiatorIdentity {
            initiator_session_id: self.initiator_session_id.clone(),
            initiator_agent_id: self.initiator_agent_id.clone(),
            role_id: self.role_id.clone(),
            task_id: self.task_id.clone(),
            subject_id: self.subject_id.clone(),
        }
    }
}

impl InitiatorIdentity {
    /// Whether two identities agree in every part.
    pub fn same(&self, other: &InitiatorIdentity) -> (same: bool)
        ensures
            same == (self@ == other@),
    {
        self.initiator_session_id.same(&other.initiator_session_id)
            && self.initiator_agent_id.same(&other.initiator_agent_id)
            && self.role_id.same(&other.role_id)
            && self.task_id.same(&other.task_id)
            && self.subject_id.same(&other.subject_id)
    }
}

/// Whether a review continues a bound session or stands alone.
#[derive(Clone, Copy, Debug, PartialEq, Eq, Structural)]
pub enum SessionContinuity {
    ContinueBound,
    Independent,
}

#[derive(Debug, PartialEq, Eq)]
pub struct SessionInventoryRequest {
    pub project_id: ProjectId,
}

/// The mathematical content of [`SessionInventoryRequest`].
#[verifier::ext_equal]
pub struct SessionInventoryRequestView {
    pub project_id: Seq<char>,
}

impl View for SessionInventoryRequest {
    type V = SessionInventoryRequestView;

    open spec fn view(&self) -> SessionInventoryRequestView {
        SessionInventoryRequestView {
            project_id: self.project_id@,
        }
    }
}

impl Clone for SessionInventoryRequest {
    fn clone(&self) -> (copy: Self)
        ensures
            copy@ == self@,
    {
        SessionInventoryRequest {
            project_id: self.project_id.clone(),
        }
    }
}

#[derive(Debug, PartialEq, Eq)]
pub struct SessionInspectRequest {
    pub project_id: ProjectId,
    pub target_session_id: SessionId,
}

/// The mathematical content of [`SessionInspectRequest`].
#[verifier::ext_equal]
pub struct SessionInspectRequestView {
    pub project_id: Seq<char>,
    pub target_session_id: SessionId,
}

impl View for SessionInspectRequest {
    type V = SessionInspectRequestView;

    open spec fn view(&self) -> SessionInspectRequestView {
        SessionInspectRequestView {
            project_id: self.project_id@,
            target_session_id: self.target_session_id,
        }
    }
}

impl Clone for SessionInspectRequest {
    fn clone(&self) -> (copy: Self)
        ensures
            copy@ == self@,
    {
        SessionInspectRequest {
            project_id: self.project_id.clone(),
            target_session_id: self.target_session_id,
        }
    }
}

#[derive(Debug, PartialEq, Eq)]
pub struct InitiatorBindingRequest {
    pub project_id: ProjectId,
    pub identity: InitiatorIdentity,
    pub target_session_id: SessionId,
}

/// The mathematical content of [`InitiatorBindingRequest`].
#[verifier::ext_equal]
pub struct InitiatorBindingRequestView {
    pub project_id: Seq<char>,
    pub identity: InitiatorIdentityView,
    pub target_session_id: SessionId,
}

impl View for InitiatorBindingRequest {
    type V = InitiatorBindingRequestView;

    open spec fn view(&self) -> InitiatorBindingRequestView {
        InitiatorBindingRequestView {
            project_id: self.project_id@,
            identity: self.identity@,
            target_session_id: self.target_session_id,
        }
    }
}

impl Clone for InitiatorBindingRequest {
    fn clone(&self) -> (copy: Self)
        ensures
            copy@ == self@,
    {
        InitiatorBindingRequest {
            project_id: self.project_id.clone(),
            identity: self.identity.clone(),
            target_session_id: self.target_session_id,
        }
    }
}

#[derive(Debug, PartialEq, Eq)]
pub struct SessionDecisionRequest {
    pub project_id: ProjectId,
    pub identity: InitiatorIdentity,
    pub continuity: SessionContinuity,
}

/// The mathematical content of [`SessionDecisionRequest`].
#[verifier::ext_equal]
pub struct SessionDecisionRequestView {
    pub project_id: Seq<char>,
    pub identity: InitiatorIdentityView,
    pub continuity: SessionContinuity,
}

impl View for SessionDecisionRequest {
    type V = SessionDecisionRequestView;

    open spec fn view(&self) -> SessionDecisionRequestView {
        SessionDecisionRequestView {
            project_id: self.project_id@,
            identity: self.identity@,
            continuity: self.continuity,
        }
    }
}

impl Clone for SessionDecisionRequest {
    fn clone(&self) -> (copy: Self)
        ensures
            copy@ == self@,
    {
        SessionDecisionRequest {
            project_id: self.project_id.clone(),
            identity: self.identity.clone(),
            continuity: self.continuity,
        }
    }
}

/// What one successful operation proves of the session it wrote.
#[derive(Debug, PartialEq, Eq)]
pub struct SessionEvidence {
    pub operation_id: OperationId,
    pub target_session_id: SessionId,
    pub observed_model: String,
    pub observed_claude_version: Option<String>,
}

/// The mathematical content of [`SessionEvidence`].
#[verifier::ext_equal]
pub struct SessionEvidenceView {
    pub operation_id: OperationId,
    pub target_session_id: SessionId,
    pub observed_model: Seq<char>,
    pub observed_claude_version: Option<Seq<char>>,
}

impl View for SessionEvidence {
    type V = SessionEvidenceView;

    open spec fn view(&self) -> SessionEvidenceView {
        SessionEvidenceView {
            operation_id: self.operation_id,
            target_session_id: self.target_session_id,
            observed_model: self.observed_model@,
            observed_claude_version: optional(self.observed_claude_version),
        }
    }
}

impl Clone for SessionEvidence {
    fn clone(&self) -> (copy: Self)
        ensures
            copy@ == self@,
    {
        SessionEvidence {
            operation_id: self.operation_id,
            target_session_id: self.target_session_id,
            observed_model: self.observed_model.clone(),
            observed_claude_version: self.observed_claude_version.clone(),
        }
    }
}

/// One initiator identity bound to one target session.
#[derive(Debug, PartialEq, Eq)]
pub struct InitiatorBinding {
    pub project_id: ProjectId,
    pub identity: InitiatorIdentity,
    pub target_session_id: SessionId,
}

/// The mathematical content of [`InitiatorBinding`].
#[verifier::ext_equal]
pub struct InitiatorBindingView {
    pub project_id: Seq<char>,
    pub identity: InitiatorIdentityView,
    pub target_session_id: SessionId,
}

impl View for InitiatorBinding {
    type V = InitiatorBindingView;

    open spec fn view(&self) -> InitiatorBindingView {
        InitiatorBindingView {
            project_id: self.project_id@,
            identity: self.identity@,
            target_session_id: self.target_session_id,
        }
    }
}

impl Clone for InitiatorBinding {
    fn clone(&self) -> (copy: Self)
        ensures
            copy@ == self@,
    {
        InitiatorBinding {
            project_id: self.project_id.clone(),
            identity: self.identity.clone(),
            target_session_id: self.target_session_id,
        }
    }
}

#[derive(Clone, Copy, Debug, PartialEq, Eq, Structural)]
pub enum BindingRegistrationStatus {
    Inserted,
    Existing,
}

#[derive(Debug, PartialEq, Eq)]
pub struct BindingRegistration {
    pub binding: InitiatorBinding,
    pub status: BindingRegistrationStatus,
}

/// The mathematical content of [`BindingRegistration`].
#[verifier::ext_equal]
pub struct BindingRegistrationView {
    pub binding: InitiatorBindingView,
    pub status: BindingRegistrationStatus,
}

impl View for BindingRegistration {
    type V = BindingRegistrationView;

    open spec fn view(&self) -> BindingRegistrationView {
        BindingRegistrationView {
            binding: self.binding@,
            status: self.status,
        }
    }
}

impl Clone for BindingRegistration {
    fn clone(&self) -> (copy: Self)
        ensures
            copy@ == self@,
    {
        BindingRegistration {
            binding: self.binding.clone(),
            status: self.status,
        }
    }
}

#[derive(Clone, Copy, Debug, PartialEq, Eq, Structural)]
pub enum SessionRefusalReason {
    IdentityMismatch,
    AmbiguousSessions,
    BindingRequired,
}

/// The facts behind a session decision.
#[derive(Debug, PartialEq, Eq)]
pub enum SessionDecisionEvidence {
    Independent,
    IdentityBindings { bindings: Vec<InitiatorBinding> },
    CandidateSessions { target_session_ids: Vec<SessionId> },
}

/// The mathematical content of [`SessionDecisionEvidence`].
#[verifier::ext_equal]
pub enum SessionDecisionEvidenceView {
    Independent,
    IdentityBindings { bindings: Seq<InitiatorBindingView> },
    CandidateSessions { target_session_ids: Seq<SessionId> },
}

impl View for SessionDecisionEvidence {
    type V = SessionDecisionEvidenceView;

    open spec fn view(&self) -> SessionDecisionEvidenceView {
        match *self {
            SessionDecisionEvidence::Independent => SessionDecisionEvidenceView::Independent,
            SessionDecisionEvidence::IdentityBindings { bindings } => SessionDecisionEvidenceView::IdentityBindings {
                bindings: views(bindings@),
            },
            SessionDecisionEvidence::CandidateSessions { target_session_ids } => SessionDecisionEvidenceView::CandidateSessions {
                target_session_ids: target_session_ids@,
            },
        }
    }
}

impl Clone for SessionDecisionEvidence {
    fn clone(&self) -> (copy: Self)
        ensures
            copy@ == self@,
    {
        match self {
            SessionDecisionEvidence::Independent => SessionDecisionEvidence::Independent,
            SessionDecisionEvidence::IdentityBindings { bindings } => {
                let copied = bindings.clone();
                proof {
                    assert(views(copied@) =~= views(bindings@));
                }
                SessionDecisionEvidence::IdentityBindings { bindings: copied }
            },
            SessionDecisionEvidence::CandidateSessions { target_session_ids } => SessionDecisionEvidence::CandidateSessions {
                target_session_ids: target_session_ids.clone(),
            },
        }
    }
}

/// Which session a review is to use.
#[derive(Debug, PartialEq, Eq)]
pub enum SessionDecision {
    New { evidence: SessionDecisionEvidence },
    ResumeExact { target_session_id: SessionId, evidence_operation_ids: Vec<OperationId> },
    Refuse { reason: SessionRefusalReason, evidence: SessionDecisionEvidence },
}

/// The mathematical content of [`SessionDecision`].
#[verifier::ext_equal]
pub enum SessionDecisionView {
    New { evidence: SessionDecisionEvidenceView },
    ResumeExact { target_session_id: SessionId, evidence_operation_ids: Seq<OperationId> },
    Refuse { reason: SessionRefusalReason, evidence: SessionDecisionEvidenceView },
}

impl View for SessionDecision {
    type V = SessionDecisionView;

    open spec fn view(&self) -> SessionDecisionView {
        match *self {
            SessionDecision::New { evidence } => SessionDecisionView::New {
                evidence: evidence@,
            },
            SessionDecision::ResumeExact { target_session_id, evidence_operation_ids } => SessionDecisionView::ResumeExact {
                target_session_id,
                evidence_operation_ids: evidence_operation_ids@,
            },
            SessionDecision::Refuse { reason, evidence } => SessionDecisionView::Refuse {
                reason,
                evidence: evidence@,
            },
        }
    }
}

impl Clone for SessionDecision {
    fn clone(&self) -> (copy: Self)
        ensures
            copy@ == self@,
    {
        match self {
            SessionDecision::New { evidence } => SessionDecision::New {
                evidence: evidence.clone(),
            },
            SessionDecision::ResumeExact { target_session_id, evidence_operation_ids } => SessionDecision::ResumeExact {
                target_session_id: *target_session_id,
                evidence_operation_ids: evidence_operation_ids.clone(),
            },
            SessionDecision::Refuse { reason, evidence } => SessionDecision::Refuse {
                reason: *reason,
                evidence: evidence.clone(),
            },
        }
    }
}

#[derive(Clone, Copy, Debug, PartialEq, Eq, Structural)]
pub enum BindingPersistence {
    Inserted,
    Existing { target_session_id: SessionId },
}

impl View for BindingPersistence {
    type V = BindingPersistence;

    open spec fn view(&self) -> BindingPersistence {
        *self
    }
}

/// One explicitly registered project.
#[derive(Debug, PartialEq, Eq)]
pub struct ProjectRegistration {
    pub project_id: ProjectId,
    pub working_directory: String,
    pub claude_executable: String,
    pub expected_opus_model: String,
}

/// The mathematical content of [`ProjectRegistration`].
#[verifier::ext_equal]
pub struct ProjectRegistrationView {
    pub project_id: Seq<char>,
    pub working_directory: Seq<char>,
    pub claude_executable: Seq<char>,
    pub expected_opus_model: Seq<char>,
}

impl View for ProjectRegistration {
    type V = ProjectRegistrationView;

    open spec fn view(&self) -> ProjectRegistrationView {
        ProjectRegistrationView {
            project_id: self.project_id@,
            working_directory: self.working_directory@,
            claude_executable: self.claude_executable@,
            expected_opus_model: self.expected_opus_model@,
        }
    }
}

impl Clone for ProjectRegistration {
    fn clone(&self) -> (copy: Self)
        ensures
            copy@ == self@,
    {
        ProjectRegistration {
            project_id: self.project_id.clone(),
            working_directory: self.working_directory.clone(),
            claude_executable: self.claude_executable.clone(),
            expected_opus_model: self.expected_opus_model.clone(),
        }
    }
}

impl ProjectRegistration {
    /// Refuses a registration with an empty model, then one with an empty path.
    pub fn validate(&self) -> (valid: Result<(), OperatorError>)
        ensures
            match valid {
                Ok(()) => self@.expected_opus_model.len() > 0 && self@.working_directory.len() > 0
                    && self@.claude_executable.len() > 0,
                Err(error) => error@ == invalid_request(
                    if self@.expected_opus_model.len() == 0 {
                        "expected_opus_model must not be empty"@
                    } else {
                        "project paths must not be empty"@
                    },
                ) && (self@.expected_opus_model.len() == 0 || self@.working_directory.len() == 0
                    || self@.claude_executable.len() == 0),
            },
    {
        if self.expected_opus_model.as_str().is_empty() {
            return Err(
                OperatorError::InvalidRequest("expected_opus_model must not be empty".to_owned()),
            );
        }
        if self.working_directory.as_str().is_empty()
            || self.claude_executable.as_str().is_empty() {
            return Err(
                OperatorError::InvalidRequest("project paths must not be empty".to_owned()),
            );
        }
        Ok(())
    }

    /// Whether two registrations agree in every part.
    pub fn same(&self, other: &ProjectRegistration) -> (same: bool)
        ensures
            same == (self@ == other@),
    {
        self.project_id.same(&other.project_id)
            && self.working_directory == other.working_directory
            && self.claude_executable == other.claude_executable
            && self.expected_opus_model == other.expected_opus_model
    }
}

/// Whether an operation opens a session or resumes an exact one.
#[derive(Clone, Copy, Debug, PartialEq, Eq, Structural)]
pub enum OperationIntent {
    New,
    ResumeExact { session_id: SessionId },
}

#[derive(Clone, Copy, Debug, PartialEq, Eq, Structural)]
pub enum ReviewProfile {
    OpusReadOnly,
}

/// One complete request for a one-shot review.
#[derive(Debug, PartialEq, Eq)]
pub struct OperationStart {
    pub request_id: RequestId,
    pub project_id: ProjectId,
    pub intent: OperationIntent,
    pub prompt: String,
    pub review_profile: ReviewProfile,
}

/// The mathematical content of [`OperationStart`].
#[verifier::ext_equal]
pub struct OperationStartView {
    pub request_id: RequestId,
    pub project_id: Seq<char>,
    pub intent: OperationIntent,
    pub prompt: Seq<char>,
    pub review_profile: ReviewProfile,
}

impl View for OperationStart {
    type V = OperationStartView;

    open spec fn view(&self) -> OperationStartView {
        OperationStartView {
            request_id: self.request_id,
            project_id: self.project_id@,
            intent: self.intent,
            prompt: self.prompt@,
            review_profile: self.review_profile,
        }
    }
}

impl Clone for OperationStart {
    fn clone(&self) -> (copy: Self)
        ensures
            copy@ == self@,
    {
        OperationStart {
            request_id: self.request_id,
            project_id: self.project_id.clone(),
            intent: self.intent,
            prompt: self.prompt.clone(),
            review_profile: self.review_profile,
        }
    }
}

impl OperationStart {
    /// Refuses an empty prompt.
    pub fn validate(&self) -> (valid: Result<(), OperatorError>)
        ensures
            match valid {
                Ok(()) => self@.prompt.len() > 0,
                Err(error) => self@.prompt.len() == 0 && error@ == invalid_request(
                    "prompt must not be empty"@,
                ),
            },
    {
        if self.prompt.as_str().is_empty() {
            return Err(OperatorError::InvalidRequest("prompt must not be empty".to_owned()));
        }
        Ok(())
    }
}

/// The durable state of an operation.
#[derive(Clone, Copy, Debug, PartialEq, Eq, Structural)]
pub enum OperationState {
    Accepted,
    Running,
    Succeeded,
    Failed,
    Cancelled,
    Indeterminate,
}

impl OperationState {
    /// Whether no further transition can follow.
    pub open spec fn is_terminal(self) -> bool {
        !(self is Accepted || self is Running)
    }

    pub fn terminal(self) -> (terminal: bool)
        ensures
            terminal == self.is_terminal(),
    {
        match self {
            OperationState::Accepted | OperationState::Running => false,
            OperationState::Succeeded
            | OperationState::Failed
            | OperationState::Cancelled
            | OperationState::Indeterminate => true,
        }
    }
}

/// How an operation or a conversation ended, with the text that says so.
#[derive(Debug, PartialEq, Eq)]
pub enum TerminalOutcome {
    Succeeded(String),
    Failed(String),
    Cancelled(String),
    Indeterminate(String),
}

/// The mathematical content of [`TerminalOutcome`].
#[verifier::ext_equal]
pub enum TerminalOutcomeView {
    Succeeded(Seq<char>),
    Failed(Seq<char>),
    Cancelled(Seq<char>),
    Indeterminate(Seq<char>),
}

impl View for TerminalOutcome {
    type V = TerminalOutcomeView;

    open spec fn view(&self) -> TerminalOutcomeView {
        match *self {
            TerminalOutcome::Succeeded(value) => TerminalOutcomeView::Succeeded(value@),
            TerminalOutcome::Failed(value) => TerminalOutcomeView::Failed(value@),
            TerminalOutcome::Cancelled(value) => TerminalOutcomeView::Cancelled(value@),
            TerminalOutcome::Indeterminate(value) => TerminalOutcomeView::Indeterminate(value@),
        }
    }
}

impl Clone for TerminalOutcome {
    fn clone(&self) -> (copy: Self)
        ensures
            copy@ == self@,
    {
        match self {
            TerminalOutcome::Succeeded(value) => TerminalOutcome::Succeeded(value.clone()),
            TerminalOutcome::Failed(value) => TerminalOutcome::Failed(value.clone()),
            TerminalOutcome::Cancelled(value) => TerminalOutcome::Cancelled(value.clone()),
            TerminalOutcome::Indeterminate(value) => TerminalOutcome::Indeterminate(value.clone()),
        }
    }
}

impl TerminalOutcome {
    /// Whether two outcomes are the same, text and all.
    pub fn same(&self, other: &TerminalOutcome) -> (same: bool)
        ensures
            same == (self@ == other@),
    {
        match (self, other) {
            (TerminalOutcome::Succeeded(left), TerminalOutcome::Succeeded(right)) => *left
                == *right,
            (TerminalOutcome::Failed(left), TerminalOutcome::Failed(right)) => *left == *right,
            (TerminalOutcome::Cancelled(left), TerminalOutcome::Cancelled(right)) => *left
                == *right,
            (TerminalOutcome::Indeterminate(left), TerminalOutcome::Indeterminate(right)) => *left
                == *right,
            _ => false,
        }
    }
}

/// One durable operation.
#[derive(Debug, PartialEq, Eq)]
pub struct Operation {
    pub operation_id: OperationId,
    pub request_id: RequestId,
    pub project_id: ProjectId,
    pub intent: OperationIntent,
    pub session_id: SessionId,
    pub state: OperationState,
    pub observed_session_id: Option<SessionId>,
    pub observed_model: Option<String>,
    pub observed_claude_version: Option<String>,
    pub terminal_outcome: Option<TerminalOutcome>,
}

/// The mathematical content of [`Operation`].
#[verifier::ext_equal]
pub struct OperationView {
    pub operation_id: OperationId,
    pub request_id: RequestId,
    pub project_id: Seq<char>,
    pub intent: OperationIntent,
    pub session_id: SessionId,
    pub state: OperationState,
    pub observed_session_id: Option<SessionId>,
    pub observed_model: Option<Seq<char>>,
    pub observed_claude_version: Option<Seq<char>>,
    pub terminal_outcome: Option<TerminalOutcomeView>,
}

impl View for Operation {
    type V = OperationView;

    open spec fn view(&self) -> OperationView {
        OperationView {
            operation_id: self.operation_id,
            request_id: self.request_id,
            project_id: self.project_id@,
            intent: self.intent,
            session_id: self.session_id,
            state: self.state,
            observed_session_id: self.observed_session_id,
            observed_model: optional(self.observed_model),
            observed_claude_version: optional(self.observed_claude_version),
            terminal_outcome: optional(self.terminal_outcome),
        }
    }
}

impl Clone for Operation {
    fn clone(&self) -> (copy: Self)
        ensures
            copy@ == self@,
    {
        Operation {
            operation_id: self.operation_id,
            request_id: self.request_id,
            project_id: self.project_id.clone(),
            intent: self.intent,
            session_id: self.session_id,
            state: self.state,
            observed_session_id: self.observed_session_id,
            observed_model: self.observed_model.clone(),
            observed_claude_version: self.observed_claude_version.clone(),
            terminal_outcome: self.terminal_outcome.clone(),
        }
    }
}

/// Facts atomically observed or persisted while admitting one operation request.
#[derive(Debug, PartialEq, Eq)]
pub enum OperationAdmission {
    Existing { operation: Operation, fingerprint: String },
    MissingProject,
    ActiveSession { operation: Operation },
    Inserted(Operation),
}

/// The mathematical content of [`OperationAdmission`].
#[verifier::ext_equal]
pub enum OperationAdmissionView {
    Existing { operation: OperationView, fingerprint: Seq<char> },
    MissingProject,
    ActiveSession { operation: OperationView },
    Inserted(OperationView),
}

impl View for OperationAdmission {
    type V = OperationAdmissionView;

    open spec fn view(&self) -> OperationAdmissionView {
        match *self {
            OperationAdmission::Existing { operation, fingerprint } => OperationAdmissionView::Existing {
                operation: operation@,
                fingerprint: fingerprint@,
            },
            OperationAdmission::MissingProject => OperationAdmissionView::MissingProject,
            OperationAdmission::ActiveSession { operation } => OperationAdmissionView::ActiveSession {
                operation: operation@,
            },
            OperationAdmission::Inserted(value) => OperationAdmissionView::Inserted(value@),
        }
    }
}

impl Clone for OperationAdmission {
    fn clone(&self) -> (copy: Self)
        ensures
            copy@ == self@,
    {
        match self {
            OperationAdmission::Existing { operation, fingerprint } => OperationAdmission::Existing {
                operation: operation.clone(),
                fingerprint: fingerprint.clone(),
            },
            OperationAdmission::MissingProject => OperationAdmission::MissingProject,
            OperationAdmission::ActiveSession { operation } => OperationAdmission::ActiveSession {
                operation: operation.clone(),
            },
            OperationAdmission::Inserted(value) => OperationAdmission::Inserted(value.clone()),
        }
    }
}

/// One complete request for a live conversation with its first turn.
#[derive(Debug, PartialEq, Eq)]
pub struct ConversationStart {
    pub request_id: RequestId,
    pub project_id: ProjectId,
    pub intent: OperationIntent,
    pub turn_id: TurnId,
    pub prompt: String,
    pub review_profile: ReviewProfile,
}

/// The mathematical content of [`ConversationStart`].
#[verifier::ext_equal]
pub struct ConversationStartView {
    pub request_id: RequestId,
    pub project_id: Seq<char>,
    pub intent: OperationIntent,
    pub turn_id: TurnId,
    pub prompt: Seq<char>,
    pub review_profile: ReviewProfile,
}

impl View for ConversationStart {
    type V = ConversationStartView;

    open spec fn view(&self) -> ConversationStartView {
        ConversationStartView {
            request_id: self.request_id,
            project_id: self.project_id@,
            intent: self.intent,
            turn_id: self.turn_id,
            prompt: self.prompt@,
            review_profile: self.review_profile,
        }
    }
}

impl Clone for ConversationStart {
    fn clone(&self) -> (copy: Self)
        ensures
            copy@ == self@,
    {
        ConversationStart {
            request_id: self.request_id,
            project_id: self.project_id.clone(),
            intent: self.intent,
            turn_id: self.turn_id,
            prompt: self.prompt.clone(),
            review_profile: self.review_profile,
        }
    }
}

impl ConversationStart {
    /// Refuses an empty prompt.
    pub fn validate(&self) -> (valid: Result<(), OperatorError>)
        ensures
            match valid {
                Ok(()) => self@.prompt.len() > 0,
                Err(error) => self@.prompt.len() == 0 && error@ == invalid_request(
                    "prompt must not be empty"@,
                ),
            },
    {
        if self.prompt.as_str().is_empty() {
            return Err(OperatorError::InvalidRequest("prompt must not be empty".to_owned()));
        }
        Ok(())
    }
}

/// One further turn for a live conversation.
#[derive(Debug, PartialEq, Eq)]
pub struct ConversationSend {
    pub conversation_id: ConversationId,
    pub turn_id: TurnId,
    pub prompt: String,
}

/// The mathematical content of [`ConversationSend`].
#[verifier::ext_equal]
pub struct ConversationSendView {
    pub conversation_id: ConversationId,
    pub turn_id: TurnId,
    pub prompt: Seq<char>,
}

impl View for ConversationSend {
    type V = ConversationSendView;

    open spec fn view(&self) -> ConversationSendView {
        ConversationSendView {
            conversation_id: self.conversation_id,
            turn_id: self.turn_id,
            prompt: self.prompt@,
        }
    }
}

impl Clone for ConversationSend {
    fn clone(&self) -> (copy: Self)
        ensures
            copy@ == self@,
    {
        ConversationSend {
            conversation_id: self.conversation_id,
            turn_id: self.turn_id,
            prompt: self.prompt.clone(),
        }
    }
}

impl ConversationSend {
    /// Refuses an empty prompt.
    pub fn validate(&self) -> (valid: Result<(), OperatorError>)
        ensures
            match valid {
                Ok(()) => self@.prompt.len() > 0,
                Err(error) => self@.prompt.len() == 0 && error@ == invalid_request(
                    "prompt must not be empty"@,
                ),
            },
    {
        if self.prompt.as_str().is_empty() {
            return Err(OperatorError::InvalidRequest("prompt must not be empty".to_owned()));
        }
        Ok(())
    }
}

/// The largest cursor or position that durable storage can hold.
pub open spec fn durable_range(number: u64) -> bool {
    number <= i64::MAX
}

/// A read of the durable events after a cursor.
#[derive(Clone, Copy, Debug, PartialEq, Eq, Structural)]
pub struct ConversationWait {
    pub conversation_id: ConversationId,
    pub after_sequence: u64,
    pub wait_millis: u64,
}

impl ConversationWait {
    /// Refuses a cursor beyond the durable range.
    pub fn validate(&self) -> (valid: Result<(), OperatorError>)
        ensures
            match valid {
                Ok(()) => durable_range(self.after_sequence),
                Err(error) => !durable_range(self.after_sequence) && error@ == invalid_request(
                    "conversation cursor exceeds the supported durable range"@,
                ),
            },
    {
        if self.after_sequence > i64::MAX as u64 {
            return Err(
                OperatorError::InvalidRequest(
                    "conversation cursor exceeds the supported durable range".to_owned(),
                ),
            );
        }
        Ok(())
    }
}

/// How a live conversation is asked to stop.
#[derive(Clone, Copy, Debug, PartialEq, Eq, Structural)]
pub enum ConversationStopMode {
    Graceful,
    Cancel,
}

/// The durable state of a conversation.
#[derive(Clone, Copy, Debug, PartialEq, Eq, Structural)]
pub enum ConversationState {
    Open,
    Closing,
    Succeeded,
    Cancelled,
    Failed,
    Indeterminate,
}

impl ConversationState {
    /// Whether no further transition can follow.
    pub open spec fn is_terminal(self) -> bool {
        !(self is Open || self is Closing)
    }

    pub fn terminal(self) -> (terminal: bool)
        ensures
            terminal == self.is_terminal(),
    {
        match self {
            ConversationState::Open | ConversationState::Closing => false,
            ConversationState::Succeeded
            | ConversationState::Cancelled
            | ConversationState::Failed
            | ConversationState::Indeterminate => true,
        }
    }
}

/// The durable state of a turn.
#[derive(Clone, Copy, Debug, PartialEq, Eq, Structural)]
pub enum TurnState {
    Queued,
    Started,
    Completed,
    Cancelled,
    Discarded,
    Failed,
    Indeterminate,
}

impl TurnState {
    /// Whether no further transition can follow.
    pub open spec fn is_terminal(self) -> bool {
        !(self is Queued || self is Started)
    }

    pub fn terminal(self) -> (terminal: bool)
        ensures
            terminal == self.is_terminal(),
    {
        match self {
            TurnState::Queued | TurnState::Started => false,
            TurnState::Completed
            | TurnState::Cancelled
            | TurnState::Discarded
            | TurnState::Failed
            | TurnState::Indeterminate => true,
        }
    }
}

/// What becomes of the session-writer claim when a conversation ends.
#[derive(Clone, Copy, Debug, PartialEq, Eq, Structural)]
pub enum SessionClaimDisposition {
    /// The writer is known to have exited: its claim ends.
    ReleaseProvenWriter,
    /// A writer may still run: its claim stays.
    RetainUnclassifiedWriter,
}

/// One durable live conversation.
#[derive(Debug, PartialEq, Eq)]
pub struct Conversation {
    pub conversation_id: ConversationId,
    pub project_id: ProjectId,
    pub intent: OperationIntent,
    pub session_id: SessionId,
    pub state: ConversationState,
    pub close_mode: Option<ConversationStopMode>,
    pub terminal_outcome: Option<TerminalOutcome>,
}

/// The mathematical content of [`Conversation`].
#[verifier::ext_equal]
pub struct ConversationView {
    pub conversation_id: ConversationId,
    pub project_id: Seq<char>,
    pub intent: OperationIntent,
    pub session_id: SessionId,
    pub state: ConversationState,
    pub close_mode: Option<ConversationStopMode>,
    pub terminal_outcome: Option<TerminalOutcomeView>,
}

impl View for Conversation {
    type V = ConversationView;

    open spec fn view(&self) -> ConversationView {
        ConversationView {
            conversation_id: self.conversation_id,
            project_id: self.project_id@,
            intent: self.intent,
            session_id: self.session_id,
            state: self.state,
            close_mode: self.close_mode,
            terminal_outcome: optional(self.terminal_outcome),
        }
    }
}

impl Clone for Conversation {
    fn clone(&self) -> (copy: Self)
        ensures
            copy@ == self@,
    {
        Conversation {
            conversation_id: self.conversation_id,
            project_id: self.project_id.clone(),
            intent: self.intent,
            session_id: self.session_id,
            state: self.state,
            close_mode: self.close_mode,
            terminal_outcome: self.terminal_outcome.clone(),
        }
    }
}

/// One durably admitted turn.
#[derive(Debug, PartialEq, Eq)]
pub struct ConversationTurn {
    pub conversation_id: ConversationId,
    pub turn_id: TurnId,
    pub position: u64,
    pub prompt: String,
    pub state: TurnState,
    pub result: Option<String>,
}

/// The mathematical content of [`ConversationTurn`].
#[verifier::ext_equal]
pub struct ConversationTurnView {
    pub conversation_id: ConversationId,
    pub turn_id: TurnId,
    pub position: u64,
    pub prompt: Seq<char>,
    pub state: TurnState,
    pub result: Option<Seq<char>>,
}

impl View for ConversationTurn {
    type V = ConversationTurnView;

    open spec fn view(&self) -> ConversationTurnView {
        ConversationTurnView {
            conversation_id: self.conversation_id,
            turn_id: self.turn_id,
            position: self.position,
            prompt: self.prompt@,
            state: self.state,
            result: optional(self.result),
        }
    }
}

impl Clone for ConversationTurn {
    fn clone(&self) -> (copy: Self)
        ensures
            copy@ == self@,
    {
        ConversationTurn {
            conversation_id: self.conversation_id,
            turn_id: self.turn_id,
            position: self.position,
            prompt: self.prompt.clone(),
            state: self.state,
            result: self.result.clone(),
        }
    }
}

/// What one durable event says.
#[derive(Debug, PartialEq, Eq)]
pub enum ConversationEventPayload {
    Initialized { session_id: SessionId, model: String, claude_version: Option<String> },
    TurnQueued { turn_id: TurnId },
    TurnStarted { turn_id: TurnId },
    TurnAcknowledged { turn_id: TurnId },
    AssistantTextDelta { turn_id: TurnId, text: String },
    TurnCompleted { turn_id: TurnId, result: String },
    TurnCancelled { turn_id: TurnId, message: String },
    TurnDiscarded { turn_id: TurnId, message: String },
    TurnFailed { turn_id: TurnId, message: String },
    TurnIndeterminate { turn_id: TurnId, message: String },
    ConversationTerminal { outcome: TerminalOutcome },
}

/// The mathematical content of [`ConversationEventPayload`].
#[verifier::ext_equal]
pub enum ConversationEventPayloadView {
    Initialized { session_id: SessionId, model: Seq<char>, claude_version: Option<Seq<char>> },
    TurnQueued { turn_id: TurnId },
    TurnStarted { turn_id: TurnId },
    TurnAcknowledged { turn_id: TurnId },
    AssistantTextDelta { turn_id: TurnId, text: Seq<char> },
    TurnCompleted { turn_id: TurnId, result: Seq<char> },
    TurnCancelled { turn_id: TurnId, message: Seq<char> },
    TurnDiscarded { turn_id: TurnId, message: Seq<char> },
    TurnFailed { turn_id: TurnId, message: Seq<char> },
    TurnIndeterminate { turn_id: TurnId, message: Seq<char> },
    ConversationTerminal { outcome: TerminalOutcomeView },
}

impl View for ConversationEventPayload {
    type V = ConversationEventPayloadView;

    open spec fn view(&self) -> ConversationEventPayloadView {
        match *self {
            ConversationEventPayload::Initialized { session_id, model, claude_version } => ConversationEventPayloadView::Initialized {
                session_id,
                model: model@,
                claude_version: optional(claude_version),
            },
            ConversationEventPayload::TurnQueued { turn_id } => ConversationEventPayloadView::TurnQueued {
                turn_id,
            },
            ConversationEventPayload::TurnStarted { turn_id } => ConversationEventPayloadView::TurnStarted {
                turn_id,
            },
            ConversationEventPayload::TurnAcknowledged { turn_id } => ConversationEventPayloadView::TurnAcknowledged {
                turn_id,
            },
            ConversationEventPayload::AssistantTextDelta { turn_id, text } => ConversationEventPayloadView::AssistantTextDelta {
                turn_id,
                text: text@,
            },
            ConversationEventPayload::TurnCompleted { turn_id, result } => ConversationEventPayloadView::TurnCompleted {
                turn_id,
                result: result@,
            },
            ConversationEventPayload::TurnCancelled { turn_id, message } => ConversationEventPayloadView::TurnCancelled {
                turn_id,
                message: message@,
            },
            ConversationEventPayload::TurnDiscarded { turn_id, message } => ConversationEventPayloadView::TurnDiscarded {
                turn_id,
                message: message@,
            },
            ConversationEventPayload::TurnFailed { turn_id, message } => ConversationEventPayloadView::TurnFailed {
                turn_id,
                message: message@,
            },
            ConversationEventPayload::TurnIndeterminate { turn_id, message } => ConversationEventPayloadView::TurnIndeterminate {
                turn_id,
                message: message@,
            },
            ConversationEventPayload::ConversationTerminal { outcome } => ConversationEventPayloadView::ConversationTerminal {
                outcome: outcome@,
            },
        }
    }
}

impl Clone for ConversationEventPayload {
    fn clone(&self) -> (copy: Self)
        ensures
            copy@ == self@,
    {
        match self {
            ConversationEventPayload::Initialized { session_id, model, claude_version } => ConversationEventPayload::Initialized {
                session_id: *session_id,
                model: model.clone(),
                claude_version: claude_version.clone(),
            },
            ConversationEventPayload::TurnQueued { turn_id } => ConversationEventPayload::TurnQueued {
                turn_id: *turn_id,
            },
            ConversationEventPayload::TurnStarted { turn_id } => ConversationEventPayload::TurnStarted {
                turn_id: *turn_id,
            },
            ConversationEventPayload::TurnAcknowledged { turn_id } => ConversationEventPayload::TurnAcknowledged {
                turn_id: *turn_id,
            },
            ConversationEventPayload::AssistantTextDelta { turn_id, text } => ConversationEventPayload::AssistantTextDelta {
                turn_id: *turn_id,
                text: text.clone(),
            },
            ConversationEventPayload::TurnCompleted { turn_id, result } => ConversationEventPayload::TurnCompleted {
                turn_id: *turn_id,
                result: result.clone(),
            },
            ConversationEventPayload::TurnCancelled { turn_id, message } => ConversationEventPayload::TurnCancelled {
                turn_id: *turn_id,
                message: message.clone(),
            },
            ConversationEventPayload::TurnDiscarded { turn_id, message } => ConversationEventPayload::TurnDiscarded {
                turn_id: *turn_id,
                message: message.clone(),
            },
            ConversationEventPayload::TurnFailed { turn_id, message } => ConversationEventPayload::TurnFailed {
                turn_id: *turn_id,
                message: message.clone(),
            },
            ConversationEventPayload::TurnIndeterminate { turn_id, message } => ConversationEventPayload::TurnIndeterminate {
                turn_id: *turn_id,
                message: message.clone(),
            },
            ConversationEventPayload::ConversationTerminal { outcome } => ConversationEventPayload::ConversationTerminal {
                outcome: outcome.clone(),
            },
        }
    }
}

/// One event of the ordered timeline of a conversation.
#[derive(Debug, PartialEq, Eq)]
pub struct ConversationEvent {
    pub conversation_id: ConversationId,
    pub sequence: u64,
    pub payload: ConversationEventPayload,
}

/// The mathematical content of [`ConversationEvent`].
#[verifier::ext_equal]
pub struct ConversationEventView {
    pub conversation_id: ConversationId,
    pub sequence: u64,
    pub payload: ConversationEventPayloadView,
}

impl View for ConversationEvent {
    type V = ConversationEventView;

    open spec fn view(&self) -> ConversationEventView {
        ConversationEventView {
            conversation_id: self.conversation_id,
            sequence: self.sequence,
            payload: self.payload@,
        }
    }
}

impl Clone for ConversationEvent {
    fn clone(&self) -> (copy: Self)
        ensures
            copy@ == self@,
    {
        ConversationEvent {
            conversation_id: self.conversation_id,
            sequence: self.sequence,
            payload: self.payload.clone(),
        }
    }
}

/// A conversation, its turns, and its events after a cursor.
#[derive(Debug, PartialEq, Eq)]
pub struct ConversationSnapshot {
    pub conversation: Conversation,
    pub turns: Vec<ConversationTurn>,
    pub events: Vec<ConversationEvent>,
}

/// The mathematical content of [`ConversationSnapshot`].
#[verifier::ext_equal]
pub struct ConversationSnapshotView {
    pub conversation: ConversationView,
    pub turns: Seq<ConversationTurnView>,
    pub events: Seq<ConversationEventView>,
}

impl View for ConversationSnapshot {
    type V = ConversationSnapshotView;

    open spec fn view(&self) -> ConversationSnapshotView {
        ConversationSnapshotView {
            conversation: self.conversation@,
            turns: views(self.turns@),
            events: views(self.events@),
        }
    }
}

impl Clone for ConversationSnapshot {
    fn clone(&self) -> (copy: Self)
        ensures
            copy@ == self@,
    {
        let copy = ConversationSnapshot {
            conversation: self.conversation.clone(),
            turns: self.turns.clone(),
            events: self.events.clone(),
        };
        proof {
            assert(views(copy.turns@) =~= views(self.turns@));
            assert(views(copy.events@) =~= views(self.events@));
        }
        copy
    }
}

/// A turn as one observation left it, with the event that records it.
#[derive(Debug, PartialEq, Eq)]
pub struct ConversationTurnObservation {
    pub turn: ConversationTurn,
    pub event: ConversationEvent,
}

/// The mathematical content of [`ConversationTurnObservation`].
#[verifier::ext_equal]
pub struct ConversationTurnObservationView {
    pub turn: ConversationTurnView,
    pub event: ConversationEventView,
}

impl View for ConversationTurnObservation {
    type V = ConversationTurnObservationView;

    open spec fn view(&self) -> ConversationTurnObservationView {
        ConversationTurnObservationView {
            turn: self.turn@,
            event: self.event@,
        }
    }
}

impl Clone for ConversationTurnObservation {
    fn clone(&self) -> (copy: Self)
        ensures
            copy@ == self@,
    {
        ConversationTurnObservation {
            turn: self.turn.clone(),
            event: self.event.clone(),
        }
    }
}

/// Facts atomically observed or persisted while admitting one conversation.
#[derive(Debug, PartialEq, Eq)]
pub enum ConversationStartAdmission {
    Existing { operation: Operation, conversation: Conversation, first_turn: ConversationTurn, fingerprint: String },
    ExistingOperation { operation: Operation, fingerprint: String },
    MissingProject,
    ActiveSession { operation: Operation },
    Inserted { operation: Operation, conversation: Conversation, first_turn: ConversationTurn },
}

/// The mathematical content of [`ConversationStartAdmission`].
#[verifier::ext_equal]
pub enum ConversationStartAdmissionView {
    Existing { operation: OperationView, conversation: ConversationView, first_turn: ConversationTurnView, fingerprint: Seq<char> },
    ExistingOperation { operation: OperationView, fingerprint: Seq<char> },
    MissingProject,
    ActiveSession { operation: OperationView },
    Inserted { operation: OperationView, conversation: ConversationView, first_turn: ConversationTurnView },
}

impl View for ConversationStartAdmission {
    type V = ConversationStartAdmissionView;

    open spec fn view(&self) -> ConversationStartAdmissionView {
        match *self {
            ConversationStartAdmission::Existing { operation, conversation, first_turn, fingerprint } => ConversationStartAdmissionView::Existing {
                operation: operation@,
                conversation: conversation@,
                first_turn: first_turn@,
                fingerprint: fingerprint@,
            },
            ConversationStartAdmission::ExistingOperation { operation, fingerprint } => ConversationStartAdmissionView::ExistingOperation {
                operation: operation@,
                fingerprint: fingerprint@,
            },
            ConversationStartAdmission::MissingProject => ConversationStartAdmissionView::MissingProject,
            ConversationStartAdmission::ActiveSession { operation } => ConversationStartAdmissionView::ActiveSession {
                operation: operation@,
            },
            ConversationStartAdmission::Inserted { operation, conversation, first_turn } => ConversationStartAdmissionView::Inserted {
                operation: operation@,
                conversation: conversation@,
                first_turn: first_turn@,
            },
        }
    }
}

impl Clone for ConversationStartAdmission {
    fn clone(&self) -> (copy: Self)
        ensures
            copy@ == self@,
    {
        match self {
            ConversationStartAdmission::Existing { operation, conversation, first_turn, fingerprint } => ConversationStartAdmission::Existing {
                operation: operation.clone(),
                conversation: conversation.clone(),
                first_turn: first_turn.clone(),
                fingerprint: fingerprint.clone(),
            },
            ConversationStartAdmission::ExistingOperation { operation, fingerprint } => ConversationStartAdmission::ExistingOperation {
                operation: operation.clone(),
                fingerprint: fingerprint.clone(),
            },
            ConversationStartAdmission::MissingProject => ConversationStartAdmission::MissingProject,
            ConversationStartAdmission::ActiveSession { operation } => ConversationStartAdmission::ActiveSession {
                operation: operation.clone(),
            },
            ConversationStartAdmission::Inserted { operation, conversation, first_turn } => ConversationStartAdmission::Inserted {
                operation: operation.clone(),
                conversation: conversation.clone(),
                first_turn: first_turn.clone(),
            },
        }
    }
}

/// Facts atomically observed or persisted while admitting one turn.
#[derive(Debug, PartialEq, Eq)]
pub enum ConversationTurnAdmission {
    Existing { turn: ConversationTurn, fingerprint: String },
    MissingConversation,
    Closed { conversation: Conversation },
    Inserted(ConversationTurn),
}

/// The mathematical content of [`ConversationTurnAdmission`].
#[verifier::ext_equal]
pub enum ConversationTurnAdmissionView {
    Existing { turn: ConversationTurnView, fingerprint: Seq<char> },
    MissingConversation,
    Closed { conversation: ConversationView },
    Inserted(ConversationTurnView),
}

impl View for ConversationTurnAdmission {
    type V = ConversationTurnAdmissionView;

    open spec fn view(&self) -> ConversationTurnAdmissionView {
        match *self {
            ConversationTurnAdmission::Existing { turn, fingerprint } => ConversationTurnAdmissionView::Existing {
                turn: turn@,
                fingerprint: fingerprint@,
            },
            ConversationTurnAdmission::MissingConversation => ConversationTurnAdmissionView::MissingConversation,
            ConversationTurnAdmission::Closed { conversation } => ConversationTurnAdmissionView::Closed {
                conversation: conversation@,
            },
            ConversationTurnAdmission::Inserted(value) => ConversationTurnAdmissionView::Inserted(value@),
        }
    }
}

impl Clone for ConversationTurnAdmission {
    fn clone(&self) -> (copy: Self)
        ensures
            copy@ == self@,
    {
        match self {
            ConversationTurnAdmission::Existing { turn, fingerprint } => ConversationTurnAdmission::Existing {
                turn: turn.clone(),
                fingerprint: fingerprint.clone(),
            },
            ConversationTurnAdmission::MissingConversation => ConversationTurnAdmission::MissingConversation,
            ConversationTurnAdmission::Closed { conversation } => ConversationTurnAdmission::Closed {
                conversation: conversation.clone(),
            },
            ConversationTurnAdmission::Inserted(value) => ConversationTurnAdmission::Inserted(value.clone()),
        }
    }
}

/// Facts atomically observed or persisted while closing a conversation.
#[derive(Debug, PartialEq, Eq)]
pub enum ConversationCloseAdmission {
    ClosedNow { conversation: Conversation, through_position: u64 },
    AlreadyClosing(Conversation),
    EscalatedToCancel(Conversation),
    Terminal(Conversation),
}

/// The mathematical content of [`ConversationCloseAdmission`].
#[verifier::ext_equal]
pub enum ConversationCloseAdmissionView {
    ClosedNow { conversation: ConversationView, through_position: u64 },
    AlreadyClosing(ConversationView),
    EscalatedToCancel(ConversationView),
    Terminal(ConversationView),
}

impl View for ConversationCloseAdmission {
    type V = ConversationCloseAdmissionView;

    open spec fn view(&self) -> ConversationCloseAdmissionView {
        match *self {
            ConversationCloseAdmission::ClosedNow { conversation, through_position } => ConversationCloseAdmissionView::ClosedNow {
                conversation: conversation@,
                through_position,
            },
            ConversationCloseAdmission::AlreadyClosing(value) => ConversationCloseAdmissionView::AlreadyClosing(value@),
            ConversationCloseAdmission::EscalatedToCancel(value) => ConversationCloseAdmissionView::EscalatedToCancel(value@),
            ConversationCloseAdmission::Terminal(value) => ConversationCloseAdmissionView::Terminal(value@),
        }
    }
}

impl Clone for ConversationCloseAdmission {
    fn clone(&self) -> (copy: Self)
        ensures
            copy@ == self@,
    {
        match self {
            ConversationCloseAdmission::ClosedNow { conversation, through_position } => ConversationCloseAdmission::ClosedNow {
                conversation: conversation.clone(),
                through_position: *through_position,
            },
            ConversationCloseAdmission::AlreadyClosing(value) => ConversationCloseAdmission::AlreadyClosing(value.clone()),
            ConversationCloseAdmission::EscalatedToCancel(value) => ConversationCloseAdmission::EscalatedToCancel(value.clone()),
            ConversationCloseAdmission::Terminal(value) => ConversationCloseAdmission::Terminal(value.clone()),
        }
    }
}

/// What one provider-neutral diagnostic says.
#[derive(Clone, Copy, Debug, PartialEq, Eq, Structural)]
pub enum OperationDiagnosticPayload {
    ProviderRetrying { attempt: u64, max_retries: u64, retry_delay_ms: u64 },
    AuthenticationFailed,
    DiagnosticUnclassified,
}

impl OperationDiagnosticPayload {
    /// Whether a retry is numbered from one and within its own maximum.
    pub open spec fn is_valid(self) -> bool {
        match self {
            OperationDiagnosticPayload::ProviderRetrying { attempt, max_retries, .. } => 0 < attempt
                <= max_retries,
            OperationDiagnosticPayload::AuthenticationFailed => true,
            OperationDiagnosticPayload::DiagnosticUnclassified => true,
        }
    }

    pub fn validate(&self) -> (valid: Result<(), OperatorError>)
        ensures
            match valid {
                Ok(()) => self.is_valid(),
                Err(error) => !self.is_valid() && error@ == invalid_request(
                    "provider retry attempt must be within its positive maximum"@,
                ),
            },
    {
        match self {
            OperationDiagnosticPayload::ProviderRetrying { attempt, max_retries, .. } => {
                if *attempt == 0 || *attempt > *max_retries {
                    return Err(
                        OperatorError::InvalidRequest(
                            "provider retry attempt must be within its positive maximum".to_owned(),
                        ),
                    );
                }
            },
            OperationDiagnosticPayload::AuthenticationFailed => {},
            OperationDiagnosticPayload::DiagnosticUnclassified => {},
        }
        Ok(())
    }
}

/// One diagnostic of the ordered record of a one-shot operation.
#[derive(Clone, Copy, Debug, PartialEq, Eq, Structural)]
pub struct OperationDiagnostic {
    pub operation_id: OperationId,
    pub diagnostic_sequence: u64,
    pub payload: OperationDiagnosticPayload,
}

impl View for OperationDiagnostic {
    type V = OperationDiagnostic;

    open spec fn view(&self) -> OperationDiagnostic {
        *self
    }
}

/// An operation with its diagnostics after a cursor.
#[derive(Debug, PartialEq, Eq)]
pub struct OperationDiagnostics {
    pub operation: Operation,
    pub diagnostics: Vec<OperationDiagnostic>,
}

/// The mathematical content of [`OperationDiagnostics`].
#[verifier::ext_equal]
pub struct OperationDiagnosticsView {
    pub operation: OperationView,
    pub diagnostics: Seq<OperationDiagnostic>,
}

impl View for OperationDiagnostics {
    type V = OperationDiagnosticsView;

    open spec fn view(&self) -> OperationDiagnosticsView {
        OperationDiagnosticsView {
            operation: self.operation@,
            diagnostics: self.diagnostics@,
        }
    }
}

impl Clone for OperationDiagnostics {
    fn clone(&self) -> (copy: Self)
        ensures
            copy@ == self@,
    {
        OperationDiagnostics {
            operation: self.operation.clone(),
            diagnostics: self.diagnostics.clone(),
        }
    }
}

/// A read of the durable diagnostics after a cursor.
#[derive(Clone, Copy, Debug, PartialEq, Eq, Structural)]
pub struct OperationDiagnosticsRequest {
    pub operation_id: OperationId,
    pub after_diagnostic_sequence: u64,
    pub wait_millis: u64,
}

impl OperationDiagnosticsRequest {
    /// Refuses a cursor beyond the durable range.
    pub fn validate(&self) -> (valid: Result<(), OperatorError>)
        ensures
            match valid {
                Ok(()) => durable_range(self.after_diagnostic_sequence),
                Err(error) => !durable_range(self.after_diagnostic_sequence) && error@ == invalid_request(
                    "diagnostic cursor exceeds the supported durable range"@,
                ),
            },
    {
        if self.after_diagnostic_sequence > i64::MAX as u64 {
            return Err(
                OperatorError::InvalidRequest(
                    "diagnostic cursor exceeds the supported durable range".to_owned(),
                ),
            );
        }
        Ok(())
    }
}

/// One request to the daemon.
#[derive(Debug, PartialEq, Eq)]
pub enum DaemonRequest {
    ProjectRegister(ProjectRegistration),
    ProjectGet { project_id: ProjectId },
    ProjectList,
    OperationStart(OperationStart),
    OperationGet { operation_id: OperationId },
    OperationWait { operation_id: OperationId, wait_millis: u64 },
    OperationCancel { operation_id: OperationId },
    OperationDiagnostics(OperationDiagnosticsRequest),
    ConversationStart(ConversationStart),
    ConversationSend(ConversationSend),
    ConversationWait(ConversationWait),
    ConversationStop { conversation_id: ConversationId, mode: ConversationStopMode },
    SessionInventory(SessionInventoryRequest),
    SessionInspect(SessionInspectRequest),
    InitiatorBindingRegister(InitiatorBindingRequest),
    SessionDecide(SessionDecisionRequest),
}

/// The mathematical content of [`DaemonRequest`].
#[verifier::ext_equal]
pub enum DaemonRequestView {
    ProjectRegister(ProjectRegistrationView),
    ProjectGet { project_id: Seq<char> },
    ProjectList,
    OperationStart(OperationStartView),
    OperationGet { operation_id: OperationId },
    OperationWait { operation_id: OperationId, wait_millis: u64 },
    OperationCancel { operation_id: OperationId },
    OperationDiagnostics(OperationDiagnosticsRequest),
    ConversationStart(ConversationStartView),
    ConversationSend(ConversationSendView),
    ConversationWait(ConversationWait),
    ConversationStop { conversation_id: ConversationId, mode: ConversationStopMode },
    SessionInventory(SessionInventoryRequestView),
    SessionInspect(SessionInspectRequestView),
    InitiatorBindingRegister(InitiatorBindingRequestView),
    SessionDecide(SessionDecisionRequestView),
}

impl View for DaemonRequest {
    type V = DaemonRequestView;

    open spec fn view(&self) -> DaemonRequestView {
        match *self {
            DaemonRequest::ProjectRegister(value) => DaemonRequestView::ProjectRegister(value@),
            DaemonRequest::ProjectGet { project_id } => DaemonRequestView::ProjectGet {
                project_id: project_id@,
            },
            DaemonRequest::ProjectList => DaemonRequestView::ProjectList,
            DaemonRequest::OperationStart(value) => DaemonRequestView::OperationStart(value@),
            DaemonRequest::OperationGet { operation_id } => DaemonRequestView::OperationGet {
                operation_id,
            },
            DaemonRequest::OperationWait { operation_id, wait_millis } => DaemonRequestView::OperationWait {
                operation_id,
                wait_millis,
            },
            DaemonRequest::OperationCancel { operation_id } => DaemonRequestView::OperationCancel {
                operation_id,
            },
            DaemonRequest::OperationDiagnostics(value) => DaemonRequestView::OperationDiagnostics(value),
            DaemonRequest::ConversationStart(value) => DaemonRequestView::ConversationStart(value@),
            DaemonRequest::ConversationSend(value) => DaemonRequestView::ConversationSend(value@),
            DaemonRequest::ConversationWait(value) => DaemonRequestView::ConversationWait(value),
            DaemonRequest::ConversationStop { conversation_id, mode } => DaemonRequestView::ConversationStop {
                conversation_id,
                mode,
            },
            DaemonRequest::SessionInventory(value) => DaemonRequestView::SessionInventory(value@),
            DaemonRequest::SessionInspect(value) => DaemonRequestView::SessionInspect(value@),
            DaemonRequest::InitiatorBindingRegister(value) => DaemonRequestView::InitiatorBindingRegister(value@),
            DaemonRequest::SessionDecide(value) => DaemonRequestView::SessionDecide(value@),
        }
    }
}

impl Clone for DaemonRequest {
    fn clone(&self) -> (copy: Self)
        ensures
            copy@ == self@,
    {
        match self {
            DaemonRequest::ProjectRegister(value) => DaemonRequest::ProjectRegister(value.clone()),
            DaemonRequest::ProjectGet { project_id } => DaemonRequest::ProjectGet {
                project_id: project_id.clone(),
            },
            DaemonRequest::ProjectList => DaemonRequest::ProjectList,
            DaemonRequest::OperationStart(value) => DaemonRequest::OperationStart(value.clone()),
            DaemonRequest::OperationGet { operation_id } => DaemonRequest::OperationGet {
                operation_id: *operation_id,
            },
            DaemonRequest::OperationWait { operation_id, wait_millis } => DaemonRequest::OperationWait {
                operation_id: *operation_id,
                wait_millis: *wait_millis,
            },
            DaemonRequest::OperationCancel { operation_id } => DaemonRequest::OperationCancel {
                operation_id: *operation_id,
            },
            DaemonRequest::OperationDiagnostics(value) => DaemonRequest::OperationDiagnostics(*value),
            DaemonRequest::ConversationStart(value) => DaemonRequest::ConversationStart(value.clone()),
            DaemonRequest::ConversationSend(value) => DaemonRequest::ConversationSend(value.clone()),
            DaemonRequest::ConversationWait(value) => DaemonRequest::ConversationWait(*value),
            DaemonRequest::ConversationStop { conversation_id, mode } => DaemonRequest::ConversationStop {
                conversation_id: *conversation_id,
                mode: *mode,
            },
            DaemonRequest::SessionInventory(value) => DaemonRequest::SessionInventory(value.clone()),
            DaemonRequest::SessionInspect(value) => DaemonRequest::SessionInspect(value.clone()),
            DaemonRequest::InitiatorBindingRegister(value) => DaemonRequest::InitiatorBindingRegister(value.clone()),
            DaemonRequest::SessionDecide(value) => DaemonRequest::SessionDecide(value.clone()),
        }
    }
}

/// One successful answer of the daemon.
#[derive(Debug, PartialEq, Eq)]
pub enum DaemonResponse {
    Project(ProjectRegistration),
    Projects(Vec<ProjectRegistration>),
    Operation(Operation),
    OperationDiagnostics(OperationDiagnostics),
    Conversation(ConversationSnapshot),
    SessionInventory(Vec<SessionEvidence>),
    SessionEvidence(Vec<SessionEvidence>),
    BindingRegistration(BindingRegistration),
    SessionDecision(SessionDecision),
}

/// The mathematical content of [`DaemonResponse`].
#[verifier::ext_equal]
pub enum DaemonResponseView {
    Project(ProjectRegistrationView),
    Projects(Seq<ProjectRegistrationView>),
    Operation(OperationView),
    OperationDiagnostics(OperationDiagnosticsView),
    Conversation(ConversationSnapshotView),
    SessionInventory(Seq<SessionEvidenceView>),
    SessionEvidence(Seq<SessionEvidenceView>),
    BindingRegistration(BindingRegistrationView),
    SessionDecision(SessionDecisionView),
}

impl View for DaemonResponse {
    type V = DaemonResponseView;

    open spec fn view(&self) -> DaemonResponseView {
        match *self {
            DaemonResponse::Project(value) => DaemonResponseView::Project(value@),
            DaemonResponse::Projects(value) => DaemonResponseView::Projects(views(value@)),
            DaemonResponse::Operation(value) => DaemonResponseView::Operation(value@),
            DaemonResponse::OperationDiagnostics(value) => DaemonResponseView::OperationDiagnostics(value@),
            DaemonResponse::Conversation(value) => DaemonResponseView::Conversation(value@),
            DaemonResponse::SessionInventory(value) => DaemonResponseView::SessionInventory(views(value@)),
            DaemonResponse::SessionEvidence(value) => DaemonResponseView::SessionEvidence(views(value@)),
            DaemonResponse::BindingRegistration(value) => DaemonResponseView::BindingRegistration(value@),
            DaemonResponse::SessionDecision(value) => DaemonResponseView::SessionDecision(value@),
        }
    }
}

impl Clone for DaemonResponse {
    fn clone(&self) -> (copy: Self)
        ensures
            copy@ == self@,
    {
        match self {
            DaemonResponse::Project(value) => DaemonResponse::Project(value.clone()),
            DaemonResponse::Projects(value) => {
                let copied = value.clone();
                proof {
                    assert(views(copied@) =~= views(value@));
                }
                DaemonResponse::Projects(copied)
            },
            DaemonResponse::Operation(value) => DaemonResponse::Operation(value.clone()),
            DaemonResponse::OperationDiagnostics(value) => DaemonResponse::OperationDiagnostics(value.clone()),
            DaemonResponse::Conversation(value) => DaemonResponse::Conversation(value.clone()),
            DaemonResponse::SessionInventory(value) => {
                let copied = value.clone();
                proof {
                    assert(views(copied@) =~= views(value@));
                }
                DaemonResponse::SessionInventory(copied)
            },
            DaemonResponse::SessionEvidence(value) => {
                let copied = value.clone();
                proof {
                    assert(views(copied@) =~= views(value@));
                }
                DaemonResponse::SessionEvidence(copied)
            },
            DaemonResponse::BindingRegistration(value) => DaemonResponse::BindingRegistration(value.clone()),
            DaemonResponse::SessionDecision(value) => DaemonResponse::SessionDecision(value.clone()),
        }
    }
}

/// Why the operator refused or failed, with the cause in words.
#[derive(Debug, PartialEq, Eq)]
pub enum OperatorError {
    InvalidRequest(String),
    UnknownProject(String),
    UnknownOperation(String),
    Conflict(String),
    UnclassifiedSession(String),
    TransportUnavailable(String),
    ExecutionFailed(String),
    Indeterminate(String),
    State(String),
    Protocol(String),
    DiagnosticsUnavailable(String),
    UnknownSession { project_id: ProjectId, target_session_id: SessionId },
    BindingConflict { existing_target_session_id: SessionId, requested_target_session_id: SessionId },
    BoundSessionEvidenceMissing { binding: Box<InitiatorBinding>, target_session_id: SessionId },
}

/// The mathematical content of [`OperatorError`].
#[verifier::ext_equal]
pub enum OperatorErrorView {
    InvalidRequest(Seq<char>),
    UnknownProject(Seq<char>),
    UnknownOperation(Seq<char>),
    Conflict(Seq<char>),
    UnclassifiedSession(Seq<char>),
    TransportUnavailable(Seq<char>),
    ExecutionFailed(Seq<char>),
    Indeterminate(Seq<char>),
    State(Seq<char>),
    Protocol(Seq<char>),
    DiagnosticsUnavailable(Seq<char>),
    UnknownSession { project_id: Seq<char>, target_session_id: SessionId },
    BindingConflict { existing_target_session_id: SessionId, requested_target_session_id: SessionId },
    BoundSessionEvidenceMissing { binding: InitiatorBindingView, target_session_id: SessionId },
}

impl View for OperatorError {
    type V = OperatorErrorView;

    open spec fn view(&self) -> OperatorErrorView {
        match *self {
            OperatorError::InvalidRequest(value) => OperatorErrorView::InvalidRequest(value@),
            OperatorError::UnknownProject(value) => OperatorErrorView::UnknownProject(value@),
            OperatorError::UnknownOperation(value) => OperatorErrorView::UnknownOperation(value@),
            OperatorError::Conflict(value) => OperatorErrorView::Conflict(value@),
            OperatorError::UnclassifiedSession(value) => OperatorErrorView::UnclassifiedSession(value@),
            OperatorError::TransportUnavailable(value) => OperatorErrorView::TransportUnavailable(value@),
            OperatorError::ExecutionFailed(value) => OperatorErrorView::ExecutionFailed(value@),
            OperatorError::Indeterminate(value) => OperatorErrorView::Indeterminate(value@),
            OperatorError::State(value) => OperatorErrorView::State(value@),
            OperatorError::Protocol(value) => OperatorErrorView::Protocol(value@),
            OperatorError::DiagnosticsUnavailable(value) => OperatorErrorView::DiagnosticsUnavailable(value@),
            OperatorError::UnknownSession { project_id, target_session_id } => OperatorErrorView::UnknownSession {
                project_id: project_id@,
                target_session_id,
            },
            OperatorError::BindingConflict { existing_target_session_id, requested_target_session_id } => OperatorErrorView::BindingConflict {
                existing_target_session_id,
                requested_target_session_id,
            },
            OperatorError::BoundSessionEvidenceMissing { binding, target_session_id } => OperatorErrorView::BoundSessionEvidenceMissing {
                binding: (*binding)@,
                target_session_id,
            },
        }
    }
}

impl Clone for OperatorError {
    fn clone(&self) -> (copy: Self)
        ensures
            copy@ == self@,
    {
        match self {
            OperatorError::InvalidRequest(value) => OperatorError::InvalidRequest(value.clone()),
            OperatorError::UnknownProject(value) => OperatorError::UnknownProject(value.clone()),
            OperatorError::UnknownOperation(value) => OperatorError::UnknownOperation(value.clone()),
            OperatorError::Conflict(value) => OperatorError::Conflict(value.clone()),
            OperatorError::UnclassifiedSession(value) => OperatorError::UnclassifiedSession(value.clone()),
            OperatorError::TransportUnavailable(value) => OperatorError::TransportUnavailable(value.clone()),
            OperatorError::ExecutionFailed(value) => OperatorError::ExecutionFailed(value.clone()),
            OperatorError::Indeterminate(value) => OperatorError::Indeterminate(value.clone()),
            OperatorError::State(value) => OperatorError::State(value.clone()),
            OperatorError::Protocol(value) => OperatorError::Protocol(value.clone()),
            OperatorError::DiagnosticsUnavailable(value) => OperatorError::DiagnosticsUnavailable(value.clone()),
            OperatorError::UnknownSession { project_id, target_session_id } => OperatorError::UnknownSession {
                project_id: project_id.clone(),
                target_session_id: *target_session_id,
            },
            OperatorError::BindingConflict { existing_target_session_id, requested_target_session_id } => OperatorError::BindingConflict {
                existing_target_session_id: *existing_target_session_id,
                requested_target_session_id: *requested_target_session_id,
            },
            OperatorError::BoundSessionEvidenceMissing { binding, target_session_id } => OperatorError::BoundSessionEvidenceMissing {
                binding: Box::new((**binding).clone()),
                target_session_id: *target_session_id,
            },
        }
    }
}

/// A refused request, with its reason.
pub open spec fn invalid_request(message: Seq<char>) -> OperatorErrorView {
    OperatorErrorView::InvalidRequest(message)
}

/// A conflict with what is already durable.
pub open spec fn conflict(message: Seq<char>) -> OperatorErrorView {
    OperatorErrorView::Conflict(message)
}

/// A failure of durable state.
pub open spec fn state_failure(message: Seq<char>) -> OperatorErrorView {
    OperatorErrorView::State(message)
}

impl OperatorErrorView {
    /// The error in words.
    pub open spec fn text(self) -> Seq<char> {
        match self {
            OperatorErrorView::InvalidRequest(message) => "invalid request: "@ + message,
            OperatorErrorView::UnknownProject(message) => "project is unknown: "@ + message,
            OperatorErrorView::UnknownOperation(message) => "operation is unknown: "@ + message,
            OperatorErrorView::Conflict(message) => "conflict: "@ + message,
            OperatorErrorView::UnclassifiedSession(message) => "session cannot be classified after daemon restart: "@ + message,
            OperatorErrorView::TransportUnavailable(message) => "daemon transport is unavailable: "@ + message,
            OperatorErrorView::ExecutionFailed(message) => "target execution failed: "@ + message,
            OperatorErrorView::Indeterminate(message) => "operation outcome is indeterminate: "@ + message,
            OperatorErrorView::State(message) => "state failure: "@ + message,
            OperatorErrorView::Protocol(message) => "protocol failure: "@ + message,
            OperatorErrorView::DiagnosticsUnavailable(message) => "operation diagnostics are unavailable: "@ + message,
            OperatorErrorView::UnknownSession { project_id, target_session_id } =>
                "target session is unknown in project "@ + project_id + ": "@ + uuid_text(
                    target_session_id.0,
                ),
            OperatorErrorView::BindingConflict {
                existing_target_session_id,
                requested_target_session_id,
            } => "initiator binding conflicts: existing target session "@ + uuid_text(
                existing_target_session_id.0,
            ) + ", requested "@ + uuid_text(requested_target_session_id.0),
            OperatorErrorView::BoundSessionEvidenceMissing { target_session_id, .. } =>
                "bound target session "@ + uuid_text(target_session_id.0)
                    + " has no qualifying operator evidence"@,
        }
    }
}

impl OperatorError {
    /// The error in words.
    pub fn to_text(&self) -> (text: String)
        ensures
            text@ == self@.text(),
    {
        match self {
            OperatorError::InvalidRequest(message) => joined("invalid request: ", message.as_str()),
            OperatorError::UnknownProject(message) => joined("project is unknown: ", message.as_str()),
            OperatorError::UnknownOperation(message) => joined("operation is unknown: ", message.as_str()),
            OperatorError::Conflict(message) => joined("conflict: ", message.as_str()),
            OperatorError::UnclassifiedSession(message) => joined("session cannot be classified after daemon restart: ", message.as_str()),
            OperatorError::TransportUnavailable(message) => joined("daemon transport is unavailable: ", message.as_str()),
            OperatorError::ExecutionFailed(message) => joined("target execution failed: ", message.as_str()),
            OperatorError::Indeterminate(message) => joined("operation outcome is indeterminate: ", message.as_str()),
            OperatorError::State(message) => joined("state failure: ", message.as_str()),
            OperatorError::Protocol(message) => joined("protocol failure: ", message.as_str()),
            OperatorError::DiagnosticsUnavailable(message) => joined("operation diagnostics are unavailable: ", message.as_str()),
            OperatorError::UnknownSession { project_id, target_session_id } => {
                let mut text = joined(
                    "target session is unknown in project ",
                    project_id.as_str(),
                );
                text.append(": ");
                text.append(display_uuid(target_session_id.0).as_str());
                text
            },
            OperatorError::BindingConflict {
                existing_target_session_id,
                requested_target_session_id,
            } => {
                let mut text = joined(
                    "initiator binding conflicts: existing target session ",
                    display_uuid(existing_target_session_id.0).as_str(),
                );
                text.append(", requested ");
                text.append(display_uuid(requested_target_session_id.0).as_str());
                text
            },
            OperatorError::BoundSessionEvidenceMissing { target_session_id, .. } => {
                let mut text = joined(
                    "bound target session ",
                    display_uuid(target_session_id.0).as_str(),
                );
                text.append(" has no qualifying operator evidence");
                text
            },
        }
    }
}

/// What the daemon sends back: one answer, or why there is none.
#[derive(Debug, PartialEq, Eq)]
pub struct DaemonEnvelope {
    pub result: Result<DaemonResponse, OperatorError>,
}

} // verus!
