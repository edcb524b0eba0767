//! Identities, and what a request must hold before it is looked at.

use aiop::contract::control::{
    ConversationSend, ConversationStart, ConversationState, ConversationWait, InitiatorBinding,
    InitiatorIdentity, OperationDiagnosticPayload, OperationDiagnosticsRequest, OperationIntent,
    OperationStart, OperationState, OperatorError, ProjectRegistration, ReviewProfile, TurnState,
};
use aiop::contract::identity::{
    ConversationId, InitiatorAgentIdentity, InitiatorSessionIdentity, OperationId, ProjectId,
    RequestId, RoleIdentity, SessionId, SubjectIdentity, TaskIdentity, TurnId,
};

const TEXT: &str = "0123abcd-4567-4890-8abc-def012345678";
const VALUE: u128 = 0x0123_abcd_4567_4890_8abc_def0_1234_5678;

#[test]
fn identities_carry_their_values() {
    assert_eq!(RequestId::new(VALUE).value(), VALUE);
    assert_eq!(TurnId::new(VALUE).value(), VALUE);
    assert_eq!(OperationId::new_exact(VALUE).value(), VALUE);
    assert_eq!(SessionId::new_exact(VALUE).value(), VALUE);
    let operation = OperationId::new_exact(VALUE);
    assert_eq!(ConversationId::new(operation).operation_id(), operation);
}

#[test]
fn identities_are_written_in_hyphenated_lower_case() {
    assert_eq!(OperationId::new_exact(VALUE).to_text(), TEXT);
    assert_eq!(SessionId::new_exact(VALUE).to_text(), TEXT);
    assert_eq!(SessionId::new_exact(0).to_text(), "00000000-0000-0000-0000-000000000000");
    assert_eq!(
        SessionId::new_exact(u128::MAX).to_text(),
        "ffffffff-ffff-ffff-ffff-ffffffffffff"
    );
}

#[test]
fn fresh_identities_have_the_random_layout() {
    for value in [
        OperationId::new().value(),
        SessionId::new().value(),
        OperationId::default().value(),
        SessionId::default().value(),
    ] {
        assert_eq!((value >> 76) & 0xf, 4);
        assert_eq!((value >> 62) & 0x3, 2);
    }
    assert_ne!(OperationId::new(), OperationId::new());
}

#[test]
fn empty_identities_are_refused_by_name() {
    assert_eq!(ProjectId::new("project".to_owned()).expect("named").as_str(), "project");
    assert_eq!(
        ProjectId::new(String::new()),
        Err(OperatorError::InvalidRequest("project_id must not be empty".to_owned()))
    );
    let refused = |name: &str| {
        OperatorError::InvalidRequest(format!("{name} must not be empty"))
    };
    assert_eq!(
        InitiatorSessionIdentity::new(String::new()).err(),
        Some(refused("initiator_session_id"))
    );
    assert_eq!(
        InitiatorAgentIdentity::new(String::new()).err(),
        Some(refused("initiator_agent_id"))
    );
    assert_eq!(RoleIdentity::new(String::new()).err(), Some(refused("role_id")));
    assert_eq!(TaskIdentity::new(String::new()).err(), Some(refused("task_id")));
    assert_eq!(SubjectIdentity::new(String::new()).err(), Some(refused("subject_id")));
    let role = RoleIdentity::new(" ".to_owned()).expect("a space is a name");
    assert_eq!(role.as_str(), " ");
    assert!(role.same(&RoleIdentity::new(" ".to_owned()).expect("named")));
}

fn project() -> ProjectRegistration {
    ProjectRegistration {
        project_id: ProjectId::new("project".to_owned()).expect("named"),
        working_directory: "/workspace".to_owned(),
        claude_executable: "target".to_owned(),
        expected_opus_model: "opus".to_owned(),
    }
}

fn invalid(message: &str) -> Result<(), OperatorError> {
    Err(OperatorError::InvalidRequest(message.to_owned()))
}

#[test]
fn a_registration_names_its_model_and_its_paths() {
    assert_eq!(project().validate(), Ok(()));
    let mut other = project();
    other.expected_opus_model = String::new();
    assert_eq!(other.validate(), invalid("expected_opus_model must not be empty"));
    let mut other = project();
    other.working_directory = String::new();
    assert_eq!(other.validate(), invalid("project paths must not be empty"));
    let mut other = project();
    other.claude_executable = String::new();
    assert_eq!(other.validate(), invalid("project paths must not be empty"));
    assert!(project().same(&project()));
    assert!(!project().same(&other));
}

#[test]
fn requests_without_a_prompt_are_refused() {
    let start = OperationStart {
        request_id: RequestId::new(1),
        project_id: project().project_id,
        intent: OperationIntent::New,
        prompt: String::new(),
        review_profile: ReviewProfile::OpusReadOnly,
    };
    assert_eq!(start.validate(), invalid("prompt must not be empty"));
    let start = ConversationStart {
        request_id: RequestId::new(1),
        project_id: project().project_id,
        intent: OperationIntent::New,
        turn_id: TurnId::new(1),
        prompt: String::new(),
        review_profile: ReviewProfile::OpusReadOnly,
    };
    assert_eq!(start.validate(), invalid("prompt must not be empty"));
    let send = ConversationSend {
        conversation_id: ConversationId::new(OperationId::new_exact(1)),
        turn_id: TurnId::new(1),
        prompt: String::new(),
    };
    assert_eq!(send.validate(), invalid("prompt must not be empty"));
}

#[test]
fn cursors_stay_in_the_durable_range() {
    let highest = i64::MAX as u64;
    let wait = |after_sequence: u64| ConversationWait {
        conversation_id: ConversationId::new(OperationId::new_exact(1)),
        after_sequence,
        wait_millis: 0,
    };
    assert_eq!(wait(highest).validate(), Ok(()));
    assert_eq!(
        wait(highest + 1).validate(),
        invalid("conversation cursor exceeds the supported durable range")
    );
    let read = |after_diagnostic_sequence: u64| OperationDiagnosticsRequest {
        operation_id: OperationId::new_exact(1),
        after_diagnostic_sequence,
        wait_millis: 0,
    };
    assert_eq!(read(highest).validate(), Ok(()));
    assert_eq!(
        read(highest + 1).validate(),
        invalid("diagnostic cursor exceeds the supported durable range")
    );
}

#[test]
fn a_retry_is_within_its_positive_maximum() {
    let retry = |attempt: u64, max_retries: u64| OperationDiagnosticPayload::ProviderRetrying {
        attempt,
        max_retries,
        retry_delay_ms: 0,
    };
    assert_eq!(retry(1, 1).validate(), Ok(()));
    assert_eq!(retry(2, 2).validate(), Ok(()));
    for refused in [retry(0, 2), retry(3, 2), retry(0, 0), retry(1, 0)] {
        assert!(refused.validate().is_err());
    }
    assert_eq!(OperationDiagnosticPayload::AuthenticationFailed.validate(), Ok(()));
    assert_eq!(OperationDiagnosticPayload::DiagnosticUnclassified.validate(), Ok(()));
}

#[test]
fn only_ends_are_terminal() {
    assert!(!OperationState::Accepted.terminal());
    assert!(!OperationState::Running.terminal());
    assert!(OperationState::Succeeded.terminal());
    assert!(OperationState::Failed.terminal());
    assert!(OperationState::Cancelled.terminal());
    assert!(OperationState::Indeterminate.terminal());
    assert!(!ConversationState::Open.terminal());
    assert!(!ConversationState::Closing.terminal());
    assert!(ConversationState::Succeeded.terminal());
    assert!(!TurnState::Queued.terminal());
    assert!(!TurnState::Started.terminal());
    assert!(TurnState::Discarded.terminal());
}

#[test]
fn errors_tell_what_was_refused() {
    let message = || "why".to_owned();
    let session = SessionId::new_exact(VALUE);
    let other = SessionId::new_exact(0);
    let binding = InitiatorBinding {
        project_id: project().project_id,
        identity: InitiatorIdentity {
            initiator_session_id: InitiatorSessionIdentity::new("s".to_owned()).expect("named"),
            initiator_agent_id: InitiatorAgentIdentity::new("a".to_owned()).expect("named"),
            role_id: RoleIdentity::new("r".to_owned()).expect("named"),
            task_id: TaskIdentity::new("t".to_owned()).expect("named"),
            subject_id: SubjectIdentity::new("u".to_owned()).expect("named"),
        },
        target_session_id: session,
    };
    for (error, text) in [
        (OperatorError::InvalidRequest(message()), "invalid request: why"),
        (OperatorError::UnknownProject(message()), "project is unknown: why"),
        (OperatorError::UnknownOperation(message()), "operation is unknown: why"),
        (OperatorError::Conflict(message()), "conflict: why"),
        (
            OperatorError::UnclassifiedSession(message()),
            "session cannot be classified after daemon restart: why",
        ),
        (
            OperatorError::TransportUnavailable(message()),
            "daemon transport is unavailable: why",
        ),
        (OperatorError::ExecutionFailed(message()), "target execution failed: why"),
        (OperatorError::Indeterminate(message()), "operation outcome is indeterminate: why"),
        (OperatorError::State(message()), "state failure: why"),
        (OperatorError::Protocol(message()), "protocol failure: why"),
        (
            OperatorError::DiagnosticsUnavailable(message()),
            "operation diagnostics are unavailable: why",
        ),
        (
            OperatorError::UnknownSession {
                project_id: project().project_id,
                target_session_id: session,
            },
            "target session is unknown in project project: 0123abcd-4567-4890-8abc-def012345678",
        ),
        (
            OperatorError::BindingConflict {
                existing_target_session_id: session,
                requested_target_session_id: other,
            },
            "initiator binding conflicts: existing target session \
             0123abcd-4567-4890-8abc-def012345678, requested \
             00000000-0000-0000-0000-000000000000",
        ),
        (
            OperatorError::BoundSessionEvidenceMissing {
                binding: Box::new(binding),
                target_session_id: session,
            },
            "bound target session 0123abcd-4567-4890-8abc-def012345678 has no qualifying \
             operator evidence",
        ),
    ] {
        assert_eq!(error.to_text(), text);
    }
}
