//! The tools of the gateway and the requests that they make.

use aiop::contract::control::{
    ConversationStopMode, DaemonEnvelope, DaemonRequest, DaemonResponse, OperationDiagnosticsRequest,
    OperationIntent, OperatorError, SessionContinuity,
};
use aiop::contract::identity::{ConversationId, OperationId, ProjectId, SessionId, TurnId};
use aiop::contract::target::PROVIDER;
use aiop::control::ingress::{read_request, serving_failure, Arrival, ServingFailure};
use aiop::gateway::client::{call, Exchange};
use aiop::gateway::error::GatewayError;
use aiop::gateway::mcp::{
    dispatch, empty, parse_uuid, tool_named, tools, undecoded, uuid_or_refusal,
    ConversationSendInput, ConversationStartInput, ConversationStopInput, ConversationWaitInput,
    McpConversationStopMode, McpGateway, McpIntent, McpReviewProfile, OperationCancelInput,
    OperationDiagnosticsInput, OperationGetInput, OperationStartInput, OperationWaitInput,
    ProjectGetInput, ProjectRegisterInput, ToolCall, ToolKind,
};
use aiop::gateway::session::{
    InitiatorBindingRegisterInput, McpSessionContinuity, SessionDecideInput, SessionInspectInput,
    SessionInventoryInput,
};

const UUID: &str = "0123abcd-4567-4890-8abc-def012345678";
const VALUE: u128 = 0x0123_abcd_4567_4890_8abc_def0_1234_5678;

fn refused(call: ToolCall) -> String {
    match dispatch(call) {
        Err(GatewayError::InvalidArguments { message }) => message,
        other => panic!("the arguments are invalid: {other:?}"),
    }
}

#[test]
fn every_tool_answers_to_its_own_name() {
    let listed = tools();
    assert_eq!(listed.len(), 16);
    for tool in listed {
        assert_eq!(tool_named(tool.name()), Ok(tool));
        assert!(!tool.description().is_empty());
    }
    assert_eq!(
        ToolKind::ConversationStart.description(),
        format!("Start one persistent structured {PROVIDER} conversation.")
    );
    assert_eq!(tool_named("operation_diagnostics"), Ok(ToolKind::OperationDiagnostics));
    assert!(tool_named("unknown").is_err());
}

#[test]
fn identities_are_read_from_their_text() {
    assert_eq!(parse_uuid(UUID, "operation_id"), Ok(VALUE));
    assert_eq!(parse_uuid("0123ABCD456748908ABCDEF012345678", "operation_id"), Ok(VALUE));
    match parse_uuid("no uuid", "operation_id") {
        Err(GatewayError::InvalidArguments { message }) => {
            assert!(message.starts_with("operation_id was not a UUID: "));
        }
        other => panic!("the text is not a UUID: {other:?}"),
    }
    assert_eq!(
        uuid_or_refusal(Err("why".to_owned()), "turn_id"),
        Err(GatewayError::invalid("turn_id was not a UUID: why".to_owned()))
    );
}

#[test]
fn project_tools_make_their_requests() {
    let request = dispatch(ToolCall::ProjectRegister(ProjectRegisterInput {
        project_id: "project".to_owned(),
        working_directory: "/workspace".to_owned(),
        claude_executable: "target".to_owned(),
        expected_opus_model: "opus".to_owned(),
    }));
    match request {
        Ok(DaemonRequest::ProjectRegister(project)) => {
            assert_eq!(project.project_id.as_str(), "project");
            assert_eq!(project.working_directory, "/workspace");
            assert_eq!(project.claude_executable, "target");
            assert_eq!(project.expected_opus_model, "opus");
        }
        other => panic!("a registration was asked for: {other:?}"),
    }
    assert_eq!(
        refused(ToolCall::ProjectGet(ProjectGetInput { project_id: String::new() })),
        "invalid request: project_id must not be empty"
    );
    assert_eq!(
        dispatch(ToolCall::ProjectList { arguments: None }),
        Ok(DaemonRequest::ProjectList)
    );
    assert_eq!(
        dispatch(ToolCall::ProjectList { arguments: Some(0) }),
        Ok(DaemonRequest::ProjectList)
    );
    assert_eq!(
        refused(ToolCall::ProjectList { arguments: Some(1) }),
        "project_list does not accept arguments"
    );
    assert_eq!(empty(Some(0)), Ok(()));
}

#[test]
fn operation_tools_make_their_requests() {
    let operation_id = OperationId::new_exact(VALUE);
    assert_eq!(
        dispatch(ToolCall::OperationGet(OperationGetInput { operation_id: UUID.to_owned() })),
        Ok(DaemonRequest::OperationGet { operation_id })
    );
    assert_eq!(
        dispatch(ToolCall::OperationWait(OperationWaitInput {
            operation_id: UUID.to_owned(),
            wait_millis: 5,
        })),
        Ok(DaemonRequest::OperationWait { operation_id, wait_millis: 5 })
    );
    assert_eq!(
        dispatch(ToolCall::OperationCancel(OperationCancelInput {
            operation_id: UUID.to_owned(),
        })),
        Ok(DaemonRequest::OperationCancel { operation_id })
    );
    assert_eq!(
        dispatch(ToolCall::OperationDiagnostics(OperationDiagnosticsInput {
            operation_id: UUID.to_owned(),
            after_diagnostic_sequence: 3,
            wait_millis: 4,
        })),
        Ok(DaemonRequest::OperationDiagnostics(OperationDiagnosticsRequest {
            operation_id,
            after_diagnostic_sequence: 3,
            wait_millis: 4,
        }))
    );
    let start = |session_id: &str| {
        dispatch(ToolCall::OperationStart(OperationStartInput {
            request_id: UUID.to_owned(),
            project_id: "project".to_owned(),
            intent: McpIntent::ResumeExact { session_id: session_id.to_owned() },
            prompt: "prompt".to_owned(),
            review_profile: McpReviewProfile::OpusReadOnly,
        }))
    };
    match start(UUID) {
        Ok(DaemonRequest::OperationStart(start)) => {
            assert_eq!(start.request_id.value(), VALUE);
            let session_id = SessionId::new_exact(VALUE);
            assert_eq!(start.intent, OperationIntent::ResumeExact { session_id });
            assert_eq!(start.prompt, "prompt");
        }
        other => panic!("a start was asked for: {other:?}"),
    }
    assert!(start("no uuid").is_err());
}

#[test]
fn conversation_tools_make_their_requests() {
    let conversation_id = ConversationId::new(OperationId::new_exact(VALUE));
    match dispatch(ToolCall::ConversationStart(ConversationStartInput {
        request_id: UUID.to_owned(),
        project_id: "project".to_owned(),
        intent: McpIntent::New,
        turn_id: UUID.to_owned(),
        prompt: "prompt".to_owned(),
        review_profile: McpReviewProfile::OpusReadOnly,
    })) {
        Ok(DaemonRequest::ConversationStart(start)) => {
            assert_eq!(start.turn_id, TurnId::new(VALUE));
            assert_eq!(start.intent, OperationIntent::New);
        }
        other => panic!("a start was asked for: {other:?}"),
    }
    match dispatch(ToolCall::ConversationSend(ConversationSendInput {
        conversation_id: UUID.to_owned(),
        turn_id: UUID.to_owned(),
        prompt: "prompt".to_owned(),
    })) {
        Ok(DaemonRequest::ConversationSend(send)) => {
            assert_eq!(send.conversation_id, conversation_id);
            assert_eq!(send.turn_id, TurnId::new(VALUE));
        }
        other => panic!("a turn was sent: {other:?}"),
    }
    match dispatch(ToolCall::ConversationWait(ConversationWaitInput {
        conversation_id: UUID.to_owned(),
        after_sequence: 2,
        wait_millis: 3,
    })) {
        Ok(DaemonRequest::ConversationWait(wait)) => {
            assert_eq!(wait.conversation_id, conversation_id);
            assert_eq!((wait.after_sequence, wait.wait_millis), (2, 3));
        }
        other => panic!("events were asked for: {other:?}"),
    }
    assert_eq!(
        dispatch(ToolCall::ConversationStop(ConversationStopInput {
            conversation_id: UUID.to_owned(),
            mode: McpConversationStopMode::Cancel,
        })),
        Ok(DaemonRequest::ConversationStop {
            conversation_id,
            mode: ConversationStopMode::Cancel,
        })
    );
}

#[test]
fn session_tools_make_their_requests() {
    let project_id = ProjectId::new("project".to_owned()).expect("named");
    match dispatch(ToolCall::SessionInventory(SessionInventoryInput {
        project_id: "project".to_owned(),
    })) {
        Ok(DaemonRequest::SessionInventory(request)) => {
            assert_eq!(request.project_id, project_id);
        }
        other => panic!("an inventory was asked for: {other:?}"),
    }
    match dispatch(ToolCall::SessionInspect(SessionInspectInput {
        project_id: "project".to_owned(),
        target_session_id: UUID.to_owned(),
    })) {
        Ok(DaemonRequest::SessionInspect(request)) => {
            assert_eq!(request.target_session_id, SessionId::new_exact(VALUE));
        }
        other => panic!("an inspection was asked for: {other:?}"),
    }
    let binding = |task_id: &str| InitiatorBindingRegisterInput {
        project_id: "project".to_owned(),
        initiator_session_id: "session".to_owned(),
        initiator_agent_id: "agent".to_owned(),
        role_id: "role".to_owned(),
        task_id: task_id.to_owned(),
        subject_id: "subject".to_owned(),
        target_session_id: UUID.to_owned(),
    };
    match dispatch(ToolCall::InitiatorBindingRegister(binding("task"))) {
        Ok(DaemonRequest::InitiatorBindingRegister(request)) => {
            assert_eq!(request.identity.task_id.as_str(), "task");
            assert_eq!(request.target_session_id, SessionId::new_exact(VALUE));
        }
        other => panic!("a binding was asked for: {other:?}"),
    }
    assert_eq!(
        refused(ToolCall::InitiatorBindingRegister(binding(""))),
        "invalid request: task_id must not be empty"
    );
    match dispatch(ToolCall::SessionDecide(SessionDecideInput {
        project_id: "project".to_owned(),
        initiator_session_id: "session".to_owned(),
        initiator_agent_id: "agent".to_owned(),
        role_id: "role".to_owned(),
        task_id: "task".to_owned(),
        subject_id: "subject".to_owned(),
        continuity: McpSessionContinuity::Independent,
    })) {
        Ok(DaemonRequest::SessionDecide(request)) => {
            assert_eq!(request.continuity, SessionContinuity::Independent);
        }
        other => panic!("a decision was asked for: {other:?}"),
    }
}

#[test]
fn refusals_keep_their_kind() {
    assert_eq!(
        undecoded(None),
        GatewayError::invalid("tool arguments are required".to_owned())
    );
    assert_eq!(
        undecoded(Some("why".to_owned())),
        GatewayError::invalid("tool arguments were invalid: why".to_owned())
    );
    assert_eq!(
        GatewayError::failure("why".to_owned()),
        GatewayError::GatewayFailure { message: "why".to_owned() }
    );
    let error = OperatorError::Conflict("why".to_owned());
    assert_eq!(
        GatewayError::operator(error.clone()),
        GatewayError::Operator { error, message: "conflict: why".to_owned() }
    );
    assert_eq!(McpGateway::new("/run/socket".to_owned()).endpoint(), "/run/socket");
}

#[test]
fn a_call_is_answered_by_the_daemon_or_told_why_not() {
    let answered = DaemonEnvelope { result: Ok(DaemonResponse::Projects(Vec::new())) };
    assert_eq!(
        call(Exchange::Answered(answered)),
        Ok(DaemonResponse::Projects(Vec::new()))
    );
    let refused =
        DaemonEnvelope { result: Err(OperatorError::Conflict("why".to_owned())) };
    assert_eq!(
        call(Exchange::Answered(refused)),
        Err(OperatorError::Conflict("why".to_owned()))
    );
    assert_eq!(
        call(Exchange::Unavailable("no socket".to_owned())),
        Err(OperatorError::TransportUnavailable("no socket".to_owned()))
    );
    assert_eq!(
        call(Exchange::Unencodable("no text".to_owned())),
        Err(OperatorError::Protocol("no text".to_owned()))
    );
    assert_eq!(
        call(Exchange::Undecodable("no JSON".to_owned())),
        Err(OperatorError::Protocol("daemon response was invalid JSON: no JSON".to_owned()))
    );
}

#[test]
fn a_daemon_reads_one_request_from_each_client() {
    assert_eq!(
        read_request(Arrival::Requested(DaemonRequest::ProjectList)),
        Ok(DaemonRequest::ProjectList)
    );
    assert_eq!(
        read_request(Arrival::Closed),
        Err(OperatorError::Protocol("daemon client closed before sending a request".to_owned()))
    );
    assert_eq!(
        read_request(Arrival::Undecodable("no JSON".to_owned())),
        Err(OperatorError::Protocol("daemon request was invalid JSON: no JSON".to_owned()))
    );
    assert!(read_request(Arrival::Unreadable("no bytes".to_owned())).is_err());
    let failure = |failure: ServingFailure| serving_failure(failure).to_text();
    assert!(failure(ServingFailure::Bind {
        endpoint: "/run/socket".to_owned(),
        message: "taken".to_owned(),
    })
    .ends_with("daemon endpoint /run/socket could not bind: taken"));
    assert!(failure(ServingFailure::Accept { message: "closed".to_owned() })
        .ends_with("daemon endpoint could not accept: closed"));
    assert!(failure(ServingFailure::Worker { message: "limit".to_owned() })
        .ends_with("daemon connection worker could not start: limit"));
}
