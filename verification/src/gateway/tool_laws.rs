//! What each tool call asks of the daemon, told of the arguments themselves.

use vstd::prelude::*;

use crate::contract::control::{
    ConversationSendView, ConversationStartView, ConversationStopMode, ConversationWait,
    DaemonEnvelope, DaemonRequest, DaemonRequestView, InitiatorBindingRequestView,
    InitiatorBindingView, InitiatorIdentityView,
    OperationDiagnosticsRequest, OperationIntent, OperationStartView, OperatorErrorView,
    ProjectRegistrationView, ReviewProfile, SessionContinuity, SessionDecisionRequestView,
    SessionInspectRequestView, SessionInventoryRequestView,
};
use crate::contract::identity::{ConversationId, OperationId, RequestId, SessionId, TurnId};
use crate::contract::target::PROVIDER;
use crate::control::ingress::{arrived, Arrival};
use crate::gateway::client::{exchanged, Exchange};
use crate::gateway::error::GatewayErrorView;
use crate::gateway::mcp::{
    call_requested, listed_tools, ConversationSendInputView, ConversationStartInputView,
    ConversationStopInputView, ConversationWaitInputView, McpConversationStopMode, McpIntentView,
    OperationCancelInputView, OperationDiagnosticsInputView,
    OperationGetInputView, OperationStartInputView, OperationWaitInputView, ProjectGetInputView,
    ProjectRegisterInputView, ToolCallView, ToolKind,
};
use crate::gateway::session::{
    InitiatorBindingRegisterInputView, McpSessionContinuity, SessionDecideInputView,
    SessionInspectInputView, SessionInventoryInputView,
};
use crate::identifier::{uuid_parsed, uuid_text};

verus! {

/// What a tool call asks for, or why it asks for nothing.
pub type Asked = Result<DaemonRequestView, GatewayErrorView>;

/// Whether a call asks for a request.
pub open spec fn asks(result: Asked, request: DaemonRequestView) -> bool {
    result matches Ok(told) && told == request
}

/// Whether the arguments of a call are refused with a message.
pub open spec fn declines(result: Asked, message: Seq<char>) -> bool {
    result matches Err(error) && error == (GatewayErrorView::InvalidArguments { message })
}

/// Whether a text is read as a UUID.
pub open spec fn reads(text: Seq<char>, uuid: u128) -> bool {
    uuid_parsed(text) == Ok::<u128, Seq<char>>(uuid)
}

/// Whether an intent is the one that was asked for.
pub open spec fn same_intent(input: McpIntentView, intent: OperationIntent) -> bool {
    match input {
        McpIntentView::New => intent is New,
        McpIntentView::ResumeExact { session_id } => intent matches OperationIntent::ResumeExact {
            session_id: session,
        } && reads(session_id, session.0),
    }
}

/// The tools about projects pass their arguments on unchanged.
pub proof fn project_tools_pass_their_arguments(
    name: Seq<char>,
    directory: Seq<char>,
    executable: Seq<char>,
    model: Seq<char>,
    arguments: Option<usize>,
)
    requires
        name.len() > 0,
    ensures
        asks(
            call_requested(
                ToolCallView::ProjectRegister(
                    ProjectRegisterInputView {
                        project_id: name,
                        working_directory: directory,
                        claude_executable: executable,
                        expected_opus_model: model,
                    },
                ),
            ),
            DaemonRequestView::ProjectRegister(
                ProjectRegistrationView {
                    project_id: name,
                    working_directory: directory,
                    claude_executable: executable,
                    expected_opus_model: model,
                },
            ),
        ),
        asks(
            call_requested(ToolCallView::ProjectGet(ProjectGetInputView { project_id: name })),
            DaemonRequestView::ProjectGet { project_id: name },
        ),
        asks(
            call_requested(
                ToolCallView::SessionInventory(SessionInventoryInputView { project_id: name }),
            ),
            DaemonRequestView::SessionInventory(SessionInventoryRequestView { project_id: name }),
        ),
        arguments is None || arguments == Some(0usize) ==> asks(
            call_requested(ToolCallView::ProjectList { arguments }),
            DaemonRequestView::ProjectList,
        ),
        arguments is Some && arguments != Some(0usize) ==> declines(
            call_requested(ToolCallView::ProjectList { arguments }),
            "project_list does not accept arguments"@,
        ),
{
}

/// The tools about one operation pass its identity and every number on unchanged.
pub proof fn operation_tools_pass_their_arguments(
    text: Seq<char>,
    uuid: u128,
    wait_millis: u64,
    after_diagnostic_sequence: u64,
)
    requires
        reads(text, uuid),
    ensures
        asks(
            call_requested(ToolCallView::OperationGet(OperationGetInputView { operation_id: text })),
            DaemonRequestView::OperationGet { operation_id: OperationId(uuid) },
        ),
        asks(
            call_requested(
                ToolCallView::OperationWait(
                    OperationWaitInputView { operation_id: text, wait_millis },
                ),
            ),
            DaemonRequestView::OperationWait { operation_id: OperationId(uuid), wait_millis },
        ),
        asks(
            call_requested(
                ToolCallView::OperationCancel(OperationCancelInputView { operation_id: text }),
            ),
            DaemonRequestView::OperationCancel { operation_id: OperationId(uuid) },
        ),
        asks(
            call_requested(
                ToolCallView::OperationDiagnostics(
                    OperationDiagnosticsInputView {
                        operation_id: text,
                        after_diagnostic_sequence,
                        wait_millis,
                    },
                ),
            ),
            DaemonRequestView::OperationDiagnostics(
                OperationDiagnosticsRequest {
                    operation_id: OperationId(uuid),
                    after_diagnostic_sequence,
                    wait_millis,
                },
            ),
        ),
{
}

/// The tools about one operation refuse an identity that is no UUID, and say why.
pub proof fn operation_tools_need_an_identity(
    text: Seq<char>,
    reason: Seq<char>,
    wait_millis: u64,
    after_diagnostic_sequence: u64,
)
    requires
        uuid_parsed(text) == Err::<u128, Seq<char>>(reason),
    ensures
        ({
            let message = "operation_id"@ + " was not a UUID: "@ + reason;
            &&& declines(
                call_requested(
                    ToolCallView::OperationGet(OperationGetInputView { operation_id: text }),
                ),
                message,
            )
            &&& declines(
                call_requested(
                    ToolCallView::OperationWait(
                        OperationWaitInputView { operation_id: text, wait_millis },
                    ),
                ),
                message,
            )
            &&& declines(
                call_requested(
                    ToolCallView::OperationCancel(OperationCancelInputView { operation_id: text }),
                ),
                message,
            )
            &&& declines(
                call_requested(
                    ToolCallView::OperationDiagnostics(
                        OperationDiagnosticsInputView {
                            operation_id: text,
                            after_diagnostic_sequence,
                            wait_millis,
                        },
                    ),
                ),
                message,
            )
        }),
{
}

/// The start of a review passes its identity, its project, its intent and its prompt on unchanged;
/// an empty prompt too, which the daemon refuses.
pub proof fn review_is_asked_for_unchanged(
    input: OperationStartInputView,
    request: u128,
    intent: OperationIntent,
)
    requires
        reads(input.request_id, request),
        input.project_id.len() > 0,
        same_intent(input.intent, intent),
    ensures
        asks(
            call_requested(ToolCallView::OperationStart(input)),
            DaemonRequestView::OperationStart(
                OperationStartView {
                    request_id: RequestId(request),
                    project_id: input.project_id,
                    intent,
                    prompt: input.prompt,
                    review_profile: ReviewProfile::OpusReadOnly,
                },
            ),
        ),
{
}

/// The start of a conversation passes its identities, its project, its intent and its prompt on
/// unchanged.
pub proof fn conversation_is_asked_for_unchanged(
    input: ConversationStartInputView,
    request: u128,
    turn: u128,
    intent: OperationIntent,
)
    requires
        reads(input.request_id, request),
        reads(input.turn_id, turn),
        input.project_id.len() > 0,
        same_intent(input.intent, intent),
    ensures
        asks(
            call_requested(ToolCallView::ConversationStart(input)),
            DaemonRequestView::ConversationStart(
                ConversationStartView {
                    request_id: RequestId(request),
                    project_id: input.project_id,
                    intent,
                    turn_id: TurnId(turn),
                    prompt: input.prompt,
                    review_profile: ReviewProfile::OpusReadOnly,
                },
            ),
        ),
{
}

/// The start of a review or of a conversation refuses the first argument that is not in order: the
/// identity of the request, the project, the session to resume, and then the identity of the turn.
pub proof fn starts_refuse_their_first_fault(
    review: OperationStartInputView,
    conversation: ConversationStartInputView,
    reason: Seq<char>,
)
    requires
        conversation.request_id == review.request_id,
        conversation.project_id == review.project_id,
        conversation.intent == review.intent,
    ensures
        ({
            let one = call_requested(ToolCallView::OperationStart(review));
            let other = call_requested(ToolCallView::ConversationStart(conversation));
            let fault = Err::<u128, Seq<char>>(reason);
            if uuid_parsed(review.request_id) is Err {
                let told = "request_id"@ + " was not a UUID: "@ + reason;
                uuid_parsed(review.request_id) == fault ==> declines(one, told) && declines(
                    other,
                    told,
                )
            } else if review.project_id.len() == 0 {
                let told = "invalid request: project_id must not be empty"@;
                declines(one, told) && declines(other, told)
            } else {
                &&& review.intent matches McpIntentView::ResumeExact { session_id } ==> (
                uuid_parsed(session_id) == fault ==> declines(
                    one,
                    "session_id"@ + " was not a UUID: "@ + reason,
                ) && declines(other, "session_id"@ + " was not a UUID: "@ + reason))
                &&& review.intent is New && uuid_parsed(conversation.turn_id) == fault ==> declines(
                    other,
                    "turn_id"@ + " was not a UUID: "@ + reason,
                )
            }
        }),
{
}

/// The tools about one conversation pass its identity, the turn, the prompt, the cursor, the time
/// and the mode on unchanged.
pub proof fn conversation_tools_pass_their_arguments(
    text: Seq<char>,
    uuid: u128,
    turn_text: Seq<char>,
    turn: u128,
    prompt: Seq<char>,
    after_sequence: u64,
    wait_millis: u64,
)
    requires
        reads(text, uuid),
        reads(turn_text, turn),
    ensures
        asks(
            call_requested(
                ToolCallView::ConversationSend(
                    ConversationSendInputView { conversation_id: text, turn_id: turn_text, prompt },
                ),
            ),
            DaemonRequestView::ConversationSend(
                ConversationSendView {
                    conversation_id: ConversationId(OperationId(uuid)),
                    turn_id: TurnId(turn),
                    prompt,
                },
            ),
        ),
        asks(
            call_requested(
                ToolCallView::ConversationWait(
                    ConversationWaitInputView { conversation_id: text, after_sequence, wait_millis },
                ),
            ),
            DaemonRequestView::ConversationWait(
                ConversationWait {
                    conversation_id: ConversationId(OperationId(uuid)),
                    after_sequence,
                    wait_millis,
                },
            ),
        ),
        asks(
            call_requested(
                ToolCallView::ConversationStop(
                    ConversationStopInputView {
                        conversation_id: text,
                        mode: McpConversationStopMode::Graceful,
                    },
                ),
            ),
            DaemonRequestView::ConversationStop {
                conversation_id: ConversationId(OperationId(uuid)),
                mode: ConversationStopMode::Graceful,
            },
        ),
        asks(
            call_requested(
                ToolCallView::ConversationStop(
                    ConversationStopInputView {
                        conversation_id: text,
                        mode: McpConversationStopMode::Cancel,
                    },
                ),
            ),
            DaemonRequestView::ConversationStop {
                conversation_id: ConversationId(OperationId(uuid)),
                mode: ConversationStopMode::Cancel,
            },
        ),
{
}

/// The tools about one conversation refuse an identity that is no UUID, and say which and why.
pub proof fn conversation_tools_need_their_identities(
    text: Seq<char>,
    turn_text: Seq<char>,
    prompt: Seq<char>,
    after_sequence: u64,
    wait_millis: u64,
    mode: McpConversationStopMode,
    reason: Seq<char>,
)
    ensures
        ({
            let fault = Err::<u128, Seq<char>>(reason);
            let send = call_requested(
                ToolCallView::ConversationSend(
                    ConversationSendInputView { conversation_id: text, turn_id: turn_text, prompt },
                ),
            );
            let wait = call_requested(
                ToolCallView::ConversationWait(
                    ConversationWaitInputView { conversation_id: text, after_sequence, wait_millis },
                ),
            );
            let stop = call_requested(
                ToolCallView::ConversationStop(
                    ConversationStopInputView { conversation_id: text, mode },
                ),
            );
            let told = "conversation_id"@ + " was not a UUID: "@ + reason;
            &&& uuid_parsed(text) == fault ==> declines(send, told) && declines(wait, told)
                && declines(stop, told)
            &&& uuid_parsed(text) is Ok && uuid_parsed(turn_text) == fault ==> declines(
                send,
                "turn_id"@ + " was not a UUID: "@ + reason,
            )
        }),
{
}

/// The tools about sessions pass the project, the session, every part of the identity and the kind
/// of continuation on unchanged.
pub proof fn session_tools_pass_their_arguments(
    project_id: Seq<char>,
    session_text: Seq<char>,
    session: u128,
    identity: InitiatorIdentityView,
)
    requires
        project_id.len() > 0,
        reads(session_text, session),
        identity.initiator_session_id.len() > 0,
        identity.initiator_agent_id.len() > 0,
        identity.role_id.len() > 0,
        identity.task_id.len() > 0,
        identity.subject_id.len() > 0,
    ensures
        asks(
            call_requested(
                ToolCallView::SessionInspect(
                    SessionInspectInputView { project_id, target_session_id: session_text },
                ),
            ),
            DaemonRequestView::SessionInspect(
                SessionInspectRequestView { project_id, target_session_id: SessionId(session) },
            ),
        ),
        asks(
            call_requested(
                ToolCallView::InitiatorBindingRegister(
                    InitiatorBindingRegisterInputView {
                        project_id,
                        initiator_session_id: identity.initiator_session_id,
                        initiator_agent_id: identity.initiator_agent_id,
                        role_id: identity.role_id,
                        task_id: identity.task_id,
                        subject_id: identity.subject_id,
                        target_session_id: session_text,
                    },
                ),
            ),
            DaemonRequestView::InitiatorBindingRegister(
                InitiatorBindingRequestView {
                    project_id,
                    identity,
                    target_session_id: SessionId(session),
                },
            ),
        ),
        asks(
            call_requested(
                decide_call(project_id, identity, McpSessionContinuity::ContinueBound),
            ),
            DaemonRequestView::SessionDecide(
                SessionDecisionRequestView {
                    project_id,
                    identity,
                    continuity: SessionContinuity::ContinueBound,
                },
            ),
        ),
        asks(
            call_requested(decide_call(project_id, identity, McpSessionContinuity::Independent)),
            DaemonRequestView::SessionDecide(
                SessionDecisionRequestView {
                    project_id,
                    identity,
                    continuity: SessionContinuity::Independent,
                },
            ),
        ),
{
}

/// A call of `session_decide`.
pub open spec fn decide_call(
    project_id: Seq<char>,
    identity: InitiatorIdentityView,
    continuity: McpSessionContinuity,
) -> ToolCallView {
    ToolCallView::SessionDecide(
        SessionDecideInputView {
            project_id,
            initiator_session_id: identity.initiator_session_id,
            initiator_agent_id: identity.initiator_agent_id,
            role_id: identity.role_id,
            task_id: identity.task_id,
            subject_id: identity.subject_id,
            continuity,
        },
    )
}

/// A decision is refused for the first part of its identity that is empty, and the part is named.
pub proof fn empty_part_of_an_identity_is_refused(
    project_id: Seq<char>,
    identity: InitiatorIdentityView,
    continuity: McpSessionContinuity,
)
    ensures
        ({
            let result = call_requested(decide_call(project_id, identity, continuity));
            if project_id.len() == 0 {
                declines(result, "invalid request: project_id must not be empty"@)
            } else if identity.initiator_session_id.len() == 0 {
                declines(result, "invalid request: initiator_session_id must not be empty"@)
            } else if identity.initiator_agent_id.len() == 0 {
                declines(result, "invalid request: initiator_agent_id must not be empty"@)
            } else if identity.role_id.len() == 0 {
                declines(result, "invalid request: role_id must not be empty"@)
            } else if identity.task_id.len() == 0 {
                declines(result, "invalid request: task_id must not be empty"@)
            } else if identity.subject_id.len() == 0 {
                declines(result, "invalid request: subject_id must not be empty"@)
            } else {
                result is Ok
            }
        }),
{
}

/// What the daemon answered is told as it was answered; every other exchange tells why there is no
/// answer.
pub proof fn exchange_tells_the_answer(envelope: DaemonEnvelope, message: String)
    ensures
        envelope.result matches Ok(response) ==> exchanged(Exchange::Answered(envelope)) == Ok::<
            _,
            OperatorErrorView,
        >(response@),
        envelope.result matches Err(error) ==> (exchanged(Exchange::Answered(envelope)) matches Err(
            told,
        ) && told == error@),
        exchanged(Exchange::Unencodable(message)) matches Err(told) && told
            == OperatorErrorView::Protocol(message@),
        exchanged(Exchange::Unavailable(message)) matches Err(told) && told
            == OperatorErrorView::TransportUnavailable(message@),
        exchanged(Exchange::Closed) matches Err(told) && told
            == OperatorErrorView::TransportUnavailable("daemon closed before sending a response"@),
        exchanged(Exchange::Undecodable(message)) matches Err(told) && told
            == OperatorErrorView::Protocol("daemon response was invalid JSON: "@ + message@),
{
}

/// What a client asked is taken as it was asked; every other arrival tells why there is no request.
pub proof fn arrival_tells_the_request(
    request: DaemonRequest,
    message: String,
)
    ensures
        arrived(Arrival::Requested(request)) == Ok::<_, OperatorErrorView>(request@),
        arrived(Arrival::Unreadable(message)) matches Err(told) && told
            == OperatorErrorView::TransportUnavailable(message@),
        arrived(Arrival::Closed) matches Err(told) && told == OperatorErrorView::Protocol(
            "daemon client closed before sending a request"@,
        ),
        arrived(Arrival::Undecodable(message)) matches Err(told) && told
            == OperatorErrorView::Protocol("daemon request was invalid JSON: "@ + message@),
{
}

/// Every tool is called by its own name, and the tools are listed in this order.
pub proof fn tools_are_listed_by_name()
    ensures
        listed_tools().map_values(|tool: ToolKind| tool.called()) =~= seq![
            "project_register"@,
            "project_get"@,
            "project_list"@,
            "operation_start"@,
            "operation_get"@,
            "operation_wait"@,
            "operation_cancel"@,
            "operation_diagnostics"@,
            "conversation_start"@,
            "conversation_send"@,
            "conversation_wait"@,
            "conversation_stop"@,
            "session_inventory"@,
            "session_inspect"@,
            "initiator_binding_register"@,
            "session_decide"@,
        ],
{
}

/// Every failure is told in words that say what failed, followed by its own message.
pub proof fn failures_are_told_in_words(
    message: Seq<char>,
    project_id: Seq<char>,
    session: SessionId,
    other: SessionId,
    binding: InitiatorBindingView,
)
    ensures
        OperatorErrorView::InvalidRequest(message).text() == "invalid request: "@ + message,
        OperatorErrorView::UnknownProject(message).text() == "project is unknown: "@ + message,
        OperatorErrorView::UnknownOperation(message).text() == "operation is unknown: "@ + message,
        OperatorErrorView::Conflict(message).text() == "conflict: "@ + message,
        OperatorErrorView::UnclassifiedSession(message).text()
            == "session cannot be classified after daemon restart: "@ + message,
        OperatorErrorView::TransportUnavailable(message).text()
            == "daemon transport is unavailable: "@ + message,
        OperatorErrorView::ExecutionFailed(message).text() == "target execution failed: "@
            + message,
        OperatorErrorView::Indeterminate(message).text()
            == "operation outcome is indeterminate: "@ + message,
        OperatorErrorView::State(message).text() == "state failure: "@ + message,
        OperatorErrorView::Protocol(message).text() == "protocol failure: "@ + message,
        OperatorErrorView::DiagnosticsUnavailable(message).text()
            == "operation diagnostics are unavailable: "@ + message,
        (OperatorErrorView::UnknownSession { project_id, target_session_id: session }).text()
            == "target session is unknown in project "@ + project_id + ": "@ + uuid_text(
            session.0,
        ),
        (OperatorErrorView::BindingConflict {
            existing_target_session_id: session,
            requested_target_session_id: other,
        }).text() == "initiator binding conflicts: existing target session "@ + uuid_text(
            session.0,
        ) + ", requested "@ + uuid_text(other.0),
        (OperatorErrorView::BoundSessionEvidenceMissing {
            binding,
            target_session_id: session,
        }).text() == "bound target session "@ + uuid_text(session.0)
            + " has no qualifying operator evidence"@,
{
}

/// Every tool says what it is for.
pub proof fn tools_say_what_they_are_for()
    ensures
        listed_tools().map_values(|tool: ToolKind| tool.described()) =~= seq![
            "Register one explicit project."@,
            "Inspect one registered project."@,
            "List registered projects."@,
            "Start one new or exact-resume review."@,
            "Inspect one operation."@,
            "Wait for current or terminal operation state."@,
            "Request direct-child cancellation and observe its terminal state."@,
            "Read durable one-shot diagnostics after a cursor."@,
            "Start one persistent structured "@ + PROVIDER@ + " conversation."@,
            "Durably submit one caller-identified turn to a live conversation."@,
            "Read durable conversation events after a cursor."@,
            "Close or cancel one live conversation."@,
            "List successful operator-owned target-session evidence."@,
            "Inspect qualifying evidence for one exact target session."@,
            "Bind one explicit initiator identity to one evidenced target session."@,
            "Return a pure exact-session continuation decision."@,
        ],
{
}

} // verus!
