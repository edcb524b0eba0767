//! Projects tool calls to daemon requests.

use vstd::prelude::*;
use vstd::string::*;

use crate::contract::control::{
    ConversationSend, ConversationSendView, ConversationStart, ConversationStartView,
    ConversationStopMode, ConversationWait, DaemonRequest, DaemonRequestView,
    OperationDiagnosticsRequest, OperationIntent, OperationStart, OperationStartView,
    ProjectRegistration, ProjectRegistrationView, ReviewProfile,
};
use crate::contract::identity::{
    ConversationId, OperationId, ProjectId, RequestId, SessionId, TurnId,
};
use crate::gateway::error::{projected, refused_arguments, GatewayError, GatewayErrorView};
use crate::gateway::session::{
    self, binding_requested, decision_requested, inspection_requested, inventory_requested,
    InitiatorBindingRegisterInput, InitiatorBindingRegisterInputView, SessionDecideInput,
    SessionDecideInputView, SessionInspectInput, SessionInspectInputView, SessionInventoryInput,
    SessionInventoryInputView,
};
use crate::identifier::uuid_parsed;
use crate::contract::target::PROVIDER;
use crate::text::{joined3, same_text};

verus! {

/// The profile of a review.
#[derive(Clone, Copy, Debug, PartialEq, Eq, Structural)]
pub enum McpReviewProfile {
    OpusReadOnly,
}

/// How a conversation is stopped.
#[derive(Clone, Copy, Debug, PartialEq, Eq, Structural)]
pub enum McpConversationStopMode {
    Graceful,
    Cancel,
}

/// Whether a review begins a session or resumes one.
#[derive(Debug, PartialEq, Eq)]
pub enum McpIntent {
    New,
    ResumeExact { session_id: String },
}

/// The mathematical content of [`McpIntent`].
#[verifier::ext_equal]
pub enum McpIntentView {
    New,
    ResumeExact { session_id: Seq<char> },
}

impl View for McpIntent {
    type V = McpIntentView;

    open spec fn view(&self) -> McpIntentView {
        match *self {
            McpIntent::New => McpIntentView::New,
            McpIntent::ResumeExact { session_id } => McpIntentView::ResumeExact {
                session_id: session_id@,
            },
        }
    }
}

/// The arguments of `project_register`.
#[derive(Debug, PartialEq, Eq)]
pub struct ProjectRegisterInput {
    pub project_id: String,
    pub working_directory: String,
    pub claude_executable: String,
    pub expected_opus_model: String,
}

/// The mathematical content of [`ProjectRegisterInput`].
#[verifier::ext_equal]
pub struct ProjectRegisterInputView {
    pub project_id: Seq<char>,
    pub working_directory: Seq<char>,
    pub claude_executable: Seq<char>,
    pub expected_opus_model: Seq<char>,
}

impl View for ProjectRegisterInput {
    type V = ProjectRegisterInputView;

    open spec fn view(&self) -> ProjectRegisterInputView {
        ProjectRegisterInputView {
            project_id: self.project_id@,
            working_directory: self.working_directory@,
            claude_executable: self.claude_executable@,
            expected_opus_model: self.expected_opus_model@,
        }
    }
}

/// The arguments of `project_get`.
#[derive(Debug, PartialEq, Eq)]
pub struct ProjectGetInput {
    pub project_id: String,
}

/// The mathematical content of [`ProjectGetInput`].
#[verifier::ext_equal]
pub struct ProjectGetInputView {
    pub project_id: Seq<char>,
}

impl View for ProjectGetInput {
    type V = ProjectGetInputView;

    open spec fn view(&self) -> ProjectGetInputView {
        ProjectGetInputView {
            project_id: self.project_id@,
        }
    }
}

/// The arguments of `operation_get`.
#[derive(Debug, PartialEq, Eq)]
pub struct OperationGetInput {
    pub operation_id: String,
}

/// The mathematical content of [`OperationGetInput`].
#[verifier::ext_equal]
pub struct OperationGetInputView {
    pub operation_id: Seq<char>,
}

impl View for OperationGetInput {
    type V = OperationGetInputView;

    open spec fn view(&self) -> OperationGetInputView {
        OperationGetInputView {
            operation_id: self.operation_id@,
        }
    }
}

/// The arguments of `operation_wait`.
#[derive(Debug, PartialEq, Eq)]
pub struct OperationWaitInput {
    pub operation_id: String,
    pub wait_millis: u64,
}

/// The mathematical content of [`OperationWaitInput`].
#[verifier::ext_equal]
pub struct OperationWaitInputView {
    pub operation_id: Seq<char>,
    pub wait_millis: u64,
}

impl View for OperationWaitInput {
    type V = OperationWaitInputView;

    open spec fn view(&self) -> OperationWaitInputView {
        OperationWaitInputView {
            operation_id: self.operation_id@,
            wait_millis: self.wait_millis,
        }
    }
}

/// The arguments of `operation_cancel`.
#[derive(Debug, PartialEq, Eq)]
pub struct OperationCancelInput {
    pub operation_id: String,
}

/// The mathematical content of [`OperationCancelInput`].
#[verifier::ext_equal]
pub struct OperationCancelInputView {
    pub operation_id: Seq<char>,
}

impl View for OperationCancelInput {
    type V = OperationCancelInputView;

    open spec fn view(&self) -> OperationCancelInputView {
        OperationCancelInputView {
            operation_id: self.operation_id@,
        }
    }
}

/// The arguments of `operation_diagnostics`.
#[derive(Debug, PartialEq, Eq)]
pub struct OperationDiagnosticsInput {
    pub operation_id: String,
    pub after_diagnostic_sequence: u64,
    pub wait_millis: u64,
}

/// The mathematical content of [`OperationDiagnosticsInput`].
#[verifier::ext_equal]
pub struct OperationDiagnosticsInputView {
    pub operation_id: Seq<char>,
    pub after_diagnostic_sequence: u64,
    pub wait_millis: u64,
}

impl View for OperationDiagnosticsInput {
    type V = OperationDiagnosticsInputView;

    open spec fn view(&self) -> OperationDiagnosticsInputView {
        OperationDiagnosticsInputView {
            operation_id: self.operation_id@,
            after_diagnostic_sequence: self.after_diagnostic_sequence,
            wait_millis: self.wait_millis,
        }
    }
}

/// The arguments of `operation_start`.
#[derive(Debug, PartialEq, Eq)]
pub struct OperationStartInput {
    pub request_id: String,
    pub project_id: String,
    pub intent: McpIntent,
    pub prompt: String,
    pub review_profile: McpReviewProfile,
}

/// The mathematical content of [`OperationStartInput`].
#[verifier::ext_equal]
pub struct OperationStartInputView {
    pub request_id: Seq<char>,
    pub project_id: Seq<char>,
    pub intent: McpIntentView,
    pub prompt: Seq<char>,
    pub review_profile: McpReviewProfile,
}

impl View for OperationStartInput {
    type V = OperationStartInputView;

    open spec fn view(&self) -> OperationStartInputView {
        OperationStartInputView {
            request_id: self.request_id@,
            project_id: self.project_id@,
            intent: self.intent@,
            prompt: self.prompt@,
            review_profile: self.review_profile,
        }
    }
}

/// The arguments of `conversation_start`.
#[derive(Debug, PartialEq, Eq)]
pub struct ConversationStartInput {
    pub request_id: String,
    pub project_id: String,
    pub intent: McpIntent,
    pub turn_id: String,
    pub prompt: String,
    pub review_profile: McpReviewProfile,
}

/// The mathematical content of [`ConversationStartInput`].
#[verifier::ext_equal]
pub struct ConversationStartInputView {
    pub request_id: Seq<char>,
    pub project_id: Seq<char>,
    pub intent: McpIntentView,
    pub turn_id: Seq<char>,
    pub prompt: Seq<char>,
    pub review_profile: McpReviewProfile,
}

impl View for ConversationStartInput {
    type V = ConversationStartInputView;

    open spec fn view(&self) -> ConversationStartInputView {
        ConversationStartInputView {
            request_id: self.request_id@,
            project_id: self.project_id@,
            intent: self.intent@,
            turn_id: self.turn_id@,
            prompt: self.prompt@,
            review_profile: self.review_profile,
        }
    }
}

/// The arguments of `conversation_send`.
#[derive(Debug, PartialEq, Eq)]
pub struct ConversationSendInput {
    pub conversation_id: String,
    pub turn_id: String,
    pub prompt: String,
}

/// The mathematical content of [`ConversationSendInput`].
#[verifier::ext_equal]
pub struct ConversationSendInputView {
    pub conversation_id: Seq<char>,
    pub turn_id: Seq<char>,
    pub prompt: Seq<char>,
}

impl View for ConversationSendInput {
    type V = ConversationSendInputView;

    open spec fn view(&self) -> ConversationSendInputView {
        ConversationSendInputView {
            conversation_id: self.conversation_id@,
            turn_id: self.turn_id@,
            prompt: self.prompt@,
        }
    }
}

/// The arguments of `conversation_wait`.
#[derive(Debug, PartialEq, Eq)]
pub struct ConversationWaitInput {
    pub conversation_id: String,
    pub after_sequence: u64,
    pub wait_millis: u64,
}

/// The mathematical content of [`ConversationWaitInput`].
#[verifier::ext_equal]
pub struct ConversationWaitInputView {
    pub conversation_id: Seq<char>,
    pub after_sequence: u64,
    pub wait_millis: u64,
}

impl View for ConversationWaitInput {
    type V = ConversationWaitInputView;

    open spec fn view(&self) -> ConversationWaitInputView {
        ConversationWaitInputView {
            conversation_id: self.conversation_id@,
            after_sequence: self.after_sequence,
            wait_millis: self.wait_millis,
        }
    }
}

/// The arguments of `conversation_stop`.
#[derive(Debug, PartialEq, Eq)]
pub struct ConversationStopInput {
    pub conversation_id: String,
    pub mode: McpConversationStopMode,
}

/// The mathematical content of [`ConversationStopInput`].
#[verifier::ext_equal]
pub struct ConversationStopInputView {
    pub conversation_id: Seq<char>,
    pub mode: McpConversationStopMode,
}

impl View for ConversationStopInput {
    type V = ConversationStopInputView;

    open spec fn view(&self) -> ConversationStopInputView {
        ConversationStopInputView {
            conversation_id: self.conversation_id@,
            mode: self.mode,
        }
    }
}

/// The tools.
#[derive(Clone, Copy, Debug, PartialEq, Eq, Structural)]
pub enum ToolKind {
    ProjectRegister,
    ProjectGet,
    ProjectList,
    OperationStart,
    OperationGet,
    OperationWait,
    OperationCancel,
    OperationDiagnostics,
    ConversationStart,
    ConversationSend,
    ConversationWait,
    ConversationStop,
    SessionInventory,
    SessionInspect,
    InitiatorBindingRegister,
    SessionDecide,
}

impl ToolKind {
    /// The name by which a tool is called.
    pub open spec fn called(self) -> Seq<char> {
        match self {
            ToolKind::ProjectRegister => "project_register"@,
            ToolKind::ProjectGet => "project_get"@,
            ToolKind::ProjectList => "project_list"@,
            ToolKind::OperationStart => "operation_start"@,
            ToolKind::OperationGet => "operation_get"@,
            ToolKind::OperationWait => "operation_wait"@,
            ToolKind::OperationCancel => "operation_cancel"@,
            ToolKind::OperationDiagnostics => "operation_diagnostics"@,
            ToolKind::ConversationStart => "conversation_start"@,
            ToolKind::ConversationSend => "conversation_send"@,
            ToolKind::ConversationWait => "conversation_wait"@,
            ToolKind::ConversationStop => "conversation_stop"@,
            ToolKind::SessionInventory => "session_inventory"@,
            ToolKind::SessionInspect => "session_inspect"@,
            ToolKind::InitiatorBindingRegister => "initiator_binding_register"@,
            ToolKind::SessionDecide => "session_decide"@,
        }
    }

    /// The name by which a tool is called.
    pub fn name(self) -> (name: &'static str)
        ensures
            name@ == self.called(),
    {
        match self {
            ToolKind::ProjectRegister => "project_register",
            ToolKind::ProjectGet => "project_get",
            ToolKind::ProjectList => "project_list",
            ToolKind::OperationStart => "operation_start",
            ToolKind::OperationGet => "operation_get",
            ToolKind::OperationWait => "operation_wait",
            ToolKind::OperationCancel => "operation_cancel",
            ToolKind::OperationDiagnostics => "operation_diagnostics",
            ToolKind::ConversationStart => "conversation_start",
            ToolKind::ConversationSend => "conversation_send",
            ToolKind::ConversationWait => "conversation_wait",
            ToolKind::ConversationStop => "conversation_stop",
            ToolKind::SessionInventory => "session_inventory",
            ToolKind::SessionInspect => "session_inspect",
            ToolKind::InitiatorBindingRegister => "initiator_binding_register",
            ToolKind::SessionDecide => "session_decide",
        }
    }

    /// What a tool is for.
    pub open spec fn described(self) -> Seq<char> {
        match self {
            ToolKind::ProjectRegister => "Register one explicit project."@,
            ToolKind::ProjectGet => "Inspect one registered project."@,
            ToolKind::ProjectList => "List registered projects."@,
            ToolKind::OperationStart => "Start one new or exact-resume review."@,
            ToolKind::OperationGet => "Inspect one operation."@,
            ToolKind::OperationWait => "Wait for current or terminal operation state."@,
            ToolKind::OperationCancel => "Request direct-child cancellation and observe its terminal state."@,
            ToolKind::OperationDiagnostics => "Read durable one-shot diagnostics after a cursor."@,
            ToolKind::ConversationStart => "Start one persistent structured "@ + PROVIDER@
                + " conversation."@,
            ToolKind::ConversationSend => "Durably submit one caller-identified turn to a live conversation."@,
            ToolKind::ConversationWait => "Read durable conversation events after a cursor."@,
            ToolKind::ConversationStop => "Close or cancel one live conversation."@,
            ToolKind::SessionInventory => "List successful operator-owned target-session evidence."@,
            ToolKind::SessionInspect => "Inspect qualifying evidence for one exact target session."@,
            ToolKind::InitiatorBindingRegister => "Bind one explicit initiator identity to one evidenced target session."@,
            ToolKind::SessionDecide => "Return a pure exact-session continuation decision."@,
        }
    }

    /// What a tool is for.
    pub fn description(self) -> (description: String)
        ensures
            description@ == self.described(),
    {
        match self {
            ToolKind::ProjectRegister => "Register one explicit project.".to_owned(),
            ToolKind::ProjectGet => "Inspect one registered project.".to_owned(),
            ToolKind::ProjectList => "List registered projects.".to_owned(),
            ToolKind::OperationStart => "Start one new or exact-resume review.".to_owned(),
            ToolKind::OperationGet => "Inspect one operation.".to_owned(),
            ToolKind::OperationWait => "Wait for current or terminal operation state.".to_owned(),
            ToolKind::OperationCancel => "Request direct-child cancellation and observe its terminal state.".to_owned(),
            ToolKind::OperationDiagnostics => "Read durable one-shot diagnostics after a cursor.".to_owned(),
            ToolKind::ConversationStart => joined3(
                "Start one persistent structured ",
                PROVIDER,
                " conversation.",
            ),
            ToolKind::ConversationSend => "Durably submit one caller-identified turn to a live conversation.".to_owned(),
            ToolKind::ConversationWait => "Read durable conversation events after a cursor.".to_owned(),
            ToolKind::ConversationStop => "Close or cancel one live conversation.".to_owned(),
            ToolKind::SessionInventory => "List successful operator-owned target-session evidence.".to_owned(),
            ToolKind::SessionInspect => "Inspect qualifying evidence for one exact target session.".to_owned(),
            ToolKind::InitiatorBindingRegister => "Bind one explicit initiator identity to one evidenced target session.".to_owned(),
            ToolKind::SessionDecide => "Return a pure exact-session continuation decision.".to_owned(),
        }
    }
}

/// The tools in the order in which they are listed.
pub open spec fn listed_tools() -> Seq<ToolKind> {
    seq![
        ToolKind::ProjectRegister,
        ToolKind::ProjectGet,
        ToolKind::ProjectList,
        ToolKind::OperationStart,
        ToolKind::OperationGet,
        ToolKind::OperationWait,
        ToolKind::OperationCancel,
        ToolKind::OperationDiagnostics,
        ToolKind::ConversationStart,
        ToolKind::ConversationSend,
        ToolKind::ConversationWait,
        ToolKind::ConversationStop,
        ToolKind::SessionInventory,
        ToolKind::SessionInspect,
        ToolKind::InitiatorBindingRegister,
        ToolKind::SessionDecide,
    ]
}

/// Lists the tools.
pub fn tools() -> (tools: Vec<ToolKind>)
    ensures
        tools@ == listed_tools(),
{
    let tools = vec![
        ToolKind::ProjectRegister,
        ToolKind::ProjectGet,
        ToolKind::ProjectList,
        ToolKind::OperationStart,
        ToolKind::OperationGet,
        ToolKind::OperationWait,
        ToolKind::OperationCancel,
        ToolKind::OperationDiagnostics,
        ToolKind::ConversationStart,
        ToolKind::ConversationSend,
        ToolKind::ConversationWait,
        ToolKind::ConversationStop,
        ToolKind::SessionInventory,
        ToolKind::SessionInspect,
        ToolKind::InitiatorBindingRegister,
        ToolKind::SessionDecide,
    ];
    proof {
        assert(tools@ =~= listed_tools());
    }
    tools
}

/// A call of a tool with its decoded arguments.
#[derive(Debug, PartialEq, Eq)]
pub enum ToolCall {
    ProjectRegister(ProjectRegisterInput),
    ProjectGet(ProjectGetInput),
    /// The number of arguments, where there are any.
    ProjectList { arguments: Option<usize> },
    OperationStart(OperationStartInput),
    OperationGet(OperationGetInput),
    OperationWait(OperationWaitInput),
    OperationCancel(OperationCancelInput),
    OperationDiagnostics(OperationDiagnosticsInput),
    ConversationStart(ConversationStartInput),
    ConversationSend(ConversationSendInput),
    ConversationWait(ConversationWaitInput),
    ConversationStop(ConversationStopInput),
    SessionInventory(SessionInventoryInput),
    SessionInspect(SessionInspectInput),
    InitiatorBindingRegister(InitiatorBindingRegisterInput),
    SessionDecide(SessionDecideInput),
}

/// The mathematical content of [`ToolCall`].
#[verifier::ext_equal]
pub enum ToolCallView {
    ProjectRegister(ProjectRegisterInputView),
    ProjectGet(ProjectGetInputView),
    ProjectList { arguments: Option<usize> },
    OperationStart(OperationStartInputView),
    OperationGet(OperationGetInputView),
    OperationWait(OperationWaitInputView),
    OperationCancel(OperationCancelInputView),
    OperationDiagnostics(OperationDiagnosticsInputView),
    ConversationStart(ConversationStartInputView),
    ConversationSend(ConversationSendInputView),
    ConversationWait(ConversationWaitInputView),
    ConversationStop(ConversationStopInputView),
    SessionInventory(SessionInventoryInputView),
    SessionInspect(SessionInspectInputView),
    InitiatorBindingRegister(InitiatorBindingRegisterInputView),
    SessionDecide(SessionDecideInputView),
}

impl View for ToolCall {
    type V = ToolCallView;

    open spec fn view(&self) -> ToolCallView {
        match *self {
            ToolCall::ProjectRegister(value) => ToolCallView::ProjectRegister(value@),
            ToolCall::ProjectGet(value) => ToolCallView::ProjectGet(value@),
            ToolCall::ProjectList { arguments } => ToolCallView::ProjectList {
                arguments,
            },
            ToolCall::OperationStart(value) => ToolCallView::OperationStart(value@),
            ToolCall::OperationGet(value) => ToolCallView::OperationGet(value@),
            ToolCall::OperationWait(value) => ToolCallView::OperationWait(value@),
            ToolCall::OperationCancel(value) => ToolCallView::OperationCancel(value@),
            ToolCall::OperationDiagnostics(value) => ToolCallView::OperationDiagnostics(value@),
            ToolCall::ConversationStart(value) => ToolCallView::ConversationStart(value@),
            ToolCall::ConversationSend(value) => ToolCallView::ConversationSend(value@),
            ToolCall::ConversationWait(value) => ToolCallView::ConversationWait(value@),
            ToolCall::ConversationStop(value) => ToolCallView::ConversationStop(value@),
            ToolCall::SessionInventory(value) => ToolCallView::SessionInventory(value@),
            ToolCall::SessionInspect(value) => ToolCallView::SessionInspect(value@),
            ToolCall::InitiatorBindingRegister(value) => ToolCallView::InitiatorBindingRegister(value@),
            ToolCall::SessionDecide(value) => ToolCallView::SessionDecide(value@),
        }
    }
}

/// The gateway of one initiator, which knows where the daemon listens.
pub struct McpGateway {
    endpoint: String,
}

impl View for McpGateway {
    type V = Seq<char>;

    closed spec fn view(&self) -> Seq<char> {
        self.endpoint@
    }
}

impl McpGateway {
    /// A gateway to the daemon at an endpoint.
    pub fn new(endpoint: String) -> (gateway: Self)
        ensures
            gateway@ == endpoint@,
    {
        McpGateway { endpoint }
    }

    /// Where the daemon listens.
    pub fn endpoint(&self) -> (endpoint: &str)
        ensures
            endpoint@ == self@,
    {
        self.endpoint.as_str()
    }
}

/// What reading an argument as a UUID yields.
pub open spec fn uuid_named(value: Seq<char>, field: Seq<char>) -> Result<u128, GatewayErrorView> {
    match uuid_parsed(value) {
        Ok(parsed) => Ok(parsed),
        Err(error) => Err(refused_arguments(field + " was not a UUID: "@ + error)),
    }
}

/// Refuses an argument that was read as no UUID.
pub fn uuid_or_refusal(parsed: Result<u128, String>, field: &str) -> (uuid: Result<
    u128,
    GatewayError,
>)
    ensures
        match parsed {
            Ok(value) => uuid matches Ok(told) && told == value,
            Err(error) => uuid matches Err(refusal) && refusal@ == refused_arguments(
                field@ + " was not a UUID: "@ + error@,
            ),
        },
{
    match parsed {
        Ok(value) => Ok(value),
        Err(error) => Err(
            GatewayError::invalid(joined3(field, " was not a UUID: ", error.as_str())),
        ),
    }
}

/// Reads an argument as a UUID.
pub fn parse_uuid(value: &str, field: &str) -> (parsed: Result<u128, GatewayError>)
    ensures
        match parsed {
            Ok(uuid) => uuid_named(value@, field@) == Ok::<_, GatewayErrorView>(uuid),
            Err(error) => uuid_named(value@, field@) == Err::<u128, _>(error@),
        },
{
    uuid_or_refusal(crate::identifier::parse_uuid(value), field)
}

/// What reading an argument as the name of a project yields.
pub open spec fn project_named(value: Seq<char>) -> Result<Seq<char>, GatewayErrorView> {
    if value.len() == 0 {
        Err(refused_arguments("invalid request: project_id must not be empty"@))
    } else {
        Ok(value)
    }
}

/// Reads an argument as the name of a project.
pub fn project_id(value: String) -> (project: Result<ProjectId, GatewayError>)
    ensures
        projected(project) == project_named(value@),
{
    proof {
        reveal_strlit("invalid request: ");
        reveal_strlit("project_id must not be empty");
        reveal_strlit("invalid request: project_id must not be empty");
        assert("invalid request: "@ + "project_id must not be empty"@
            =~= "invalid request: project_id must not be empty"@);
    }
    match ProjectId::new(value) {
        Ok(project) => Ok(project),
        Err(error) => Err(GatewayError::invalid(error.to_text())),
    }
}

/// Maps the profile of a review.
pub fn review_profile(value: McpReviewProfile) -> (profile: ReviewProfile)
    ensures
        profile == ReviewProfile::OpusReadOnly,
{
    match value {
        McpReviewProfile::OpusReadOnly => ReviewProfile::OpusReadOnly,
    }
}

/// Refuses arguments where a tool takes none; the number of arguments is given where there are
/// any.
pub fn empty(arguments: Option<usize>) -> (accepted: Result<(), GatewayError>)
    ensures
        match accepted {
            Ok(()) => arguments is None || arguments == Some(0usize),
            Err(error) => arguments is Some && arguments != Some(0usize) && error@
                == refused_arguments("project_list does not accept arguments"@),
        },
{
    match arguments {
        None => Ok(()),
        Some(count) => {
            if count == 0 {
                Ok(())
            } else {
                Err(GatewayError::invalid("project_list does not accept arguments".to_owned()))
            }
        },
    }
}

/// Refuses a call whose arguments are missing or could not be decoded.
pub fn undecoded(failure: Option<String>) -> (error: GatewayError)
    ensures
        error@ == (match failure {
            None => refused_arguments("tool arguments are required"@),
            Some(message) => refused_arguments("tool arguments were invalid: "@ + message@),
        }),
{
    match failure {
        None => GatewayError::invalid("tool arguments are required".to_owned()),
        Some(message) => GatewayError::invalid(
            crate::text::joined("tool arguments were invalid: ", message.as_str()),
        ),
    }
}

/// What reading an intent yields.
pub open spec fn intent_named(input: McpIntentView) -> Result<OperationIntent, GatewayErrorView> {
    match input {
        McpIntentView::New => Ok(OperationIntent::New),
        McpIntentView::ResumeExact { session_id } => match uuid_named(session_id, "session_id"@) {
            Err(error) => Err(error),
            Ok(session) => Ok(OperationIntent::ResumeExact { session_id: SessionId(session) }),
        },
    }
}

/// Reads an intent.
pub fn mcp_intent(input: McpIntent) -> (intent: Result<OperationIntent, GatewayError>)
    ensures
        match intent {
            Ok(intent) => intent_named(input@) == Ok::<_, GatewayErrorView>(intent),
            Err(error) => intent_named(input@) == Err::<OperationIntent, _>(error@),
        },
{
    match input {
        McpIntent::New => Ok(OperationIntent::New),
        McpIntent::ResumeExact { session_id } => match parse_uuid(
            session_id.as_str(),
            "session_id",
        ) {
            Err(error) => Err(error),
            Ok(session) => Ok(
                OperationIntent::ResumeExact { session_id: SessionId::new_exact(session) },
            ),
        },
    }
}

/// The request of `project_register`.
pub open spec fn registration_requested(input: ProjectRegisterInputView) -> Result<
    DaemonRequestView,
    GatewayErrorView,
> {
    match project_named(input.project_id) {
        Err(error) => Err(error),
        Ok(project_id) => Ok(
            DaemonRequestView::ProjectRegister(
                ProjectRegistrationView {
                    project_id,
                    working_directory: input.working_directory,
                    claude_executable: input.claude_executable,
                    expected_opus_model: input.expected_opus_model,
                },
            ),
        ),
    }
}

/// Makes the request of `project_register`.
pub fn register(input: ProjectRegisterInput) -> (request: Result<DaemonRequest, GatewayError>)
    ensures
        projected(request) == registration_requested(input@),
{
    match project_id(input.project_id) {
        Err(error) => Err(error),
        Ok(project_id) => Ok(
            DaemonRequest::ProjectRegister(
                ProjectRegistration {
                    project_id,
                    working_directory: input.working_directory,
                    claude_executable: input.claude_executable,
                    expected_opus_model: input.expected_opus_model,
                },
            ),
        ),
    }
}

/// The request of `project_get`.
pub open spec fn project_requested(input: ProjectGetInputView) -> Result<
    DaemonRequestView,
    GatewayErrorView,
> {
    match project_named(input.project_id) {
        Err(error) => Err(error),
        Ok(project_id) => Ok(DaemonRequestView::ProjectGet { project_id }),
    }
}

/// Makes the request of `project_get`.
pub fn get_project(input: ProjectGetInput) -> (request: Result<DaemonRequest, GatewayError>)
    ensures
        projected(request) == project_requested(input@),
{
    match project_id(input.project_id) {
        Err(error) => Err(error),
        Ok(project_id) => Ok(DaemonRequest::ProjectGet { project_id }),
    }
}

/// The request of `operation_get`.
pub open spec fn operation_inspected(input: OperationGetInputView) -> Result<
    DaemonRequestView,
    GatewayErrorView,
> {
    match uuid_named(input.operation_id, "operation_id"@) {
        Err(error) => Err(error),
        Ok(uuid) => Ok(DaemonRequestView::OperationGet { operation_id: OperationId(uuid) }),
    }
}

/// Makes the request of `operation_get`.
pub fn get_operation(input: OperationGetInput) -> (request: Result<DaemonRequest, GatewayError>)
    ensures
        projected(request) == operation_inspected(input@),
{
    match parse_uuid(input.operation_id.as_str(), "operation_id") {
        Err(error) => Err(error),
        Ok(uuid) => Ok(DaemonRequest::OperationGet { operation_id: OperationId::new_exact(uuid) }),
    }
}

/// The request of `operation_wait`.
pub open spec fn operation_awaited(input: OperationWaitInputView) -> Result<
    DaemonRequestView,
    GatewayErrorView,
> {
    match uuid_named(input.operation_id, "operation_id"@) {
        Err(error) => Err(error),
        Ok(uuid) => Ok(
            DaemonRequestView::OperationWait {
                operation_id: OperationId(uuid),
                wait_millis: input.wait_millis,
            },
        ),
    }
}

/// Makes the request of `operation_wait`.
pub fn wait_operation(input: OperationWaitInput) -> (request: Result<DaemonRequest, GatewayError>)
    ensures
        projected(request) == operation_awaited(input@),
{
    match parse_uuid(input.operation_id.as_str(), "operation_id") {
        Err(error) => Err(error),
        Ok(uuid) => Ok(
            DaemonRequest::OperationWait {
                operation_id: OperationId::new_exact(uuid),
                wait_millis: input.wait_millis,
            },
        ),
    }
}

/// The request of `operation_cancel`.
pub open spec fn operation_cancelled(input: OperationCancelInputView) -> Result<
    DaemonRequestView,
    GatewayErrorView,
> {
    match uuid_named(input.operation_id, "operation_id"@) {
        Err(error) => Err(error),
        Ok(uuid) => Ok(DaemonRequestView::OperationCancel { operation_id: OperationId(uuid) }),
    }
}

/// Makes the request of `operation_cancel`.
pub fn cancel_operation(input: OperationCancelInput) -> (request: Result<
    DaemonRequest,
    GatewayError,
>)
    ensures
        projected(request) == operation_cancelled(input@),
{
    match parse_uuid(input.operation_id.as_str(), "operation_id") {
        Err(error) => Err(error),
        Ok(uuid) => Ok(
            DaemonRequest::OperationCancel { operation_id: OperationId::new_exact(uuid) },
        ),
    }
}

/// The request of `operation_diagnostics`.
pub open spec fn diagnostics_requested(input: OperationDiagnosticsInputView) -> Result<
    DaemonRequestView,
    GatewayErrorView,
> {
    match uuid_named(input.operation_id, "operation_id"@) {
        Err(error) => Err(error),
        Ok(uuid) => Ok(
            DaemonRequestView::OperationDiagnostics(
                OperationDiagnosticsRequest {
                    operation_id: OperationId(uuid),
                    after_diagnostic_sequence: input.after_diagnostic_sequence,
                    wait_millis: input.wait_millis,
                },
            ),
        ),
    }
}

/// Makes the request of `operation_diagnostics`.
pub fn operation_diagnostics(input: OperationDiagnosticsInput) -> (request: Result<
    DaemonRequest,
    GatewayError,
>)
    ensures
        projected(request) == diagnostics_requested(input@),
{
    match parse_uuid(input.operation_id.as_str(), "operation_id") {
        Err(error) => Err(error),
        Ok(uuid) => Ok(
            DaemonRequest::OperationDiagnostics(
                OperationDiagnosticsRequest {
                    operation_id: OperationId::new_exact(uuid),
                    after_diagnostic_sequence: input.after_diagnostic_sequence,
                    wait_millis: input.wait_millis,
                },
            ),
        ),
    }
}

/// The request of `operation_start`. The arguments are read in the order request, project, intent.
pub open spec fn operation_requested(input: OperationStartInputView) -> Result<
    DaemonRequestView,
    GatewayErrorView,
> {
    match uuid_named(input.request_id, "request_id"@) {
        Err(error) => Err(error),
        Ok(request) => match project_named(input.project_id) {
            Err(error) => Err(error),
            Ok(project_id) => match intent_named(input.intent) {
                Err(error) => Err(error),
                Ok(intent) => Ok(
                    DaemonRequestView::OperationStart(
                        OperationStartView {
                            request_id: RequestId(request),
                            project_id,
                            intent,
                            prompt: input.prompt,
                            review_profile: ReviewProfile::OpusReadOnly,
                        },
                    ),
                ),
            },
        },
    }
}

/// Makes the request of `operation_start`.
pub fn start(input: OperationStartInput) -> (request: Result<DaemonRequest, GatewayError>)
    ensures
        projected(request) == operation_requested(input@),
{
    let request = match parse_uuid(input.request_id.as_str(), "request_id") {
        Ok(request) => request,
        Err(error) => {
            return Err(error);
        },
    };
    let project_id = match project_id(input.project_id) {
        Ok(project_id) => project_id,
        Err(error) => {
            return Err(error);
        },
    };
    match mcp_intent(input.intent) {
        Err(error) => Err(error),
        Ok(intent) => Ok(
            DaemonRequest::OperationStart(
                OperationStart {
                    request_id: RequestId::new(request),
                    project_id,
                    intent,
                    prompt: input.prompt,
                    review_profile: review_profile(input.review_profile),
                },
            ),
        ),
    }
}

/// The request of `conversation_start`. The arguments are read in the order request, project,
/// intent, turn.
pub open spec fn conversation_requested(input: ConversationStartInputView) -> Result<
    DaemonRequestView,
    GatewayErrorView,
> {
    match uuid_named(input.request_id, "request_id"@) {
        Err(error) => Err(error),
        Ok(request) => match project_named(input.project_id) {
            Err(error) => Err(error),
            Ok(project_id) => match intent_named(input.intent) {
                Err(error) => Err(error),
                Ok(intent) => match uuid_named(input.turn_id, "turn_id"@) {
                    Err(error) => Err(error),
                    Ok(turn) => Ok(
                        DaemonRequestView::ConversationStart(
                            ConversationStartView {
                                request_id: RequestId(request),
                                project_id,
                                intent,
                                turn_id: TurnId(turn),
                                prompt: input.prompt,
                                review_profile: ReviewProfile::OpusReadOnly,
                            },
                        ),
                    ),
                },
            },
        },
    }
}

/// Makes the request of `conversation_start`.
pub fn conversation_start(input: ConversationStartInput) -> (request: Result<
    DaemonRequest,
    GatewayError,
>)
    ensures
        projected(request) == conversation_requested(input@),
{
    let request = match parse_uuid(input.request_id.as_str(), "request_id") {
        Ok(request) => request,
        Err(error) => {
            return Err(error);
        },
    };
    let project_id = match project_id(input.project_id) {
        Ok(project_id) => project_id,
        Err(error) => {
            return Err(error);
        },
    };
    let intent = match mcp_intent(input.intent) {
        Ok(intent) => intent,
        Err(error) => {
            return Err(error);
        },
    };
    match parse_uuid(input.turn_id.as_str(), "turn_id") {
        Err(error) => Err(error),
        Ok(turn) => Ok(
            DaemonRequest::ConversationStart(
                ConversationStart {
                    request_id: RequestId::new(request),
                    project_id,
                    intent,
                    turn_id: TurnId::new(turn),
                    prompt: input.prompt,
                    review_profile: review_profile(input.review_profile),
                },
            ),
        ),
    }
}

/// What reading an argument as a conversation yields.
pub open spec fn conversation_named(value: Seq<char>) -> Result<ConversationId, GatewayErrorView> {
    match uuid_named(value, "conversation_id"@) {
        Err(error) => Err(error),
        Ok(uuid) => Ok(ConversationId(OperationId(uuid))),
    }
}

/// Reads an argument as a conversation.
pub fn conversation_id(value: &str) -> (conversation: Result<ConversationId, GatewayError>)
    ensures
        match conversation {
            Ok(id) => conversation_named(value@) == Ok::<_, GatewayErrorView>(id),
            Err(error) => conversation_named(value@) == Err::<ConversationId, _>(error@),
        },
{
    match parse_uuid(value, "conversation_id") {
        Err(error) => Err(error),
        Ok(uuid) => Ok(ConversationId::new(OperationId::new_exact(uuid))),
    }
}

/// The request of `conversation_send`.
pub open spec fn turn_requested(input: ConversationSendInputView) -> Result<
    DaemonRequestView,
    GatewayErrorView,
> {
    match conversation_named(input.conversation_id) {
        Err(error) => Err(error),
        Ok(conversation_id) => match uuid_named(input.turn_id, "turn_id"@) {
            Err(error) => Err(error),
            Ok(turn) => Ok(
                DaemonRequestView::ConversationSend(
                    ConversationSendView {
                        conversation_id,
                        turn_id: TurnId(turn),
                        prompt: input.prompt,
                    },
                ),
            ),
        },
    }
}

/// Makes the request of `conversation_send`.
pub fn conversation_send(input: ConversationSendInput) -> (request: Result<
    DaemonRequest,
    GatewayError,
>)
    ensures
        projected(request) == turn_requested(input@),
{
    let conversation_id = match conversation_id(input.conversation_id.as_str()) {
        Ok(conversation_id) => conversation_id,
        Err(error) => {
            return Err(error);
        },
    };
    match parse_uuid(input.turn_id.as_str(), "turn_id") {
        Err(error) => Err(error),
        Ok(turn) => Ok(
            DaemonRequest::ConversationSend(
                ConversationSend {
                    conversation_id,
                    turn_id: TurnId::new(turn),
                    prompt: input.prompt,
                },
            ),
        ),
    }
}

/// The request of `conversation_wait`.
pub open spec fn conversation_awaited(input: ConversationWaitInputView) -> Result<
    DaemonRequestView,
    GatewayErrorView,
> {
    match conversation_named(input.conversation_id) {
        Err(error) => Err(error),
        Ok(conversation_id) => Ok(
            DaemonRequestView::ConversationWait(
                ConversationWait {
                    conversation_id,
                    after_sequence: input.after_sequence,
                    wait_millis: input.wait_millis,
                },
            ),
        ),
    }
}

/// Makes the request of `conversation_wait`.
pub fn conversation_wait(input: ConversationWaitInput) -> (request: Result<
    DaemonRequest,
    GatewayError,
>)
    ensures
        projected(request) == conversation_awaited(input@),
{
    match conversation_id(input.conversation_id.as_str()) {
        Err(error) => Err(error),
        Ok(conversation_id) => Ok(
            DaemonRequest::ConversationWait(
                ConversationWait {
                    conversation_id,
                    after_sequence: input.after_sequence,
                    wait_millis: input.wait_millis,
                },
            ),
        ),
    }
}

/// The request of `conversation_stop`.
pub open spec fn conversation_stopped(input: ConversationStopInputView) -> Result<
    DaemonRequestView,
    GatewayErrorView,
> {
    match conversation_named(input.conversation_id) {
        Err(error) => Err(error),
        Ok(conversation_id) => Ok(
            DaemonRequestView::ConversationStop {
                conversation_id,
                mode: match input.mode {
                    McpConversationStopMode::Graceful => ConversationStopMode::Graceful,
                    McpConversationStopMode::Cancel => ConversationStopMode::Cancel,
                },
            },
        ),
    }
}

/// Makes the request of `conversation_stop`.
pub fn conversation_stop(input: ConversationStopInput) -> (request: Result<
    DaemonRequest,
    GatewayError,
>)
    ensures
        projected(request) == conversation_stopped(input@),
{
    match conversation_id(input.conversation_id.as_str()) {
        Err(error) => Err(error),
        Ok(conversation_id) => Ok(
            DaemonRequest::ConversationStop {
                conversation_id,
                mode: match input.mode {
                    McpConversationStopMode::Graceful => ConversationStopMode::Graceful,
                    McpConversationStopMode::Cancel => ConversationStopMode::Cancel,
                },
            },
        ),
    }
}

/// The daemon request of a tool call.
pub open spec fn call_requested(call: ToolCallView) -> Result<DaemonRequestView, GatewayErrorView> {
    match call {
        ToolCallView::ProjectList { arguments } => if arguments is None || arguments == Some(
            0usize,
        ) {
            Ok(DaemonRequestView::ProjectList)
        } else {
            Err(refused_arguments("project_list does not accept arguments"@))
        },
        ToolCallView::ProjectRegister(input) => registration_requested(input),
        ToolCallView::ProjectGet(input) => project_requested(input),
        ToolCallView::OperationStart(input) => operation_requested(input),
        ToolCallView::OperationGet(input) => operation_inspected(input),
        ToolCallView::OperationWait(input) => operation_awaited(input),
        ToolCallView::OperationCancel(input) => operation_cancelled(input),
        ToolCallView::OperationDiagnostics(input) => diagnostics_requested(input),
        ToolCallView::ConversationStart(input) => conversation_requested(input),
        ToolCallView::ConversationSend(input) => turn_requested(input),
        ToolCallView::ConversationWait(input) => conversation_awaited(input),
        ToolCallView::ConversationStop(input) => conversation_stopped(input),
        ToolCallView::SessionInventory(input) => inventory_requested(input),
        ToolCallView::SessionInspect(input) => inspection_requested(input),
        ToolCallView::InitiatorBindingRegister(input) => binding_requested(input),
        ToolCallView::SessionDecide(input) => decision_requested(input),
    }
}

/// Makes the daemon request of a tool call.
pub fn dispatch(call: ToolCall) -> (request: Result<DaemonRequest, GatewayError>)
    ensures
        projected(request) == call_requested(call@),
{
    match call {
        ToolCall::ProjectList { arguments } => match empty(arguments) {
            Ok(()) => Ok(DaemonRequest::ProjectList),
            Err(error) => Err(error),
        },
        ToolCall::ProjectRegister(input) => register(input),
        ToolCall::ProjectGet(input) => get_project(input),
        ToolCall::OperationStart(input) => start(input),
        ToolCall::OperationGet(input) => get_operation(input),
        ToolCall::OperationWait(input) => wait_operation(input),
        ToolCall::OperationCancel(input) => cancel_operation(input),
        ToolCall::OperationDiagnostics(input) => operation_diagnostics(input),
        ToolCall::ConversationStart(input) => conversation_start(input),
        ToolCall::ConversationSend(input) => conversation_send(input),
        ToolCall::ConversationWait(input) => conversation_wait(input),
        ToolCall::ConversationStop(input) => conversation_stop(input),
        ToolCall::SessionInventory(input) => session::inventory(input),
        ToolCall::SessionInspect(input) => session::inspect(input),
        ToolCall::InitiatorBindingRegister(input) => session::register(input),
        ToolCall::SessionDecide(input) => session::decide(input),
    }
}

/// Finds the tool that is called by a name.
pub fn tool_named(name: &str) -> (found: Result<ToolKind, GatewayError>)
    ensures
        match found {
            Ok(tool) => name@ == tool.called(),
            Err(error) => (forall|tool: ToolKind| name@ != #[trigger] tool.called()) && error@
                == refused_arguments("unknown aiop tool"@),
        },
{
    if same_text(name, "project_register") {
        Ok(ToolKind::ProjectRegister)
    } else if same_text(name, "project_get") {
        Ok(ToolKind::ProjectGet)
    } else if same_text(name, "project_list") {
        Ok(ToolKind::ProjectList)
    } else if same_text(name, "operation_start") {
        Ok(ToolKind::OperationStart)
    } else if same_text(name, "operation_get") {
        Ok(ToolKind::OperationGet)
    } else if same_text(name, "operation_wait") {
        Ok(ToolKind::OperationWait)
    } else if same_text(name, "operation_cancel") {
        Ok(ToolKind::OperationCancel)
    } else if same_text(name, "operation_diagnostics") {
        Ok(ToolKind::OperationDiagnostics)
    } else if same_text(name, "conversation_start") {
        Ok(ToolKind::ConversationStart)
    } else if same_text(name, "conversation_send") {
        Ok(ToolKind::ConversationSend)
    } else if same_text(name, "conversation_wait") {
        Ok(ToolKind::ConversationWait)
    } else if same_text(name, "conversation_stop") {
        Ok(ToolKind::ConversationStop)
    } else if same_text(name, "session_inventory") {
        Ok(ToolKind::SessionInventory)
    } else if same_text(name, "session_inspect") {
        Ok(ToolKind::SessionInspect)
    } else if same_text(name, "initiator_binding_register") {
        Ok(ToolKind::InitiatorBindingRegister)
    } else if same_text(name, "session_decide") {
        Ok(ToolKind::SessionDecide)
    } else {
        Err(GatewayError::invalid("unknown aiop tool".to_owned()))
    }
}

/// Every tool is listed, and no two tools answer to the same name.
pub proof fn tools_answer_to_their_own_names(left: ToolKind, right: ToolKind)
    ensures
        listed_tools().contains(left),
        left.called() == right.called() ==> left == right,
{
    reveal_strlit("project_register");
    reveal_strlit("project_get");
    reveal_strlit("project_list");
    reveal_strlit("operation_start");
    reveal_strlit("operation_get");
    reveal_strlit("operation_wait");
    reveal_strlit("operation_cancel");
    reveal_strlit("operation_diagnostics");
    reveal_strlit("conversation_start");
    reveal_strlit("conversation_send");
    reveal_strlit("conversation_wait");
    reveal_strlit("conversation_stop");
    reveal_strlit("session_inventory");
    reveal_strlit("session_inspect");
    reveal_strlit("initiator_binding_register");
    reveal_strlit("session_decide");
    if left.called() == right.called() {
        assert(left.called().len() == right.called().len());
        assert(left.called()[0] == right.called()[0]);
        assert(left.called()[13] == right.called()[13]);
        assert(left.called()[14] == right.called()[14]);
    }
    match left {
        ToolKind::ProjectRegister => assert(listed_tools()[0] == left),
        ToolKind::ProjectGet => assert(listed_tools()[1] == left),
        ToolKind::ProjectList => assert(listed_tools()[2] == left),
        ToolKind::OperationStart => assert(listed_tools()[3] == left),
        ToolKind::OperationGet => assert(listed_tools()[4] == left),
        ToolKind::OperationWait => assert(listed_tools()[5] == left),
        ToolKind::OperationCancel => assert(listed_tools()[6] == left),
        ToolKind::OperationDiagnostics => assert(listed_tools()[7] == left),
        ToolKind::ConversationStart => assert(listed_tools()[8] == left),
        ToolKind::ConversationSend => assert(listed_tools()[9] == left),
        ToolKind::ConversationWait => assert(listed_tools()[10] == left),
        ToolKind::ConversationStop => assert(listed_tools()[11] == left),
        ToolKind::SessionInventory => assert(listed_tools()[12] == left),
        ToolKind::SessionInspect => assert(listed_tools()[13] == left),
        ToolKind::InitiatorBindingRegister => assert(listed_tools()[14] == left),
        ToolKind::SessionDecide => assert(listed_tools()[15] == left),
    }
}

} // verus!
