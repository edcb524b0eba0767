//! The operator as a whole: durable state, Control, and a deterministic target that plays in place.

use std::cell::{Cell, RefCell};
use std::rc::Rc;

use aiop::contract::control::{
    BindingPersistence, BindingRegistrationStatus, Conversation,
    ConversationCloseAdmission, ConversationEvent, ConversationEventPayload, ConversationSend,
    ConversationSnapshot, ConversationStart, ConversationStartAdmission, ConversationState,
    ConversationStopMode, ConversationTurnAdmission, ConversationTurnObservation,
    ConversationWait, DaemonRequest, DaemonResponse, InitiatorBinding, InitiatorBindingRequest,
    InitiatorIdentity, Operation, OperationAdmission, OperationDiagnostic,
    OperationDiagnosticPayload, OperationDiagnostics, OperationDiagnosticsRequest,
    OperationIntent, OperationStart, OperationState, OperatorError, ProjectRegistration,
    ReviewProfile, SessionClaimDisposition, SessionContinuity, SessionDecision,
    SessionDecisionEvidence, SessionDecisionRequest, SessionEvidence, SessionInspectRequest,
    SessionInventoryRequest, SessionRefusalReason, TerminalOutcome, TurnState,
};
use aiop::contract::identity::{
    ConversationId, InitiatorAgentIdentity, InitiatorSessionIdentity, OperationId, ProjectId,
    RequestId, RoleIdentity, SessionId, SubjectIdentity, TaskIdentity, TurnId,
};
use aiop::contract::target::{
    TargetCommand, TargetIntent, TargetLaunch, TargetLiveObservation, TargetLiveStart,
    TargetLiveStartError, TargetLiveStop, TargetLiveTurn, TargetOperationId, TargetOutcome,
    TargetSessionId, TargetSuccess, TargetTurnId, PROVIDER,
};
use aiop::control::conversation::{LivePlan, SendPlan, StopPlan, self};
use aiop::control::diagnostic;
use aiop::control::dispatch::{Handling, OperationControl};
use aiop::control::live::{LiveEvent, LiveStep, SendEvent, SendStep, StopEvent, StopStep, self};
use aiop::control::operation::{CancelPlan, StartEvent, StartStep, self};
use aiop::control::recorder::{RecorderEvent, RecorderStep, self};
use aiop::control::runtime::CancellationOutcome;
use aiop::control::session_writer;
use aiop::control::worker::{WorkerEvent, WorkerStep, self};
use aiop::fixture::{live as fixture_live, review as fixture_review};
use aiop::fixture::invocation::{Invocation, LiveInvocation, LiveTurn};
use aiop::fixture::prompt::{
    PromptStart, begin_prompt, finish_prompt, required_prefix,
};
use aiop::fixture::script::{Action, Exit, Script, split_point};
use aiop::gateway::client::{Exchange, self};
use aiop::gateway::error::GatewayError;
use aiop::gateway::mcp::{
    ConversationSendInput, ConversationStartInput, ConversationStopInput, ConversationWaitInput,
    McpConversationStopMode, McpIntent, McpReviewProfile, OperationDiagnosticsInput,
    OperationStartInput, OperationWaitInput, ProjectRegisterInput, ToolCall, ToolKind, dispatch,
    tool_named, tools, undecoded,
};
use aiop::gateway::session::{
    InitiatorBindingRegisterInput, McpSessionContinuity, SessionDecideInput, SessionInspectInput,
    SessionInventoryInput,
};
use aiop::json::{Json, try_write_json};
use aiop::state::decision::Decided;
use aiop::state::tables::{Change, OperationRecord, Tables};
use aiop::target::command::{build, build_live};
use aiop::target::conversation::{
    CleanupMode, LiveAdmission, ObserverEvent, ObserverStep, cleanup, close_delivered,
    consume_output, consume_report, observe,
};
use aiop::target::conversation_codec::{Codec, CodecError};
use aiop::target::conversation_input::{InputQueue, InputStep, WriterCommand, WriterReport, encode};
use aiop::target::execution::{PromptInput, ReviewEvent, ReviewFailures, ReviewStep, self};
use aiop::target::live_start::{LiveStartEvent, LiveStartStep, self};
use aiop::target::output::OutputBuffer;
use aiop::target::stream::Evidence;
use aiop::target::watch::{WatchEvent, WatchStep, self};

/// The executable that is not there.
const MISSING: &str = "/not-a-real-executable";

fn fresh() -> u128 {
    OperationId::new().value()
}

fn fresh_text() -> String {
    OperationId::new().to_text()
}

/// The durable state, as the operator and a test see it.
#[derive(Clone)]
struct State {
    tables: Rc<RefCell<Tables>>,
    fail_terminal_once: Rc<Cell<bool>>,
}

impl State {
    fn open() -> State {
        State {
            tables: Rc::new(RefCell::new(Tables::new())),
            fail_terminal_once: Rc::new(Cell::new(false)),
        }
    }

    /// The same records after a restart of the daemon.
    fn reopen(self) -> State {
        let changes = self
            .tables
            .borrow()
            .recover_current_daemon_incomplete()
            .expect("interrupted work is recovered");
        self.tables.borrow_mut().commit(&changes);
        State { tables: self.tables, fail_terminal_once: Rc::new(Cell::new(false)) }
    }

    fn contents(&self) -> String {
        format!("{:?}", self.tables.borrow())
    }

    fn written<T>(&self, decided: Result<Decided<T>, OperatorError>) -> Result<T, OperatorError> {
        let decided = decided?;
        self.tables.borrow_mut().commit(&decided.changes);
        Ok(decided.value)
    }

    fn changed(&self, changes: Result<Vec<Change>, OperatorError>) -> Result<(), OperatorError> {
        let changes = changes?;
        self.tables.borrow_mut().commit(&changes);
        Ok(())
    }

    fn register_project(
        &self,
        project: ProjectRegistration,
    ) -> Result<ProjectRegistration, OperatorError> {
        let decided = self.tables.borrow().register_project(project);
        self.written(decided)
    }

    fn get_project(&self, project_id: &ProjectId) -> Result<ProjectRegistration, OperatorError> {
        self.tables.borrow().get_project(project_id)
    }

    fn persist_operation_admission(
        &self,
        request: &OperationStart,
        session: SessionId,
        fingerprint: &str,
    ) -> Result<OperationAdmission, OperatorError> {
        let decided =
            self.tables.borrow().persist_operation_admission(request, session, fingerprint);
        self.written(decided)
    }

    fn get_operation(&self, operation_id: OperationId) -> Result<Operation, OperatorError> {
        self.tables.borrow().get_operation(operation_id)
    }

    fn transition(
        &self,
        operation_id: OperationId,
        next: OperationState,
        terminal: Option<TerminalOutcome>,
        session: Option<SessionId>,
        model: Option<String>,
        version: Option<String>,
    ) -> Result<Operation, OperatorError> {
        if next.terminal() && self.fail_terminal_once.replace(false) {
            return Err(OperatorError::State("injected terminal transition failure".to_owned()));
        }
        let decided =
            self.tables.borrow().transition(operation_id, next, terminal, session, model, version);
        self.written(decided)
    }

    fn persist_conversation_start(
        &self,
        request: &ConversationStart,
        session: SessionId,
        fingerprint: &str,
    ) -> Result<ConversationStartAdmission, OperatorError> {
        let decided =
            self.tables.borrow().persist_conversation_start(request, session, fingerprint);
        self.written(decided)
    }

    fn get_conversation(&self, id: ConversationId) -> Result<Conversation, OperatorError> {
        self.tables.borrow().get_conversation(id)
    }

    fn get_conversation_snapshot(
        &self,
        id: ConversationId,
        after_sequence: u64,
    ) -> Result<ConversationSnapshot, OperatorError> {
        self.tables.borrow().get_conversation_snapshot(id, after_sequence)
    }

    fn persist_conversation_turn(
        &self,
        request: &ConversationSend,
        fingerprint: &str,
    ) -> Result<ConversationTurnAdmission, OperatorError> {
        let decided = self.tables.borrow().persist_conversation_turn(request, fingerprint);
        self.written(decided)
    }

    fn record_conversation_turn_observation(
        &self,
        id: ConversationId,
        turn_id: TurnId,
        state: Option<TurnState>,
        result: Option<String>,
        payload: ConversationEventPayload,
    ) -> Result<ConversationTurnObservation, OperatorError> {
        let decided = self
            .tables
            .borrow()
            .record_conversation_turn_observation(id, turn_id, state, result, payload);
        self.written(decided)
    }

    fn record_conversation_initialization(
        &self,
        id: ConversationId,
        session: SessionId,
        model: String,
        version: Option<String>,
    ) -> Result<ConversationEvent, OperatorError> {
        let decided =
            self.tables.borrow().record_conversation_initialization(id, session, model, version);
        self.written(decided)
    }

    fn close_conversation(
        &self,
        id: ConversationId,
        mode: ConversationStopMode,
    ) -> Result<ConversationCloseAdmission, OperatorError> {
        let decided = self.tables.borrow().close_conversation(id, mode);
        self.written(decided)
    }

    fn terminalize_conversation(
        &self,
        id: ConversationId,
        state: ConversationState,
        operation_state: OperationState,
        terminal: TerminalOutcome,
        disposition: SessionClaimDisposition,
    ) -> Result<Conversation, OperatorError> {
        let decided = self.tables.borrow().terminalize_conversation(
            id,
            state,
            operation_state,
            terminal,
            disposition,
        );
        self.written(decided)
    }

    fn list_session_evidence(
        &self,
        project_id: &ProjectId,
    ) -> Result<Vec<SessionEvidence>, OperatorError> {
        Ok(self.tables.borrow().list_session_evidence(project_id))
    }

    fn inspect_session_evidence(
        &self,
        project_id: &ProjectId,
        session: SessionId,
    ) -> Result<Vec<SessionEvidence>, OperatorError> {
        Ok(self.tables.borrow().inspect_session_evidence(project_id, session))
    }

    fn persist_initiator_binding(
        &self,
        binding: &InitiatorBinding,
    ) -> Result<BindingPersistence, OperatorError> {
        let decided = self.tables.borrow().persist_initiator_binding(binding);
        self.written(decided)
    }

    fn get_initiator_binding(
        &self,
        project_id: &ProjectId,
        identity: &InitiatorIdentity,
    ) -> Result<Option<InitiatorBinding>, OperatorError> {
        Ok(self.tables.borrow().get_initiator_binding(project_id, identity))
    }

    fn record_operation_diagnostic(
        &self,
        operation_id: OperationId,
        payload: OperationDiagnosticPayload,
    ) -> Result<OperationDiagnostic, OperatorError> {
        let decided = self.tables.borrow().record_operation_diagnostic(operation_id, payload);
        self.written(decided)
    }

    fn get_operation_diagnostics(
        &self,
        operation_id: OperationId,
        cursor: u64,
    ) -> Result<OperationDiagnostics, OperatorError> {
        self.tables.borrow().get_operation_diagnostics(operation_id, cursor)
    }
}

/// A child process that plays scripts.
struct Child {
    actions: Vec<Action>,
    tail: Vec<u8>,
    exit: Option<bool>,
    ends: bool,
    success: bool,
}

impl Child {
    fn idle() -> Child {
        Child { actions: Vec::new(), tail: Vec::new(), exit: None, ends: false, success: true }
    }

    fn play(script: Script) -> Child {
        let mut child = Child::idle();
        child.follow(script);
        child
    }

    fn follow(&mut self, script: Script) {
        if self.ends {
            return;
        }
        self.actions.extend(script.actions);
        match script.exit {
            Exit::Continue => {}
            Exit::Success => {
                self.ends = true;
            }
            Exit::Failure => {
                self.ends = true;
                self.success = false;
            }
        }
    }

    /// Plays up to the next pause. A pause that was reached before is over.
    fn advance(&mut self, output: &mut OutputBuffer) {
        if self.exit.is_some() {
            return;
        }
        output.receive_stdout(&self.tail);
        self.tail.clear();
        while !self.actions.is_empty() {
            match self.actions.remove(0) {
                Action::Emit(event) => {
                    output.receive_stdout(line(&event).as_bytes());
                    output.receive_stdout(b"\n");
                }
                Action::EmitSplit(event) => {
                    let text = line(&event);
                    let point = split_point(text.as_bytes()).expect("the character is there");
                    output.receive_stdout(&text.as_bytes()[..point]);
                    self.tail = text.as_bytes()[point..].to_vec();
                    self.tail.push(b'\n');
                    return;
                }
                Action::Write(text) => output.receive_stdout(text.as_bytes()),
                Action::Complain(text) => {
                    output.receive_stderr(text.as_bytes());
                    output.receive_stderr(b"\n");
                }
                Action::Sleep { .. } => return,
            }
        }
        if self.ends {
            self.exit = Some(self.success);
        }
    }

    fn kill(&mut self) {
        if self.exit.is_none() {
            self.actions.clear();
            self.tail.clear();
            self.exit = Some(false);
        }
    }
}

fn line(event: &Json) -> String {
    try_write_json(event).expect("the names of the event are in order")
}

/// What stands behind the target of the operator.
enum Provider {
    /// The deterministic target.
    Fixture,
    /// A target that succeeds at once.
    Succeeding { version: Option<String> },
    /// A target that is cancelled before it launches anything, and cannot launch afterwards.
    CancelledBeforeLaunch,
    /// A live target whose input is in doubt.
    Ambiguous,
}

/// The target of the operator.
struct Target {
    provider: Provider,
    invocations: Vec<(Vec<String>, String)>,
    runs: usize,
    lives: Vec<Live>,
    send_attempts: usize,
    cancel_requested: bool,
}

impl Target {
    fn new(provider: Provider) -> Target {
        Target {
            provider,
            invocations: Vec::new(),
            runs: 0,
            lives: Vec::new(),
            send_attempts: 0,
            cancel_requested: false,
        }
    }

    fn spawn(&self, executable: &str) -> Result<(), String> {
        if executable == MISSING {
            Err("configured executable could not start".to_owned())
        } else {
            Ok(())
        }
    }

    fn records(&self) -> Vec<String> {
        self.invocations
            .iter()
            .map(|(arguments, prompt)| {
                let argv = Json::Array(
                    arguments.iter().map(|argument| Json::Text(argument.clone())).collect(),
                );
                line(&Json::object().with("argv", argv).with_text("prompt", prompt))
            })
            .collect()
    }

    fn start_live(&mut self, start: TargetLiveStart) -> Result<(), TargetLiveStartError> {
        self.runs += 1;
        let mut step = live_start::begin(start.first_turn.position);
        loop {
            let event = match &step {
                LiveStartStep::Spawn => LiveStartEvent::Spawned(self.spawn(&start.executable)),
                LiveStartStep::Capture => {
                    LiveStartEvent::Captured { stdin: true, stdout: true, stderr: true }
                }
                LiveStartStep::RegisterChild => LiveStartEvent::ChildRegistered { refusal: None },
                LiveStartStep::RegisterRuntime => LiveStartEvent::RuntimeRegistered(Ok(())),
                LiveStartStep::StartObserver => LiveStartEvent::ObserverStarted(Ok(())),
                LiveStartStep::StartWriter => LiveStartEvent::WriterStarted(Ok(())),
                LiveStartStep::HandOver => LiveStartEvent::HandedOver { received: true },
                LiveStartStep::Started => break,
                LiveStartStep::Refused(error) => return Err(error.clone()),
                other => panic!("nothing else happens in an undisturbed start: {other:?}"),
            };
            step = live_start::advance(step, event);
        }
        self.lives.push(Live {
            admission: LiveAdmission::new(start.first_turn.clone()),
            queue: InputQueue::new(start.first_turn.clone()),
            start,
            permitted: false,
            codec: Codec::new(),
            step: Some(ObserverStep::Consume),
            output: OutputBuffer::new(),
            child: Child::idle(),
            input_closed: false,
            reports: Vec::new(),
            observations: Vec::new(),
        });
        Ok(())
    }

    fn live(&mut self, operation_id: TargetOperationId) -> Option<&mut Live> {
        self.lives.iter_mut().find(|live| live.start.operation_id == operation_id)
    }

    fn grant(&mut self, operation_id: TargetOperationId) {
        if let Some(live) = self.live(operation_id) {
            live.permitted = true;
        }
    }

    fn send_live(
        &mut self,
        operation_id: TargetOperationId,
        turn: TargetLiveTurn,
    ) -> Result<(), String> {
        if let Provider::Ambiguous = self.provider {
            self.send_attempts += 1;
            return Err("scripted input delivery is ambiguous".to_owned());
        }
        match self.live(operation_id) {
            None => Err("live runtime is not active".to_owned()),
            Some(live) => {
                if !live.admission.admit_turn(turn.clone())? {
                    return Ok(());
                }
                let arrived = live.queue.receive(WriterCommand::Turn(turn)).is_ok();
                live.admission.delivered(arrived)
            }
        }
    }

    fn stop_live(
        &mut self,
        operation_id: TargetOperationId,
        stop: TargetLiveStop,
    ) -> Result<(), String> {
        if let Provider::Ambiguous = self.provider {
            return match stop {
                TargetLiveStop::Graceful { .. } => {
                    Err("scripted target expected cancel".to_owned())
                }
                TargetLiveStop::Cancel => {
                    self.cancel_requested = true;
                    for live in self.lives.iter_mut() {
                        live.step = None;
                    }
                    Ok(())
                }
            };
        }
        match self.live(operation_id) {
            None => Err("live runtime is not active".to_owned()),
            Some(live) => match stop {
                TargetLiveStop::Graceful { through_position } => {
                    if live.admission.close(through_position)? {
                        let command = WriterCommand::Close { through_position };
                        let arrived = live.queue.receive(command).is_ok();
                        return close_delivered(arrived);
                    }
                    Ok(())
                }
                TargetLiveStop::Cancel => {
                    if live.admission.cancel() {
                        live.input_closed = true;
                        live.child.kill();
                    }
                    Ok(())
                }
            },
        }
    }

    /// The next thing that the only live child tells, where it ever tells anything more.
    fn observe(&mut self) -> Option<TargetLiveObservation> {
        let live = &mut self.lives[0];
        while live.observations.is_empty() && live.step.is_some() {
            live.advance(&mut self.invocations);
        }
        if live.observations.is_empty() {
            None
        } else {
            Some(live.observations.remove(0))
        }
    }
}

/// A one-shot operation whose child runs.
struct Review {
    operation_id: OperationId,
    command: TargetCommand,
    step: WatchStep,
    failures: ReviewFailures,
    evidence: Evidence,
    output: OutputBuffer,
    child: Child,
    prompt: Option<PromptInput>,
    success: Option<TargetSuccess>,
}

/// A live conversation whose child runs.
struct Live {
    start: TargetLiveStart,
    admission: LiveAdmission,
    queue: InputQueue,
    permitted: bool,
    codec: Codec,
    step: Option<ObserverStep>,
    output: OutputBuffer,
    child: Child,
    input_closed: bool,
    reports: Vec<WriterReport>,
    observations: Vec<TargetLiveObservation>,
}

struct Running {
    state: State,
    control: OperationControl,
    target: Target,
    directory_exists: bool,
    reviews: Vec<Review>,
    signalled: Option<CancellationOutcome>,
}

/// Control with its state and its target.
#[derive(Clone)]
struct Control {
    running: Rc<RefCell<Running>>,
}

impl Control {
    fn new(state: State, provider: Provider) -> Control {
        Control {
            running: Rc::new(RefCell::new(Running {
                state,
                control: OperationControl::new(),
                target: Target::new(provider),
                directory_exists: true,
                reviews: Vec::new(),
                signalled: None,
            })),
        }
    }

    fn handle(&self, request: DaemonRequest) -> Result<DaemonResponse, OperatorError> {
        self.running.borrow_mut().handle(request)
    }

    fn progress(&self) -> bool {
        self.running.borrow_mut().progress()
    }

    fn target_runs(&self) -> usize {
        self.running.borrow().target.runs
    }

    fn invocations(&self) -> Vec<(Vec<String>, String)> {
        self.running.borrow().target.invocations.clone()
    }
}

impl Running {
    fn handle(&mut self, request: DaemonRequest) -> Result<DaemonResponse, OperatorError> {
        let handled = self.control.handle(&self.state.tables.borrow(), request);
        match self.state.written(handled)? {
            Handling::Answer(response) => Ok(response),
            Handling::StartOperation(start) => Ok(DaemonResponse::Operation(self.start(start)?)),
            Handling::WaitOperation { operation_id, .. } => {
                operation::bounded_wait(true)?;
                Ok(DaemonResponse::Operation(self.settle(operation_id)?))
            }
            Handling::CancelOperation { operation_id } => {
                Ok(DaemonResponse::Operation(self.cancel(operation_id)?))
            }
            Handling::ReadDiagnostics(request) => {
                diagnostic::begin_wait(&request, true)?;
                loop {
                    let snapshot = diagnostic::diagnostics(
                        &self.control.refusal,
                        &self.state.tables.borrow(),
                        &request,
                    )?;
                    if diagnostic::wait_ends(&snapshot, request.wait_millis == 0)
                        || !self.progress()
                    {
                        return Ok(DaemonResponse::OperationDiagnostics(snapshot));
                    }
                }
            }
            Handling::StartConversation(request) => {
                Ok(DaemonResponse::Conversation(self.start_conversation(request)?))
            }
            Handling::SendTurn(request) => {
                Ok(DaemonResponse::Conversation(self.send_turn(request)?))
            }
            Handling::WaitConversation(request) => {
                conversation::begin_wait(&request, true)?;
                loop {
                    let snapshot = conversation::poll(
                        &self.control.refusal,
                        &self.state.tables.borrow(),
                        &request,
                    )?;
                    if conversation::wait_ends(&snapshot, false) || !self.progress() {
                        return Ok(DaemonResponse::Conversation(snapshot));
                    }
                }
            }
            Handling::StopConversation { conversation_id, mode } => {
                Ok(DaemonResponse::Conversation(self.stop(conversation_id, mode)?))
            }
        }
    }

    /// Lets everything go on until an operation has ended.
    fn settle(&mut self, operation_id: OperationId) -> Result<Operation, OperatorError> {
        loop {
            let current = operation::poll(
                &self.control.refusal,
                &self.state.tables.borrow(),
                operation_id,
            )?;
            if operation::wait_ends(&current, false) || !self.progress() {
                return Ok(current);
            }
        }
    }

    fn conclude(
        &mut self,
        operation_id: OperationId,
        conclusion: operation::OperationMove,
    ) -> Result<Operation, OperatorError> {
        self.state.transition(
            operation_id,
            conclusion.next,
            Some(conclusion.outcome),
            conclusion.session,
            conclusion.model,
            conclusion.version,
        )
    }

    fn start(&mut self, start: OperationStart) -> Result<Operation, OperatorError> {
        let session = session_writer::session_for(start.intent);
        let admitted = operation::request_start(
            &self.state.tables.borrow(),
            &start,
            self.directory_exists,
            Ok(format!("{start:?}").into_bytes()),
            session,
            OperationId::new(),
        );
        let admitted = self.state.written(admitted)?;
        let operation_id = admitted.operation.operation_id;
        let mut step = operation::begin(admitted);
        let mut launch = None;
        let mut completion: Option<Result<Operation, OperatorError>> = None;
        let mut worker_step = None;
        loop {
            let event = match &step {
                StartStep::OpenGate => StartEvent::GateOpened(self.control.runtime.open(operation_id)),
                StartStep::SpawnWorker => {
                    worker_step = Some(worker::begin(self.control.runtime.cancelled(operation_id)));
                    StartEvent::WorkerSpawned(Ok(()))
                }
                StartStep::AwaitLaunch => {
                    let begun = worker_step.take().expect("the worker was started");
                    completion = self.run_worker(operation_id, begun, &start, &mut launch);
                    StartEvent::Launch { report: launch.take() }
                }
                StartStep::MarkRunning => StartEvent::Moved(self.state.transition(
                    operation_id,
                    OperationState::Running,
                    None,
                    None,
                    None,
                    None,
                )),
                StartStep::Grant { .. } => StartEvent::Told { received: true },
                StartStep::Withhold { .. } => StartEvent::Told { received: true },
                StartStep::Conclude { conclusion, .. } => {
                    StartEvent::Moved(self.conclude(operation_id, conclusion.clone()))
                }
                StartStep::Release { .. } => {
                    StartEvent::Released(self.control.runtime.release(operation_id))
                }
                StartStep::AwaitCompletion => match completion.take() {
                    Some(result) => StartEvent::Completed(result),
                    None => StartEvent::CompletionLost,
                },
                StartStep::Done(_) => break,
            };
            step = operation::start(step, event);
        }
        match step {
            StartStep::Done(answer) => answer,
            other => panic!("the start did not end: {other:?}"),
        }
    }

    /// Runs the worker of an operation up to the launch of its child.
    fn run_worker(
        &mut self,
        operation_id: OperationId,
        begun: WorkerStep,
        start: &OperationStart,
        launch: &mut Option<TargetLaunch>,
    ) -> Option<Result<Operation, OperatorError>> {
        let mut step = begun;
        let mut completion = None;
        loop {
            let event = match &step {
                WorkerStep::ConcludeCancelled { conclusion }
                | WorkerStep::Conclude { conclusion }
                | WorkerStep::ConcludeUnlaunched { conclusion } => {
                    WorkerEvent::Moved(self.conclude(operation_id, conclusion.clone()))
                }
                WorkerStep::ReadCancelled
                | WorkerStep::ReadOperation
                | WorkerStep::ReadUnlaunched => {
                    WorkerEvent::Read(self.state.get_operation(operation_id))
                }
                WorkerStep::ReportCancelled { .. } => {
                    *launch = Some(TargetLaunch::CancelledBeforeLaunch);
                    WorkerEvent::Reported { received: true }
                }
                WorkerStep::RunTarget { operation } => {
                    let project = self
                        .state
                        .get_project(&start.project_id)
                        .expect("the project is registered");
                    let command = operation::target_command(operation, project, start.clone());
                    match self.launch(operation_id, command, launch) {
                        Some(outcome) => WorkerEvent::Ran(outcome),
                        None => return None,
                    }
                }
                WorkerStep::SendCancelled { cancelled } => {
                    completion = Some(Ok(cancelled.clone()));
                    WorkerEvent::Sent
                }
                WorkerStep::SendFailure { failure } => {
                    completion = Some(Err(failure.clone()));
                    self.control.refusal.record(failure.clone());
                    WorkerEvent::Sent
                }
                WorkerStep::Release => {
                    WorkerEvent::Released(self.control.runtime.release(operation_id))
                }
                WorkerStep::Refuse { failure } => {
                    self.control.refusal.record(failure.clone());
                    WorkerEvent::Refused
                }
                WorkerStep::Done => return completion,
            };
            step = worker::execute(step, event);
        }
    }

    /// Launches the child of a review. The outcome comes at once where nothing runs.
    fn launch(
        &mut self,
        operation_id: OperationId,
        command: TargetCommand,
        launch: &mut Option<TargetLaunch>,
    ) -> Option<TargetOutcome> {
        self.target.runs += 1;
        if let Provider::CancelledBeforeLaunch = self.target.provider {
            if self.target.runs > 1 {
                let failure = "test provider launch failure after cancellation".to_owned();
                *launch = Some(TargetLaunch::SpawnFailed(failure.clone()));
                return Some(TargetOutcome::SpawnFailed(failure));
            }
            // Another caller cancels the operation while its target waits to launch.
            let plan = operation::cancel(&self.state.tables.borrow(), operation_id);
            assert_eq!(plan, Ok(CancelPlan::Signal));
            self.signalled = Some(self.control.runtime.cancel(operation_id));
            *launch = Some(TargetLaunch::CancelledBeforeLaunch);
            return Some(TargetOutcome::CancelledBeforeLaunch(
                "test cancellation reached target before provider launch".to_owned(),
            ));
        }
        let mut step = execution::begin(self.control.runtime.cancelled(operation_id));
        loop {
            let event = match &step {
                ReviewStep::ReportCancelled => {
                    *launch = Some(TargetLaunch::CancelledBeforeLaunch);
                    ReviewEvent::Reported { received: true }
                }
                ReviewStep::Spawn => ReviewEvent::Spawned(self.target.spawn(&command.executable)),
                ReviewStep::ReportSpawnFailed { error } => {
                    *launch = Some(TargetLaunch::SpawnFailed(error.clone()));
                    ReviewEvent::Reported { received: true }
                }
                ReviewStep::Capture => {
                    ReviewEvent::Captured { stdin: true, stdout: true, stderr: true }
                }
                ReviewStep::RegisterChild => ReviewEvent::Registered { refusal: None },
                ReviewStep::ReportLaunched => {
                    *launch = Some(TargetLaunch::Launched);
                    ReviewEvent::Reported { received: true }
                }
                ReviewStep::AwaitPermission => break,
                ReviewStep::Done(_) => break,
                other => panic!("nothing else happens before the permission: {other:?}"),
            };
            step = execution::execute(step, event);
        }
        if let ReviewStep::Done(outcome) = step {
            return Some(outcome);
        }
        let mut success = None;
        let mut prompt = PromptInput::Written;
        let child = match &self.target.provider {
            Provider::Succeeding { version } => {
                success = Some(TargetSuccess {
                    result: format!("review result for {}", command.prompt),
                    observed_session_id: command.session_id,
                    observed_model: command.expected_model.clone(),
                    observed_version: version.clone(),
                });
                Child::idle()
            }
            _ => {
                let arguments = build(&command);
                let invocation =
                    Invocation::parse(&arguments).expect("the built command line is accepted");
                let bytes = command.prompt.as_bytes();
                let taken = bytes.len().min(required_prefix());
                let read = match begin_prompt(bytes[..taken].to_vec()) {
                    Ok(PromptStart::Marked(input)) => {
                        prompt = PromptInput::Failed("the prompt could not be written".to_owned());
                        input
                    }
                    Ok(PromptStart::Partial(text)) => {
                        let rest = String::from_utf8(bytes[taken..].to_vec())
                            .expect("the prompt is text");
                        finish_prompt(text, &rest).expect("the prompt is not empty")
                    }
                    Err(message) => panic!("the prompt was cut inside a character: {message}"),
                };
                self.target.invocations.push((arguments.clone(), read.recorded().to_owned()));
                let records = self.target.records();
                Child::play(fixture_review::review(&invocation, &read, Ok(records)))
            }
        };
        self.reviews.push(Review {
            operation_id,
            command,
            step: WatchStep::Poll,
            failures: ReviewFailures::new(),
            evidence: Evidence::new(),
            output: OutputBuffer::new(),
            child,
            prompt: Some(prompt),
            success,
        });
        None
    }

    /// Lets every child and every recorder go on once. Tells whether anything happened.
    fn progress(&mut self) -> bool {
        if !self.reviews.is_empty() {
            let review = self.reviews.remove(0);
            self.advance_review(review);
            return true;
        }
        self.advance_lives()
    }

    fn advance_review(&mut self, mut review: Review) {
        if let Some(success) = review.success.take() {
            self.finish_review(review.operation_id, TargetOutcome::Success(success));
            return;
        }
        loop {
            let event = match &review.step {
                WatchStep::Poll => {
                    review.child.advance(&mut review.output);
                    WatchEvent::Polled(Ok(()))
                }
                WatchStep::Interpret | WatchStep::InterpretLast { .. } => {
                    let interpreted = watch::interpret(
                        &mut review.output,
                        &mut review.evidence,
                        &review.command,
                    );
                    for told in &interpreted.diagnostics {
                        let recorded = self.state.record_operation_diagnostic(
                            review.operation_id,
                            diagnostic::normalize(*told),
                        );
                        if let Err(error) = recorded {
                            self.control.diagnostic_unrecorded(review.operation_id, &error);
                            break;
                        }
                    }
                    WatchEvent::Interpreted(interpreted.outcome)
                }
                WatchStep::CheckStatus => WatchEvent::Status(Ok(review.child.exit)),
                WatchStep::CheckCancel => WatchEvent::Cancelled {
                    requested: self.control.runtime.cancelled(review.operation_id),
                },
                WatchStep::TerminateCancelled
                | WatchStep::TerminateInterpreted { .. }
                | WatchStep::TerminateUnpolled { .. }
                | WatchStep::TerminateUnseen { .. } => {
                    review.child.kill();
                    WatchEvent::Terminated(Ok(()))
                }
                WatchStep::Drain { .. } => WatchEvent::Drained(Ok(())),
                WatchStep::Conclude { success } => {
                    let outcome = execution::conclude(
                        review.failures,
                        self.control.runtime.cancelled(review.operation_id),
                        *success,
                        review.prompt.take().expect("the prompt was started"),
                        review.evidence,
                        &review.command,
                        &review.output.stderr(),
                    );
                    self.finish_review(review.operation_id, outcome);
                    return;
                }
            };
            let checked = matches!(event, WatchEvent::Cancelled { requested: false });
            review.step = watch::observe(review.step, event, &mut review.failures);
            if checked {
                self.reviews.push(review);
                return;
            }
        }
    }

    fn finish_review(&mut self, operation_id: OperationId, outcome: TargetOutcome) {
        let step = execution::execute(ReviewStep::Observe, ReviewEvent::Observed(outcome));
        let outcome = match execution::execute(step, ReviewEvent::Removed(Ok(()))) {
            ReviewStep::Done(outcome) => outcome,
            other => panic!("the review did not end: {other:?}"),
        };
        let operation = self.state.get_operation(operation_id).expect("the operation is there");
        let mut step = worker::execute(
            WorkerStep::RunTarget { operation },
            WorkerEvent::Ran(outcome),
        );
        loop {
            let event = match &step {
                WorkerStep::Conclude { conclusion } => {
                    WorkerEvent::Moved(self.conclude(operation_id, conclusion.clone()))
                }
                WorkerStep::SendFailure { failure } => {
                    self.control.refusal.record(failure.clone());
                    WorkerEvent::Sent
                }
                WorkerStep::Release => {
                    WorkerEvent::Released(self.control.runtime.release(operation_id))
                }
                WorkerStep::Done => return,
                other => panic!("nothing else follows a launched review: {other:?}"),
            };
            step = worker::execute(step, event);
        }
    }

    fn cancel(&mut self, operation_id: OperationId) -> Result<Operation, OperatorError> {
        let plan = operation::cancel(&self.state.tables.borrow(), operation_id)?;
        match plan {
            CancelPlan::Ended(operation) => return Ok(operation),
            CancelPlan::StopConversation(id) => {
                self.stop(id, ConversationStopMode::Cancel)?;
            }
            CancelPlan::Signal => {
                let outcome = self.control.runtime.cancel(operation_id);
                let ended = operation::cancel_one_shot(
                    &self.state.tables.borrow(),
                    operation_id,
                    outcome,
                )?;
                if let Some(operation) = ended {
                    return Ok(operation);
                }
            }
        }
        self.settle(operation_id)
    }

    fn start_conversation(
        &mut self,
        request: ConversationStart,
    ) -> Result<ConversationSnapshot, OperatorError> {
        let session = session_writer::session_for(request.intent);
        let admitted = conversation::request_conversation(
            &self.state.tables.borrow(),
            &request,
            self.directory_exists,
            Ok(format!("{request:?}").into_bytes()),
            session,
            OperationId::new(),
        );
        let (operation_id, first_turn) = match self.state.written(admitted)? {
            LivePlan::Answered(snapshot) => return Ok(snapshot),
            LivePlan::Start { operation_id, first_turn } => (operation_id, first_turn),
        };
        let id = ConversationId::new(operation_id);
        let mut step = LiveStep::OpenGate;
        loop {
            let event = match &step {
                LiveStep::OpenGate => LiveEvent::GateOpened(self.control.runtime.open(operation_id)),
                LiveStep::StartTarget => {
                    let project = self.state.get_project(&request.project_id)?;
                    let start = conversation::target_start(
                        operation_id,
                        session,
                        project,
                        &request,
                        &first_turn,
                    );
                    LiveEvent::TargetStarted { refusal: self.target.start_live(start).err() }
                }
                LiveStep::MarkRunning => LiveEvent::MarkedRunning(
                    self.state
                        .transition(operation_id, OperationState::Running, None, None, None, None)
                        .map(|_| ()),
                ),
                LiveStep::SpawnObserver => LiveEvent::ObserverSpawned(Ok(())),
                LiveStep::Grant => {
                    self.target.grant(TargetOperationId(operation_id.value()));
                    LiveEvent::Told { received: true }
                }
                LiveStep::EndUnopened { end, .. } | LiveStep::Finish { end, .. } => {
                    let ended = conversation::terminalize(
                        &self.state.tables.borrow(),
                        id,
                        end.state,
                        end.outcome.clone(),
                        end.disposition,
                    );
                    LiveEvent::Ended(self.state.changed(ended))
                }
                LiveStep::StopUngranted | LiveStep::StopTarget { .. } => {
                    LiveEvent::Stopped(
                        self.target.stop_live(
                            TargetOperationId(operation_id.value()),
                            TargetLiveStop::Cancel,
                        ),
                    )
                }
                LiveStep::Release { .. } => {
                    let released = self.control.runtime.release(operation_id);
                    LiveEvent::Released {
                        released: released.is_ok(),
                        terminal_report: "Ok(())".to_owned(),
                        release_report: format!("{released:?}"),
                        termination_report: "None".to_owned(),
                    }
                }
                LiveStep::Snapshot => {
                    LiveEvent::Read(self.state.get_conversation_snapshot(id, 0))
                }
                LiveStep::Done(_) => break,
            };
            step = live::start(step, event);
        }
        match step {
            LiveStep::Done(answer) => answer,
            other => panic!("the start did not end: {other:?}"),
        }
    }

    fn send_turn(&mut self, request: ConversationSend) -> Result<ConversationSnapshot, OperatorError> {
        let id = request.conversation_id;
        let admitted = conversation::request_turn(
            &self.state.tables.borrow(),
            &request,
            Ok(format!("{request:?}").into_bytes()),
        );
        let turn = match self.state.written(admitted)? {
            SendPlan::Answered(snapshot) => return Ok(snapshot),
            SendPlan::Deliver(turn) => turn,
        };
        let operation_id = TargetOperationId(id.operation_id().value());
        let mut step = SendStep::Deliver;
        loop {
            let event = match &step {
                SendStep::Deliver => {
                    SendEvent::Delivered(self.target.send_live(operation_id, turn.clone()))
                }
                SendStep::ReadRefused { .. } | SendStep::Snapshot => {
                    SendEvent::Read(self.state.get_conversation_snapshot(id, 0))
                }
                SendStep::CloseRefused { .. } => {
                    SendEvent::Closed(
                        self.state.close_conversation(id, ConversationStopMode::Cancel).map(|_| ()),
                    )
                }
                SendStep::StopRefused { .. } => {
                    SendEvent::Stopped(self.target.stop_live(operation_id, TargetLiveStop::Cancel))
                }
                SendStep::Done(_) => break,
            };
            step = live::send(step, event);
        }
        match step {
            SendStep::Done(answer) => answer,
            other => panic!("the delivery did not end: {other:?}"),
        }
    }

    fn stop(
        &mut self,
        id: ConversationId,
        mode: ConversationStopMode,
    ) -> Result<ConversationSnapshot, OperatorError> {
        let planned = conversation::request_stop(&self.state.tables.borrow(), id, mode);
        let mut step = match self.state.written(planned)? {
            StopPlan::Answered(snapshot) => return Ok(snapshot),
            StopPlan::Request(stop) => StopStep::Request(stop),
        };
        loop {
            let event = match &step {
                StopStep::Request(stop) => {
                    StopEvent::Requested(self
                        .target
                        .stop_live(TargetOperationId(id.operation_id().value()), *stop))
                }
                StopStep::ReadRefused { .. } | StopStep::Snapshot => {
                    StopEvent::Read(self.state.get_conversation_snapshot(id, 0))
                }
                StopStep::Done(_) => break,
            };
            step = live::stop(step, event);
        }
        match step {
            StopStep::Done(answer) => answer,
            other => panic!("the stop did not end: {other:?}"),
        }
    }

    fn advance_lives(&mut self) -> bool {
        if self.target.lives.is_empty() {
            return false;
        }
        let mut live = self.target.lives.remove(0);
        live.advance(&mut self.target.invocations);
        if !self.record(&mut live) {
            self.target.lives.push(live);
        }
        true
    }

    /// Records what a live target has told. Tells whether the recorder has ended.
    fn record(&mut self, live: &mut Live) -> bool {
        let operation_id = OperationId::new_exact(live.start.operation_id.0);
        let id = ConversationId::new(operation_id);
        let mut step = RecorderStep::Await;
        let mut current = None;
        loop {
            let event = match &step {
                RecorderStep::Await => {
                    if live.observations.is_empty() {
                        if live.step.is_some() {
                            return false;
                        }
                        RecorderEvent::Observed { received: false }
                    } else {
                        current = Some(live.observations.remove(0));
                        RecorderEvent::Observed { received: true }
                    }
                }
                RecorderStep::CheckOpen
                | RecorderStep::Recheck { .. }
                | RecorderStep::CheckAfter
                | RecorderStep::FinalCheck => RecorderEvent::Read(self.state.get_conversation(id)),
                RecorderStep::Apply => {
                    let observed = current.take().expect("an observation arrived");
                    let applied = conversation::apply_observation(
                        &self.state.tables.borrow(),
                        id,
                        observed,
                    );
                    RecorderEvent::Applied(self.state.changed(applied))
                }
                RecorderStep::StopTarget { .. } => {
                    live.admission.cancel();
                    live.child.kill();
                    RecorderEvent::Stopped(Ok(()))
                }
                RecorderStep::End { end, .. } | RecorderStep::EndLost { end } => {
                    let ended = conversation::terminalize(
                        &self.state.tables.borrow(),
                        id,
                        end.state,
                        end.outcome.clone(),
                        end.disposition,
                    );
                    RecorderEvent::Ended(self.state.changed(ended))
                }
                RecorderStep::Release => {
                    RecorderEvent::Released(self.control.runtime.release(operation_id))
                }
                RecorderStep::Record { failure, .. } => {
                    self.control.refusal.record_state(failure);
                    RecorderEvent::Recorded
                }
                RecorderStep::Done => return true,
            };
            step = recorder::observe(step, event);
        }
    }
}

impl Live {
    fn write_ready(&mut self, invocations: &mut Vec<(Vec<String>, String)>) {
        if !self.permitted || self.input_closed {
            return;
        }
        loop {
            match self.queue.step() {
                InputStep::Write(turn) => {
                    self.reports.push(WriterReport::Prepared(turn.clone()));
                    let frame = encode(&turn);
                    self.queue.written().expect("positions are not exhausted");
                    let arguments = build_live(&self.start);
                    let invocation = LiveInvocation::parse(&arguments)
                        .expect("the built command line is accepted");
                    let turn = LiveTurn::parse(&frame).expect("the frame reads back");
                    invocations.push((arguments, turn.prompt.clone()));
                    let script = fixture_live::play(&invocation, &turn);
                    self.child.follow(script);
                }
                InputStep::Closed => {
                    self.reports.push(WriterReport::Closed);
                    self.input_closed = true;
                    self.child.ends = true;
                    return;
                }
                InputStep::Await => return,
            }
        }
    }

    fn consume(&mut self) -> Option<CodecError> {
        while !self.reports.is_empty() {
            if let Err(error) = consume_report(&mut self.codec, self.reports.remove(0)) {
                return Some(error);
            }
        }
        match self.output.take_stdout_lines() {
            Err(message) => Some(CodecError::Indeterminate(message)),
            Ok(lines) => {
                let (observations, refusal) = consume_output(
                    &mut self.codec,
                    &lines,
                    &self.start.expected_model,
                    self.start.session_id,
                );
                self.observations.extend(observations);
                refusal
            }
        }
    }

    /// Lets the writer, the child and the observer go on once.
    fn advance(&mut self, invocations: &mut Vec<(Vec<String>, String)>) {
        self.write_ready(invocations);
        let mut step = match self.step.take() {
            Some(step) => step,
            None => return,
        };
        loop {
            let event = match &step {
                ObserverStep::Consume => {
                    self.child.advance(&mut self.output);
                    ObserverEvent::Consumed { refusal: self.consume() }
                }
                ObserverStep::CheckChild => {
                    if self.child.exit.is_some() {
                        ObserverEvent::Exited
                    } else {
                        ObserverEvent::Running
                    }
                }
                ObserverStep::Drain => match self.consume() {
                    Some(error) => ObserverEvent::Consumed { refusal: Some(error) },
                    None => ObserverEvent::Drained { success: self.child.exit == Some(true) },
                },
                ObserverStep::PublishFailedTurn { turn_id, message, .. } => {
                    let told = TargetLiveObservation::TurnFailed {
                        turn_id: *turn_id,
                        message: message.clone(),
                    };
                    self.observations.push(told);
                    ObserverEvent::Published { received: true }
                }
                ObserverStep::CleanUp { mode, .. } => {
                    if *mode == CleanupMode::Terminate {
                        self.child.kill();
                    }
                    let (result, evidence) =
                        cleanup(*mode, Ok(()), Ok(()), false, Ok(()), Ok(()));
                    ObserverEvent::CleanedUp { result, evidence }
                }
                ObserverStep::Publish(terminal) => {
                    self.observations.push(terminal.clone());
                    ObserverEvent::Published { received: true }
                }
                ObserverStep::Ended(result) => {
                    assert_eq!(*result, Ok(()));
                    return;
                }
            };
            let running = matches!(event, ObserverEvent::Running);
            step = observe(
                step,
                event,
                self.admission.is_cancelled(),
                self.admission.is_graceful(),
                self.codec.all_completed(),
            );
            if running {
                self.step = Some(step);
                return;
            }
        }
    }
}

fn passive_fixture() -> ProjectRegistration {
    ProjectRegistration {
        project_id: ProjectId::new("fixture-project".to_owned())
            .expect("fixture project id is valid"),
        working_directory: "/workspace".to_owned(),
        claude_executable: "fixture-target".to_owned(),
        expected_opus_model: "opus".to_owned(),
    }
}

fn fixture() -> (Control, ProjectRegistration) {
    (Control::new(State::open(), Provider::Fixture), passive_fixture())
}

#[test]
fn terminal_state_failure_refuses_the_current_daemon() {
    let state = State::open();
    state.fail_terminal_once.set(true);
    let control = Control::new(state, Provider::Fixture);
    let project = ProjectRegistration {
        project_id: ProjectId::new("state-failure-project".to_owned())
            .expect("project id is valid"),
        working_directory: "/workspace".to_owned(),
        claude_executable: "fixture-target".to_owned(),
        expected_opus_model: "opus".to_owned(),
    };
    control
        .handle(DaemonRequest::ProjectRegister(project.clone()))
        .expect("project registers");
    let accepted = operation(
        control
            .handle(DaemonRequest::OperationStart(start(
                &project,
                "state failure",
                OperationIntent::New,
            )))
            .expect("operation accepts"),
    );
    let refusal = control.handle(DaemonRequest::OperationWait {
        operation_id: accepted.operation_id,
        wait_millis: 5_000,
    });
    match refusal {
        Err(OperatorError::State(message))
            if message == "injected terminal transition failure" => {}
        other => panic!("daemon must preserve injected terminal transition error: {other:?}"),
    }
}

fn start(project: &ProjectRegistration, prompt: &str, intent: OperationIntent) -> OperationStart {
    OperationStart {
        request_id: RequestId::new(fresh()),
        project_id: project.project_id.clone(),
        intent,
        prompt: prompt.to_owned(),
        review_profile: ReviewProfile::OpusReadOnly,
    }
}

fn operation(response: DaemonResponse) -> Operation {
    match response {
        DaemonResponse::Operation(operation) => operation,
        other => panic!("operation request must return an operation: {other:?}"),
    }
}

fn terminal(
    control: &Control,
    operation_id: OperationId,
) -> Operation {
    operation(
        control
            .handle(DaemonRequest::OperationWait {
                operation_id,
                wait_millis: 5_000,
            })
            .expect("operation wait succeeds"),
    )
}

#[test]
fn cancellation_before_provider_launch_returns_the_durable_cancelled_operation() {
    let project = passive_fixture();
    let control = Control::new(State::open(), Provider::CancelledBeforeLaunch);
    control
        .handle(DaemonRequest::ProjectRegister(project.clone()))
        .expect("project registers");
    let start_request = start(&project, "cancel before provider", OperationIntent::New);
    let started = operation(
        control
            .handle(DaemonRequest::OperationStart(start_request))
            .expect("operation start returns durable cancellation"),
    );
    assert_eq!(control.running.borrow().signalled, Some(CancellationOutcome::Signalled));
    let cancelled = operation(
        control
            .handle(DaemonRequest::OperationCancel { operation_id: started.operation_id })
            .expect("operation cancellation returns durable cancellation"),
    );
    assert_eq!(started.state, OperationState::Cancelled);
    assert_eq!(cancelled.state, OperationState::Cancelled);
    assert_eq!(started.operation_id, cancelled.operation_id);
    let reused = operation(
        control
            .handle(DaemonRequest::OperationStart(start(
                &project,
                "same session after pre-launch cancellation",
                OperationIntent::ResumeExact {
                    session_id: started.session_id,
                },
            )))
            .expect("cancelled session is admitted for an exact resume"),
    );
    assert_eq!(reused.state, OperationState::Failed);
}

#[test]
fn cancellation_after_runtime_gate_release_returns_the_durable_terminal_operation() {
    let (control, project) = fixture();
    control
        .handle(DaemonRequest::ProjectRegister(project.clone()))
        .expect("project registers");
    let started = operation(
        control
            .handle(DaemonRequest::OperationStart(start(
                &project,
                "terminal before cancellation race",
                OperationIntent::New,
            )))
            .expect("operation starts"),
    );
    let completed = terminal(&control, started.operation_id);
    let cancellation = operation(
        control
            .handle(DaemonRequest::OperationCancel {
                operation_id: started.operation_id,
            })
            .expect("terminal operation remains observable after gate release"),
    );
    assert_eq!(cancellation, completed);
}

#[test]
fn new_and_exact_resume_are_durable_and_idempotent() {
    let (control, project) = fixture();
    control
        .handle(DaemonRequest::ProjectRegister(project.clone()))
        .expect("project registers");
    let request = start(&project, "first review", OperationIntent::New);
    let accepted = operation(
        control
            .handle(DaemonRequest::OperationStart(request.clone()))
            .expect("operation accepts"),
    );
    let duplicate = operation(
        control
            .handle(DaemonRequest::OperationStart(request))
            .expect("same complete request is idempotent"),
    );
    assert_eq!(accepted.operation_id, duplicate.operation_id);
    let completed = terminal(&control, accepted.operation_id);
    assert_eq!(completed.state, OperationState::Succeeded);
    assert_eq!(completed.observed_session_id, Some(completed.session_id));
    assert_eq!(completed.observed_model.as_deref(), Some("opus"));
    assert_eq!(
        completed.observed_claude_version.as_deref(),
        Some("fixture-1")
    );
    let resume = start(
        &project,
        "follow-up depends on first review",
        OperationIntent::ResumeExact {
            session_id: completed.session_id,
        },
    );
    let resumed = operation(
        control
            .handle(DaemonRequest::OperationStart(resume))
            .expect("exact resume accepts"),
    );
    let resumed = terminal(&control, resumed.operation_id);
    assert_eq!(resumed.state, OperationState::Succeeded);
    assert_eq!(resumed.session_id, completed.session_id);
    match resumed.terminal_outcome {
        Some(TerminalOutcome::Succeeded(result)) => assert!(result.contains("first review")),
        Some(TerminalOutcome::Failed(_))
        | Some(TerminalOutcome::Cancelled(_))
        | Some(TerminalOutcome::Indeterminate(_))
        | None => panic!("exact resume must use prior same-session review content"),
    }
    let invocations = control.invocations();
    assert_eq!(invocations.len(), 2);
    assert!(
        invocations[0]
            .0
            .iter()
            .any(|argument| argument == "--session-id")
    );
    assert!(
        invocations[1]
            .0
            .iter()
            .any(|argument| argument == "--resume")
    );
}

#[test]
fn invalid_request_precedes_project_lookup_and_changed_fingerprint_conflicts() {
    let (control, project) = fixture();
    let invalid = OperationStart {
        prompt: String::new(),
        ..start(&project, "unused", OperationIntent::New)
    };
    let invalid_result = control.handle(DaemonRequest::OperationStart(invalid));
    assert!(matches!(
        invalid_result,
        Err(OperatorError::InvalidRequest(_))
    ));
    let response = control.handle(DaemonRequest::OperationStart(start(
        &project,
        "unknown project",
        OperationIntent::New,
    )));
    assert!(matches!(
        response,
        Err(OperatorError::UnknownProject(_))
    ));
    control
        .handle(DaemonRequest::ProjectRegister(project.clone()))
        .expect("project registers");
    let initial = start(&project, "same request", OperationIntent::New);
    let conflict = OperationStart {
        prompt: "changed prompt".to_owned(),
        ..initial.clone()
    };
    control
        .handle(DaemonRequest::OperationStart(initial))
        .expect("initial accepts");
    let conflict_result = control.handle(DaemonRequest::OperationStart(conflict));
    assert!(matches!(
        conflict_result,
        Err(OperatorError::Conflict(_))
    ));
}

#[test]
fn concurrent_session_writer_is_refused_and_cancellation_observes_terminal_result() {
    let (control, project) = fixture();
    control
        .handle(DaemonRequest::ProjectRegister(project.clone()))
        .expect("project registers");
    let first = operation(
        control
            .handle(DaemonRequest::OperationStart(start(
                &project,
                "__fixture_hold_for_cancel__",
                OperationIntent::New,
            )))
            .expect("operation accepts"),
    );
    control.progress();
    let writer = control.handle(DaemonRequest::OperationStart(start(
        &project,
        "conflicting writer",
        OperationIntent::ResumeExact {
            session_id: first.session_id,
        },
    )));
    assert!(matches!(
        writer,
        Err(OperatorError::Conflict(_))
    ));
    let cancelled = operation(
        control
            .handle(DaemonRequest::OperationCancel {
                operation_id: first.operation_id,
            })
            .expect("cancellation observes child exit"),
    );
    assert_eq!(cancelled.state, OperationState::Cancelled);
    assert!(matches!(
        cancelled.terminal_outcome,
        Some(TerminalOutcome::Cancelled(_))
    ));
}

#[test]
fn target_handles_unknown_events_and_large_results() {
    let (control, project) = fixture();
    control
        .handle(DaemonRequest::ProjectRegister(project.clone()))
        .expect("project registers");
    for prompt in ["__fixture_unknown_event__", "__fixture_large_result__"] {
        let accepted = operation(
            control
                .handle(DaemonRequest::OperationStart(start(
                    &project,
                    prompt,
                    OperationIntent::New,
                )))
                .expect("operation accepts"),
        );
        let completed = terminal(&control, accepted.operation_id);
        assert_eq!(completed.state, OperationState::Succeeded);
        if prompt == "__fixture_large_result__" {
            match completed.terminal_outcome {
                Some(TerminalOutcome::Succeeded(result)) => {
                    assert_eq!(result, "r".repeat(32 * 1024));
                }
                Some(TerminalOutcome::Failed(_))
                | Some(TerminalOutcome::Cancelled(_))
                | Some(TerminalOutcome::Indeterminate(_))
                | None => panic!("large terminal result must be byte-exact and complete"),
            }
        }
    }
}

#[test]
fn target_decodes_complete_byte_frames_without_consuming_partial_stdout_suffixes() {
    let (control, project) = fixture();
    control
        .handle(DaemonRequest::ProjectRegister(project.clone()))
        .expect("project registers");
    for (prompt, expected_result) in [
        (
            "__fixture_split_utf8_result__",
            "split UTF-8 review: Привет 😀",
        ),
        (
            "__fixture_result_then_fragment__",
            "terminal result before fragment",
        ),
    ] {
        let started = operation(
            control
                .handle(DaemonRequest::OperationStart(start(
                    &project,
                    prompt,
                    OperationIntent::New,
                )))
                .expect("operation starts"),
        );
        let completed = terminal(&control, started.operation_id);
        assert_eq!(completed.state, OperationState::Succeeded);
        match completed.terminal_outcome {
            Some(TerminalOutcome::Succeeded(result)) => assert_eq!(result, expected_result),
            Some(TerminalOutcome::Failed(_))
            | Some(TerminalOutcome::Cancelled(_))
            | Some(TerminalOutcome::Indeterminate(_))
            | None => panic!("complete terminal result must survive partial stdout bytes"),
        }
    }
}

#[test]
fn direct_terminal_classification_outranks_pending_large_prompt_writer() {
    let (control, project) = fixture();
    control
        .handle(DaemonRequest::ProjectRegister(project.clone()))
        .expect("project registers");
    let pending_prompt = format!(
        "__fixture_pending_input_cancel__{}",
        "x".repeat(2 * 1024 * 1024)
    );
    let cancelled = operation(
        control
            .handle(DaemonRequest::OperationStart(start(
                &project,
                &pending_prompt,
                OperationIntent::New,
            )))
            .expect("pending-input operation starts"),
    );
    let cancelled = operation(
        control
            .handle(DaemonRequest::OperationCancel {
                operation_id: cancelled.operation_id,
            })
            .expect("cancellation observes direct child exit"),
    );
    assert_eq!(cancelled.state, OperationState::Cancelled);
    let nonzero_prompt = format!(
        "__fixture_nonzero_without_input__{}",
        "x".repeat(2 * 1024 * 1024)
    );
    let nonzero = operation(
        control
            .handle(DaemonRequest::OperationStart(start(
                &project,
                &nonzero_prompt,
                OperationIntent::New,
            )))
            .expect("nonzero pending-input operation starts"),
    );
    match terminal(&control, nonzero.operation_id).terminal_outcome {
        Some(TerminalOutcome::Failed(message)) => {
            assert!(message.contains(&format!("direct {PROVIDER} child exited unsuccessfully")));
        }
        Some(TerminalOutcome::Succeeded(_))
        | Some(TerminalOutcome::Cancelled(_))
        | Some(TerminalOutcome::Indeterminate(_))
        | None => panic!("nonzero direct child exit must outrank prompt writer failure"),
    }
}

#[test]
fn provider_failure_and_missing_result_are_causally_classified() {
    let (control, project) = fixture();
    control
        .handle(DaemonRequest::ProjectRegister(project.clone()))
        .expect("project registers");
    let failed = operation(
        control
            .handle(DaemonRequest::OperationStart(start(
                &project,
                "__fixture_terminal_failure__",
                OperationIntent::New,
            )))
            .expect("provider failure operation accepts"),
    );
    let failed = terminal(&control, failed.operation_id);
    assert_eq!(failed.state, OperationState::Failed);
    match failed.terminal_outcome {
        Some(TerminalOutcome::Failed(message)) => {
            assert!(message.contains("fixture provider rejected review"));
            assert!(message.contains("fixture provider diagnostic"));
        }
        Some(TerminalOutcome::Succeeded(_))
        | Some(TerminalOutcome::Cancelled(_))
        | Some(TerminalOutcome::Indeterminate(_))
        | None => panic!("provider terminal failure must retain its causal evidence"),
    }
    let missing_failure_text = operation(
        control
            .handle(DaemonRequest::OperationStart(start(
                &project,
                "__fixture_terminal_failure_without_text__",
                OperationIntent::New,
            )))
            .expect("failure without text operation accepts"),
    );
    match terminal(&control, missing_failure_text.operation_id).terminal_outcome {
        Some(TerminalOutcome::Failed(message)) => {
            assert!(message.contains("omitted result text"));
        }
        Some(TerminalOutcome::Succeeded(_))
        | Some(TerminalOutcome::Cancelled(_))
        | Some(TerminalOutcome::Indeterminate(_))
        | None => panic!("missing provider failure text must remain explicit"),
    }
    let missing = operation(
        control
            .handle(DaemonRequest::OperationStart(start(
                &project,
                "__fixture_exit_without_result__",
                OperationIntent::New,
            )))
            .expect("missing result operation accepts"),
    );
    assert_eq!(
        terminal(&control, missing.operation_id).state,
        OperationState::Indeterminate
    );
}

#[test]
fn launch_failure_persists_failed_operation_and_releases_new_session() {
    let (control, mut project) = fixture();
    project.claude_executable = MISSING.to_owned();
    control
        .handle(DaemonRequest::ProjectRegister(project.clone()))
        .expect("project registers");
    let accepted = operation(
        control
            .handle(DaemonRequest::OperationStart(start(
                &project,
                "launch must fail",
                OperationIntent::New,
            )))
            .expect("durable operation is returned despite launch failure"),
    );
    assert_eq!(
        terminal(&control, accepted.operation_id).state,
        OperationState::Failed
    );
    let reused = operation(
        control
            .handle(DaemonRequest::OperationStart(start(
                &project,
                "same session after launch failure",
                OperationIntent::ResumeExact {
                    session_id: accepted.session_id,
                },
            )))
            .expect("failed launch releases the session writer claim"),
    );
    assert_eq!(reused.state, OperationState::Failed);
}

#[test]
fn daemon_eof_before_response_is_transport_unavailable() {
    let result = client::call(Exchange::Closed);
    assert!(matches!(
        result,
        Err(OperatorError::TransportUnavailable(message))
            if message == "daemon closed before sending a response"
    ));
}

#[test]
fn mismatch_is_indeterminate_and_large_prompt_with_early_output_completes() {
    let (control, project) = fixture();
    control
        .handle(DaemonRequest::ProjectRegister(project.clone()))
        .expect("project registers");
    let mismatch = operation(
        control
            .handle(DaemonRequest::OperationStart(start(
                &project,
                "__fixture_session_mismatch__",
                OperationIntent::New,
            )))
            .expect("mismatch operation launches"),
    );
    match terminal(&control, mismatch.operation_id).terminal_outcome {
        Some(TerminalOutcome::Indeterminate(message)) => {
            assert!(message.contains("init session mismatch"));
            assert!(message.contains(&mismatch.session_id.to_text()));
            assert!(message.contains("00000000-0000-4000-8000-000000000000"));
        }
        Some(TerminalOutcome::Succeeded(_))
        | Some(TerminalOutcome::Failed(_))
        | Some(TerminalOutcome::Cancelled(_))
        | None => panic!("session mismatch must be an explicit indeterminate outcome"),
    }
    let model_mismatch = operation(
        control
            .handle(DaemonRequest::OperationStart(start(
                &project,
                "__fixture_model_mismatch__",
                OperationIntent::New,
            )))
            .expect("model mismatch operation launches"),
    );
    match terminal(&control, model_mismatch.operation_id).terminal_outcome {
        Some(TerminalOutcome::Indeterminate(message)) => {
            assert!(message.contains("init model mismatch"));
            assert!(message.contains("intended opus"));
            assert!(message.contains("observed other-model"));
        }
        Some(TerminalOutcome::Succeeded(_))
        | Some(TerminalOutcome::Failed(_))
        | Some(TerminalOutcome::Cancelled(_))
        | None => panic!("model mismatch must be an explicit indeterminate outcome"),
    }
    let prompt = format!("__fixture_early_large_output__{}", "p".repeat(128 * 1024));
    let large = operation(
        control
            .handle(DaemonRequest::OperationStart(start(
                &project,
                &prompt,
                OperationIntent::New,
            )))
            .expect("large prompt operation launches"),
    );
    assert_eq!(
        terminal(&control, large.operation_id).state,
        OperationState::Succeeded
    );
}

#[test]
fn daemon_restart_marks_interrupted_work_indeterminate_and_refuses_exact_resume() {
    let project = passive_fixture();
    let state = State::open();
    let control_a = Control::new(state.clone(), Provider::Fixture);
    control_a
        .handle(DaemonRequest::ProjectRegister(project.clone()))
        .expect("project registers");
    let interrupted = operation(
        control_a
            .handle(DaemonRequest::OperationStart(start(
                &project,
                "__fixture_hold_for_cancel__",
                OperationIntent::New,
            )))
            .expect("operation starts"),
    );
    assert_eq!(interrupted.state, OperationState::Running);
    drop(control_a);
    let control_b = Control::new(state.reopen(), Provider::Fixture);
    let recovered = operation(
        control_b
            .handle(DaemonRequest::OperationGet { operation_id: interrupted.operation_id })
            .expect("interrupted operation remains readable"),
    );
    assert_eq!(recovered.operation_id, interrupted.operation_id);
    assert_eq!(recovered.state, OperationState::Indeterminate);
    match recovered.terminal_outcome {
        Some(TerminalOutcome::Indeterminate(message)) => {
            assert_eq!(message, "daemon restarted before direct child was classified");
        }
        other => panic!("interrupted operation must be indeterminate: {other:?}"),
    }
    let refusal = control_b.handle(DaemonRequest::OperationStart(start(
        &project,
        "must be refused after daemon restart",
        OperationIntent::ResumeExact { session_id: interrupted.session_id },
    )));
    match GatewayError::operator(refusal.expect_err("the session is not classified")) {
        GatewayError::Operator { message, .. } => {
            assert!(message.contains("session cannot be classified after daemon restart"));
        }
        other => panic!("an operator refusal is told as such: {other:?}"),
    }
    let independent = operation(
        control_b
            .handle(DaemonRequest::OperationStart(start(
                &project,
                "independent session after restart",
                OperationIntent::New,
            )))
            .expect("an independent session starts"),
    );
    match terminal(&control_b, independent.operation_id).terminal_outcome {
        Some(TerminalOutcome::Succeeded(result)) => {
            assert_eq!(result, "complete review: independent session after restart");
        }
        other => panic!("independent operation must succeed: {other:?}"),
    }
}

/// What the session tests work on.
struct Sessions {
    state: State,
    control: Control,
    project: ProjectRegistration,
}

fn sessions(version: Option<String>) -> Sessions {
    let state = State::open();
    let control = Control::new(state.clone(), Provider::Succeeding { version });
    let project = ProjectRegistration {
        project_id: ProjectId::new("v02-project".to_owned()).expect("fixture project id is valid"),
        working_directory: "/workspace".to_owned(),
        claude_executable: "test-target".to_owned(),
        expected_opus_model: "opus".to_owned(),
    };
    control
        .handle(DaemonRequest::ProjectRegister(project.clone()))
        .expect("project registers");
    Sessions { state, control, project }
}

fn identity(role: &str, task: &str, subject: &str) -> InitiatorIdentity {
    InitiatorIdentity {
        initiator_session_id: InitiatorSessionIdentity::new("initiator-session".to_owned())
            .expect("fixture initiator session is valid"),
        initiator_agent_id: InitiatorAgentIdentity::new("main-agent".to_owned())
            .expect("fixture initiator agent is valid"),
        role_id: RoleIdentity::new(role.to_owned()).expect("fixture role is valid"),
        task_id: TaskIdentity::new(task.to_owned()).expect("fixture task is valid"),
        subject_id: SubjectIdentity::new(subject.to_owned()).expect("fixture subject is valid"),
    }
}

fn decision(response: DaemonResponse) -> SessionDecision {
    match response {
        DaemonResponse::SessionDecision(decision) => decision,
        other => panic!("session decision request returned another payload: {other:?}"),
    }
}

fn evidence(response: DaemonResponse) -> Vec<SessionEvidence> {
    match response {
        DaemonResponse::SessionInventory(evidence) | DaemonResponse::SessionEvidence(evidence) => {
            evidence
        }
        other => panic!("session evidence request returned another payload: {other:?}"),
    }
}

fn successful_operation(fixture: &Sessions, prompt: &str) -> Operation {
    let started = operation(
        fixture
            .control
            .handle(DaemonRequest::OperationStart(start(
                &fixture.project,
                prompt,
                OperationIntent::New,
            )))
            .expect("operation starts"),
    );
    operation(
        fixture
            .control
            .handle(DaemonRequest::OperationWait {
                operation_id: started.operation_id,
                wait_millis: 5_000,
            })
            .expect("operation reaches a terminal result"),
    )
}

#[test]
fn session_tools_use_registered_projects_after_the_execution_directory_disappears() {
    let control = Control::new(State::open(), Provider::Succeeding { version: None });
    let project = ProjectRegistration {
        project_id: ProjectId::new("removed-directory-project".to_owned())
            .expect("fixture project id is valid"),
        working_directory: "/workspace/working-directory".to_owned(),
        claude_executable: "test-target".to_owned(),
        expected_opus_model: "opus".to_owned(),
    };
    control
        .handle(DaemonRequest::ProjectRegister(project.clone()))
        .expect("project registers before its directory disappears");
    let started = operation(
        control
            .handle(DaemonRequest::OperationStart(start(
                &project,
                "durable evidence before directory removal",
                OperationIntent::New,
            )))
            .expect("operation starts while its directory exists"),
    );
    let completed = operation(
        control
            .handle(DaemonRequest::OperationWait {
                operation_id: started.operation_id,
                wait_millis: 5_000,
            })
            .expect("operation completes"),
    );
    control.running.borrow_mut().directory_exists = false;

    let inventory = evidence(
        control
            .handle(DaemonRequest::SessionInventory(SessionInventoryRequest {
                project_id: project.project_id.clone(),
            }))
            .expect("inventory remains available for a registered project"),
    );
    assert_eq!(inventory.len(), 1);
    let inspected = evidence(
        control
            .handle(DaemonRequest::SessionInspect(SessionInspectRequest {
                project_id: project.project_id.clone(),
                target_session_id: completed.session_id,
            }))
            .expect("inspection remains available for a registered project"),
    );
    assert_eq!(inspected, inventory);
    let current_identity = identity("main-role", "gone-directory", "subject");
    control
        .handle(DaemonRequest::InitiatorBindingRegister(
            InitiatorBindingRequest {
                project_id: project.project_id.clone(),
                identity: current_identity.clone(),
                target_session_id: completed.session_id,
            },
        ))
        .expect("binding remains available for a registered project");
    match decision(
        control
            .handle(DaemonRequest::SessionDecide(SessionDecisionRequest {
                project_id: project.project_id.clone(),
                identity: current_identity,
                continuity: SessionContinuity::ContinueBound,
            }))
            .expect("bound decision remains available for a registered project"),
    ) {
        SessionDecision::ResumeExact {
            target_session_id,
            evidence_operation_ids,
        } => {
            assert_eq!(target_session_id, completed.session_id);
            assert_eq!(evidence_operation_ids, vec![completed.operation_id]);
        }
        SessionDecision::New { .. } | SessionDecision::Refuse { .. } => {
            panic!("registered durable evidence must still allow exact resume")
        }
    }
    match control.handle(DaemonRequest::OperationStart(start(
        &project,
        "execution after directory removal",
        OperationIntent::New,
    ))) {
        Err(OperatorError::InvalidRequest(message)) => {
            assert_eq!(message, "registered working_directory is not a directory")
        }
        other => panic!("operation start must retain execution-time cwd validation: {other:?}"),
    }
}

#[test]
fn exact_session_decisions_use_only_durable_operator_evidence_and_bindings() {
    let fixture = sessions(None);
    let first = successful_operation(&fixture, "first evidence");
    match first.terminal_outcome {
        Some(TerminalOutcome::Succeeded(_)) => {}
        Some(TerminalOutcome::Failed(message)) => panic!("evidence operation failed: {message}"),
        Some(TerminalOutcome::Cancelled(message)) => {
            panic!("evidence operation cancelled: {message}")
        }
        Some(TerminalOutcome::Indeterminate(message)) => {
            panic!("evidence operation was indeterminate: {message}")
        }
        None => panic!("evidence operation omitted its result"),
    }
    let inventory = evidence(
        fixture
            .control
            .handle(DaemonRequest::SessionInventory(SessionInventoryRequest {
                project_id: fixture.project.project_id.clone(),
            }))
            .expect("inventory succeeds"),
    );
    assert_eq!(inventory.len(), 1);
    assert_eq!(inventory[0].operation_id, first.operation_id);
    assert_eq!(inventory[0].target_session_id, first.session_id);
    assert_eq!(inventory[0].observed_model, "opus");
    assert_eq!(inventory[0].observed_claude_version, None);

    let inspected = evidence(
        fixture
            .control
            .handle(DaemonRequest::SessionInspect(SessionInspectRequest {
                project_id: fixture.project.project_id.clone(),
                target_session_id: first.session_id,
            }))
            .expect("exact evidence inspection succeeds"),
    );
    assert_eq!(inspected, inventory);
    let unknown = fixture
        .control
        .handle(DaemonRequest::SessionInspect(SessionInspectRequest {
            project_id: fixture.project.project_id.clone(),
            target_session_id: SessionId::new(),
        }));
    match unknown {
        Err(OperatorError::UnknownSession { project_id, .. }) => {
            assert_eq!(project_id, fixture.project.project_id)
        }
        other => panic!("inspection must return typed unknown_session: {other:?}"),
    }

    let current_identity = identity("main-role", "task-a", "subject-a");
    let registration = fixture
        .control
        .handle(DaemonRequest::InitiatorBindingRegister(
            InitiatorBindingRequest {
                project_id: fixture.project.project_id.clone(),
                identity: current_identity.clone(),
                target_session_id: first.session_id,
            },
        ))
        .expect("evidenced binding registers");
    match registration {
        DaemonResponse::BindingRegistration(registration) => {
            assert_eq!(
                registration.status,
                BindingRegistrationStatus::Inserted
            );
            assert_eq!(registration.binding.target_session_id, first.session_id);
        }
        DaemonResponse::Project(_)
        | DaemonResponse::Projects(_)
        | DaemonResponse::Operation(_)
        | DaemonResponse::SessionInventory(_)
        | DaemonResponse::SessionEvidence(_)
        | DaemonResponse::SessionDecision(_)
        | DaemonResponse::Conversation(_)
        | DaemonResponse::OperationDiagnostics(_) => {
            panic!("binding registration returned another payload")
        }
    }
    let existing = fixture
        .control
        .handle(DaemonRequest::InitiatorBindingRegister(
            InitiatorBindingRequest {
                project_id: fixture.project.project_id.clone(),
                identity: current_identity.clone(),
                target_session_id: first.session_id,
            },
        ))
        .expect("identical binding is idempotent");
    match existing {
        DaemonResponse::BindingRegistration(registration) => assert_eq!(
            registration.status,
            BindingRegistrationStatus::Existing
        ),
        DaemonResponse::Project(_)
        | DaemonResponse::Projects(_)
        | DaemonResponse::Operation(_)
        | DaemonResponse::SessionInventory(_)
        | DaemonResponse::SessionEvidence(_)
        | DaemonResponse::SessionDecision(_)
        | DaemonResponse::Conversation(_)
        | DaemonResponse::OperationDiagnostics(_) => {
            panic!("idempotent binding registration returned another payload")
        }
    }
    let different_session = successful_operation(&fixture, "second evidence");
    let conflict = fixture
        .control
        .handle(DaemonRequest::InitiatorBindingRegister(
            InitiatorBindingRequest {
                project_id: fixture.project.project_id.clone(),
                identity: current_identity.clone(),
                target_session_id: different_session.session_id,
            },
        ));
    match conflict {
        Err(OperatorError::BindingConflict {
            existing_target_session_id,
            requested_target_session_id,
        }) => {
            assert_eq!(existing_target_session_id, first.session_id);
            assert_eq!(requested_target_session_id, different_session.session_id);
        }
        other => panic!("different target under one identity must be typed conflict: {other:?}"),
    }
    let exact = decision(
        fixture
            .control
            .handle(DaemonRequest::SessionDecide(SessionDecisionRequest {
                project_id: fixture.project.project_id.clone(),
                identity: current_identity.clone(),
                continuity: SessionContinuity::ContinueBound,
            }))
            .expect("bound continuity decides"),
    );
    match exact {
        SessionDecision::ResumeExact {
            target_session_id,
            evidence_operation_ids,
        } => {
            assert_eq!(target_session_id, first.session_id);
            assert_eq!(evidence_operation_ids, vec![first.operation_id]);
        }
        SessionDecision::New { .. } | SessionDecision::Refuse { .. } => {
            panic!("exact binding must resume its evidenced target session")
        }
    }
    let invocations_before_decisions = fixture.control.target_runs();
    let independent = decision(
        fixture
            .control
            .handle(DaemonRequest::SessionDecide(SessionDecisionRequest {
                project_id: fixture.project.project_id.clone(),
                identity: current_identity.clone(),
                continuity: SessionContinuity::Independent,
            }))
            .expect("independent decision succeeds"),
    );
    assert_eq!(
        independent,
        SessionDecision::New {
            evidence: SessionDecisionEvidence::Independent
        }
    );
    assert_eq!(
        fixture.control.target_runs(),
        invocations_before_decisions
    );

    for changed_identity in [
        identity("other-role", "task-a", "subject-a"),
        identity("main-role", "other-task", "subject-a"),
        identity("main-role", "task-a", "other-subject"),
    ] {
        let changed = decision(
            fixture
                .control
                .handle(DaemonRequest::SessionDecide(SessionDecisionRequest {
                    project_id: fixture.project.project_id.clone(),
                    identity: changed_identity,
                    continuity: SessionContinuity::ContinueBound,
                }))
                .expect("changed identity decides"),
        );
        match changed {
            SessionDecision::Refuse {
                reason: SessionRefusalReason::IdentityMismatch,
                evidence: SessionDecisionEvidence::IdentityBindings { bindings },
            } => assert_eq!(bindings.len(), 1),
            SessionDecision::New { .. }
            | SessionDecision::ResumeExact { .. }
            | SessionDecision::Refuse { .. } => {
                panic!("changed identity must refuse before candidate selection")
            }
        }
    }
}

#[test]
fn unbound_and_unproved_bindings_preserve_their_closed_outcomes() {
    let context = sessions(Some("fixture-version".to_owned()));
    let first = successful_operation(&context, "first session");
    let second = successful_operation(&context, "second session");
    let unbound = decision(
        read_only_decision(&context, || {
            context
                .control
                .handle(DaemonRequest::SessionDecide(SessionDecisionRequest {
                    project_id: context.project.project_id.clone(),
                    identity: identity("main-role", "task-b", "subject-b"),
                    continuity: SessionContinuity::ContinueBound,
                }))
        })
        .expect("unbound decision succeeds"),
    );
    match unbound {
        SessionDecision::Refuse {
            reason: SessionRefusalReason::AmbiguousSessions,
            evidence: SessionDecisionEvidence::CandidateSessions { target_session_ids },
        } => {
            let mut expected = vec![first.session_id, second.session_id];
            expected.sort_by_key(|session_id| session_id.value());
            assert_eq!(target_session_ids, expected);
        }
        SessionDecision::New { .. }
        | SessionDecision::ResumeExact { .. }
        | SessionDecision::Refuse { .. } => {
            panic!("two unbound evidence sessions must refuse as ambiguous")
        }
    }
    let unknown_binding = context
        .control
        .handle(DaemonRequest::InitiatorBindingRegister(
            InitiatorBindingRequest {
                project_id: context.project.project_id.clone(),
                identity: identity("main-role", "task-c", "subject-c"),
                target_session_id: SessionId::new(),
            },
        ));
    match unknown_binding {
        Err(OperatorError::UnknownSession { .. }) => {}
        other => panic!("unproved binding must not persist: {other:?}"),
    }
    assert_eq!(
        context
            .state
            .get_initiator_binding(
                &context.project.project_id,
                &identity("main-role", "task-c", "subject-c"),
            )
            .expect("binding lookup succeeds after unknown-session refusal"),
        None
    );
    let other_project = ProjectRegistration {
        project_id: ProjectId::new("other-v02-project".to_owned())
            .expect("fixture project id is valid"),
        working_directory: "/workspace".to_owned(),
        claude_executable: "test-target".to_owned(),
        expected_opus_model: "opus".to_owned(),
    };
    context
        .control
        .handle(DaemonRequest::ProjectRegister(other_project.clone()))
        .expect("other project registers");
    let cross_project = context
        .control
        .handle(DaemonRequest::InitiatorBindingRegister(
            InitiatorBindingRequest {
                project_id: other_project.project_id.clone(),
                identity: identity("main-role", "task-cross", "subject-cross"),
                target_session_id: first.session_id,
            },
        ));
    match cross_project {
        Err(OperatorError::UnknownSession { project_id, .. }) => {
            assert_eq!(project_id, other_project.project_id)
        }
        other => panic!("cross-project session must not be binding evidence: {other:?}"),
    }
    assert_eq!(
        context
            .state
            .get_initiator_binding(
                &other_project.project_id,
                &identity("main-role", "task-cross", "subject-cross"),
            )
            .expect("cross-project binding lookup succeeds"),
        None
    );
    let stale_binding = InitiatorBinding {
        project_id: context.project.project_id.clone(),
        identity: identity("main-role", "task-d", "subject-d"),
        target_session_id: SessionId::new(),
    };
    match context
        .state
        .persist_initiator_binding(&stale_binding)
        .expect("state fixture persists exact stale binding")
    {
        BindingPersistence::Inserted => {}
        BindingPersistence::Existing { target_session_id } => {
            panic!("stale fixture binding unexpectedly existed for {target_session_id:?}")
        }
    }
    let stale = read_only_decision(&context, || {
        context
            .control
            .handle(DaemonRequest::SessionDecide(SessionDecisionRequest {
                project_id: context.project.project_id.clone(),
                identity: stale_binding.identity.clone(),
                continuity: SessionContinuity::ContinueBound,
            }))
    });
    match stale {
        Err(OperatorError::BoundSessionEvidenceMissing {
            binding,
            target_session_id,
        }) => {
            assert_eq!(*binding, stale_binding);
            assert_eq!(target_session_id, stale_binding.target_session_id);
        }
        other => panic!("stale exact binding must remain a typed state error: {other:?}"),
    }
    let no_candidate_fixture = sessions(None);
    let no_candidate = decision(
        read_only_decision(&no_candidate_fixture, || {
            no_candidate_fixture
                .control
                .handle(DaemonRequest::SessionDecide(SessionDecisionRequest {
                    project_id: no_candidate_fixture.project.project_id.clone(),
                    identity: identity("main-role", "task-e", "subject-e"),
                    continuity: SessionContinuity::ContinueBound,
                }))
        })
        .expect("empty evidence decision succeeds"),
    );
    assert_eq!(
        no_candidate,
        SessionDecision::Refuse {
            reason: SessionRefusalReason::BindingRequired,
            evidence: SessionDecisionEvidence::CandidateSessions {
                target_session_ids: Vec::new(),
            },
        }
    );
    let one_candidate_fixture = sessions(None);
    let only = successful_operation(&one_candidate_fixture, "only candidate");
    let one_candidate = decision(
        read_only_decision(&one_candidate_fixture, || {
            one_candidate_fixture
                .control
                .handle(DaemonRequest::SessionDecide(SessionDecisionRequest {
                    project_id: one_candidate_fixture.project.project_id.clone(),
                    identity: identity("main-role", "task-f", "subject-f"),
                    continuity: SessionContinuity::ContinueBound,
                }))
        })
        .expect("one-candidate decision succeeds"),
    );
    assert_eq!(
        one_candidate,
        SessionDecision::Refuse {
            reason: SessionRefusalReason::BindingRequired,
            evidence: SessionDecisionEvidence::CandidateSessions {
                target_session_ids: vec![only.session_id],
            },
        }
    );
}

#[test]
fn decisions_exclude_nonqualifying_evidence_and_never_mutate_durable_state() {
    let fixture = sessions(None);
    let qualifying = successful_operation(&fixture, "qualifying evidence");
    let failed = durable_operation(
        &fixture,
        OperationState::Failed,
        Some(qualifying.session_id),
        TerminalOutcome::Failed("fixture failure".to_owned()),
    );
    let cancelled = durable_operation(
        &fixture,
        OperationState::Cancelled,
        Some(qualifying.session_id),
        TerminalOutcome::Cancelled("fixture cancellation".to_owned()),
    );
    let indeterminate = durable_operation(
        &fixture,
        OperationState::Indeterminate,
        Some(qualifying.session_id),
        TerminalOutcome::Indeterminate("fixture ambiguity".to_owned()),
    );
    let accepted = durable_operation(
        &fixture,
        OperationState::Accepted,
        None,
        TerminalOutcome::Succeeded("unused".to_owned()),
    );
    let running = durable_operation(
        &fixture,
        OperationState::Running,
        None,
        TerminalOutcome::Succeeded("unused".to_owned()),
    );
    let mismatched = durable_operation(
        &fixture,
        OperationState::Succeeded,
        Some(SessionId::new()),
        TerminalOutcome::Succeeded("mismatched identity".to_owned()),
    );
    let other_project = ProjectRegistration {
        project_id: ProjectId::new("cross-project-evidence".to_owned())
            .expect("fixture project id is valid"),
        working_directory: "/workspace".to_owned(),
        claude_executable: "test-target".to_owned(),
        expected_opus_model: "opus".to_owned(),
    };
    fixture
        .control
        .handle(DaemonRequest::ProjectRegister(other_project.clone()))
        .expect("cross-project fixture registers");
    let cross_project = durable_operation_for_project(
        &fixture.state,
        &other_project,
        OperationState::Succeeded,
        None,
        TerminalOutcome::Succeeded("cross project".to_owned()),
    );
    let inventory = evidence(
        fixture
            .control
            .handle(DaemonRequest::SessionInventory(SessionInventoryRequest {
                project_id: fixture.project.project_id.clone(),
            }))
            .expect("inventory reads durable evidence"),
    );
    assert_eq!(inventory.len(), 1);
    assert_eq!(inventory[0].operation_id, qualifying.operation_id);
    assert_ne!(inventory[0].operation_id, failed.operation_id);
    assert_ne!(inventory[0].operation_id, cancelled.operation_id);
    assert_ne!(inventory[0].operation_id, indeterminate.operation_id);
    assert_ne!(inventory[0].operation_id, accepted.operation_id);
    assert_ne!(inventory[0].operation_id, running.operation_id);
    assert_ne!(inventory[0].operation_id, mismatched.operation_id);
    assert_ne!(inventory[0].operation_id, cross_project.operation_id);

    let bound_identity = identity("main-role", "bound", "subject");
    fixture
        .control
        .handle(DaemonRequest::InitiatorBindingRegister(
            InitiatorBindingRequest {
                project_id: fixture.project.project_id.clone(),
                identity: bound_identity.clone(),
                target_session_id: qualifying.session_id,
            },
        ))
        .expect("qualifying binding registers");
    let exact = read_only_decision(&fixture, || {
        fixture
            .control
            .handle(DaemonRequest::SessionDecide(SessionDecisionRequest {
                project_id: fixture.project.project_id.clone(),
                identity: bound_identity.clone(),
                continuity: SessionContinuity::ContinueBound,
            }))
    });
    match exact.expect("bound decision succeeds") {
        DaemonResponse::SessionDecision(SessionDecision::ResumeExact {
            target_session_id,
            evidence_operation_ids,
        }) => {
            assert_eq!(target_session_id, qualifying.session_id);
            assert_eq!(evidence_operation_ids, vec![qualifying.operation_id]);
        }
        other => panic!("bound evidence must exact-resume: {other:?}"),
    }
    let independent = read_only_decision(&fixture, || {
        fixture
            .control
            .handle(DaemonRequest::SessionDecide(SessionDecisionRequest {
                project_id: fixture.project.project_id.clone(),
                identity: bound_identity.clone(),
                continuity: SessionContinuity::Independent,
            }))
    });
    assert_eq!(
        decision(independent.expect("independent decision succeeds")),
        SessionDecision::New {
            evidence: SessionDecisionEvidence::Independent
        }
    );
    let mismatch = read_only_decision(&fixture, || {
        fixture
            .control
            .handle(DaemonRequest::SessionDecide(SessionDecisionRequest {
                project_id: fixture.project.project_id.clone(),
                identity: identity("other-role", "bound", "subject"),
                continuity: SessionContinuity::ContinueBound,
            }))
    });
    match decision(mismatch.expect("identity mismatch is a refusal")) {
        SessionDecision::Refuse {
            reason: SessionRefusalReason::IdentityMismatch,
            evidence: SessionDecisionEvidence::IdentityBindings { bindings },
        } => assert_eq!(bindings.len(), 1),
        other => panic!("identity mismatch must retain its selecting evidence: {other:?}"),
    }
    let stale_binding = InitiatorBinding {
        project_id: fixture.project.project_id.clone(),
        identity: identity("main-role", "stale", "subject"),
        target_session_id: failed.session_id,
    };
    match fixture
        .state
        .persist_initiator_binding(&stale_binding)
        .expect("stale binding fixture persists")
    {
        BindingPersistence::Inserted => {}
        BindingPersistence::Existing { target_session_id } => {
            panic!("stale binding unexpectedly existed for {target_session_id:?}")
        }
    }
    let stale = read_only_decision(&fixture, || {
        fixture
            .control
            .handle(DaemonRequest::SessionDecide(SessionDecisionRequest {
                project_id: fixture.project.project_id.clone(),
                identity: stale_binding.identity.clone(),
                continuity: SessionContinuity::ContinueBound,
            }))
    });
    match stale {
        Err(OperatorError::BoundSessionEvidenceMissing {
            binding,
            target_session_id,
        }) => {
            assert_eq!(*binding, stale_binding);
            assert_eq!(target_session_id, failed.session_id);
        }
        other => panic!("stale binding must remain a no-effect state error: {other:?}"),
    }

    let unbound_identity = InitiatorIdentity {
        initiator_session_id: InitiatorSessionIdentity::new("other-session".to_owned())
            .expect("fixture identity is valid"),
        initiator_agent_id: InitiatorAgentIdentity::new("other-agent".to_owned())
            .expect("fixture identity is valid"),
        role_id: RoleIdentity::new("main-role".to_owned()).expect("fixture identity is valid"),
        task_id: TaskIdentity::new("unbound".to_owned()).expect("fixture identity is valid"),
        subject_id: SubjectIdentity::new("subject".to_owned()).expect("fixture identity is valid"),
    };
    let ambiguous = read_only_decision(&fixture, || {
        fixture
            .control
            .handle(DaemonRequest::SessionDecide(SessionDecisionRequest {
                project_id: fixture.project.project_id.clone(),
                identity: unbound_identity,
                continuity: SessionContinuity::ContinueBound,
            }))
    });
    match decision(ambiguous.expect("unbound decision succeeds")) {
        SessionDecision::Refuse {
            reason: SessionRefusalReason::BindingRequired,
            evidence: SessionDecisionEvidence::CandidateSessions { target_session_ids },
        } => assert_eq!(target_session_ids, vec![qualifying.session_id]),
        other => panic!("excluded rows must not make one qualifying session ambiguous: {other:?}"),
    }
}

fn durable_operation(
    fixture: &Sessions,
    state: OperationState,
    observed_session_id: Option<SessionId>,
    terminal: TerminalOutcome,
) -> Operation {
    durable_operation_for_project(
        &fixture.state,
        &fixture.project,
        state,
        observed_session_id,
        terminal,
    )
}

fn durable_operation_for_project(
    state_port: &State,
    project: &ProjectRegistration,
    state: OperationState,
    observed_session_id: Option<SessionId>,
    terminal: TerminalOutcome,
) -> Operation {
    let request = start(project, &fresh_text(), OperationIntent::New);
    let session_id = SessionId::new();
    let operation = match state_port
        .persist_operation_admission(&request, session_id, "durable fixture")
        .expect("fixture operation persists")
    {
        OperationAdmission::Inserted(operation) => operation,
        OperationAdmission::Existing { operation, .. } => {
            panic!(
                "fixture operation unexpectedly existed: {:?}",
                operation.operation_id
            )
        }
        OperationAdmission::MissingProject => panic!("fixture project disappeared"),
        OperationAdmission::ActiveSession { operation } => {
            panic!(
                "fixture session was already claimed by {:?}",
                operation.operation_id
            )
        }
    };
    match state {
        OperationState::Accepted => operation,
        OperationState::Running => state_port
            .transition(
                operation.operation_id,
                OperationState::Running,
                None,
                None,
                None,
                None,
            )
            .expect("fixture operation reaches running"),
        OperationState::Succeeded
        | OperationState::Failed
        | OperationState::Cancelled
        | OperationState::Indeterminate => {
            state_port
                .transition(
                    operation.operation_id,
                    OperationState::Running,
                    None,
                    None,
                    None,
                    None,
                )
                .expect("fixture operation reaches running");
            state_port
                .transition(
                    operation.operation_id,
                    state,
                    Some(terminal),
                    observed_session_id,
                    Some("opus".to_owned()),
                    None,
                )
                .expect("fixture operation reaches its terminal state")
        }
    }
}

fn read_only_decision<T>(fixture: &Sessions, action: impl FnOnce() -> T) -> T {
    let before = fixture.state.contents();
    let invocations = fixture.control.target_runs();
    let result = action();
    assert_eq!(fixture.state.contents(), before);
    assert_eq!(fixture.control.target_runs(), invocations);
    result
}

fn project() -> ProjectRegistration {
    ProjectRegistration {
        project_id: ProjectId::new("v03-state-project".to_owned())
            .expect("fixture project id is valid"),
        working_directory: "/workspace".to_owned(),
        claude_executable: "fixture-target".to_owned(),
        expected_opus_model: "opus".to_owned(),
    }
}

fn start_of(project: &ProjectRegistration, turn_id: TurnId) -> ConversationStart {
    ConversationStart {
        request_id: RequestId::new(fresh()),
        project_id: project.project_id.clone(),
        intent: OperationIntent::New,
        turn_id,
        prompt: "first prompt".to_owned(),
        review_profile: ReviewProfile::OpusReadOnly,
    }
}

fn live_start(prompt: &str) -> TargetLiveStart {
    TargetLiveStart {
        operation_id: TargetOperationId(fresh()),
        working_directory: "/workspace".to_owned(),
        executable: "fixture-target".to_owned(),
        expected_model: "opus".to_owned(),
        intent: TargetIntent::New,
        session_id: TargetSessionId(fresh()),
        first_turn: TargetLiveTurn {
            turn_id: TargetTurnId(fresh()),
            position: 1,
            prompt: prompt.to_owned(),
        },
    }
}

fn assert_live_protocol_failure(prompt: &str) {
    let mut target = Target::new(Provider::Fixture);
    let start = live_start(prompt);
    let operation_id = start.operation_id;
    target.start_live(start).expect("live target starts");
    target.grant(operation_id);
    loop {
        match target.observe().expect("protocol failure produces a terminal observation") {
            TargetLiveObservation::Indeterminate(message) => {
                assert!(!message.contains("fixture-live-stderr-marker"));
                return;
            }
            TargetLiveObservation::UnclassifiedWriter(_) => {
                panic!("deterministic fake exit must prove direct-child cleanup")
            }
            TargetLiveObservation::Cancelled
            | TargetLiveObservation::Exited
            | TargetLiveObservation::Failed(_) => {
                panic!("protocol failure must be indeterminate")
            }
            _ => {}
        }
    }
}

#[test]
fn live_protocol_identity_and_stream_failures_are_indeterminate_without_stderr_leakage() {
    for prompt in [
        "__fixture_live_session_mismatch__",
        "__fixture_live_model_mismatch__",
        "__fixture_live_uuid_mismatch__",
        "__fixture_live_content_mismatch__",
        "__fixture_live_invalid_json__",
        "__fixture_live_unknown_lifecycle__",
        "__fixture_live_lifecycle_order_mismatch__",
        "__fixture_live_malformed_tool_result__",
        "__fixture_live_result_without_started__",
        "__fixture_live_unexpected_exit__",
    ] {
        assert_live_protocol_failure(prompt);
    }
}

#[test]
fn durable_conversation_admission_orders_turns_events_and_recovers_active_claim() {
    let project = project();
    let state = State::open();
    state
        .register_project(project.clone())
        .expect("project registers");
    let session_id = SessionId::new_exact(fresh());
    let first_turn_id = TurnId::new(fresh());
    let request = start_of(&project, first_turn_id);
    let (operation, conversation) = match state
        .persist_conversation_start(&request, session_id, "first request")
        .expect("conversation start persists")
    {
        ConversationStartAdmission::Inserted {
            operation,
            conversation,
            first_turn,
        } => {
            assert_eq!(first_turn.position, 1);
            (operation, conversation)
        }
        ConversationStartAdmission::Existing { .. }
        | ConversationStartAdmission::ExistingOperation { .. }
        | ConversationStartAdmission::MissingProject
        | ConversationStartAdmission::ActiveSession { .. } => {
            panic!("first conversation admission must insert")
        }
    };
    match state
        .persist_conversation_start(&request, session_id, "first request")
        .expect("same conversation start reads durable fact")
    {
        ConversationStartAdmission::Existing {
            operation: existing,
            conversation: existing_conversation,
            first_turn,
            fingerprint,
        } => {
            assert_eq!(existing, operation);
            assert_eq!(existing_conversation, conversation);
            assert_eq!(first_turn.position, 1);
            assert_eq!(fingerprint, "first request");
        }
        ConversationStartAdmission::MissingProject
        | ConversationStartAdmission::ExistingOperation { .. }
        | ConversationStartAdmission::ActiveSession { .. }
        | ConversationStartAdmission::Inserted { .. } => {
            panic!("same conversation start must not create another operation")
        }
    }
    let first_initialization = state
        .record_conversation_initialization(
            conversation.conversation_id,
            session_id,
            "opus".to_owned(),
            Some("fixture-1".to_owned()),
        )
        .expect("first provider initialization persists");
    assert_eq!(first_initialization.sequence, 2);
    let second_turn_id = TurnId::new(fresh());
    let second_turn = ConversationSend {
        conversation_id: conversation.conversation_id,
        turn_id: second_turn_id,
        prompt: "second prompt".to_owned(),
    };
    match state
        .persist_conversation_turn(&second_turn, "second request")
        .expect("second turn persists")
    {
        ConversationTurnAdmission::Inserted(turn) => assert_eq!(turn.position, 2),
        ConversationTurnAdmission::Existing { .. }
        | ConversationTurnAdmission::MissingConversation
        | ConversationTurnAdmission::Closed { .. } => {
            panic!("second turn must receive the next durable position")
        }
    }
    match state
        .persist_conversation_turn(&second_turn, "second request")
        .expect("same turn reads durable fact")
    {
        ConversationTurnAdmission::Existing { turn, fingerprint } => {
            assert_eq!(turn.position, 2);
            assert_eq!(fingerprint, "second request");
        }
        ConversationTurnAdmission::MissingConversation
        | ConversationTurnAdmission::Closed { .. }
        | ConversationTurnAdmission::Inserted(_) => {
            panic!("same turn must not receive another position")
        }
    }
    let second_initialization = state
        .record_conversation_initialization(
            conversation.conversation_id,
            session_id,
            "opus".to_owned(),
            Some("fixture-1".to_owned()),
        )
        .expect("repeated provider initialization persists");
    assert_eq!(second_initialization.sequence, 4);
    assert_eq!(
        state
            .get_conversation_snapshot(conversation.conversation_id, 1)
            .expect("production snapshot cursor reads")
            .events,
        vec![
            ConversationEvent {
                conversation_id: conversation.conversation_id,
                sequence: 2,
                payload: ConversationEventPayload::Initialized {
                    session_id,
                    model: "opus".to_owned(),
                    claude_version: Some("fixture-1".to_owned()),
                },
            },
            ConversationEvent {
                conversation_id: conversation.conversation_id,
                sequence: 3,
                payload: ConversationEventPayload::TurnQueued {
                    turn_id: second_turn_id,
                },
            },
            second_initialization,
        ]
    );
    match state
        .close_conversation(
            conversation.conversation_id,
            ConversationStopMode::Graceful,
        )
        .expect("conversation closes admission")
    {
        ConversationCloseAdmission::ClosedNow {
            conversation,
            through_position,
        } => {
            assert_eq!(conversation.state, ConversationState::Closing);
            assert_eq!(through_position, 2);
        }
        ConversationCloseAdmission::AlreadyClosing(_)
        | ConversationCloseAdmission::EscalatedToCancel(_)
        | ConversationCloseAdmission::Terminal(_) => {
            panic!("open conversation must be atomically closed by the first caller")
        }
    }
    match state
        .persist_conversation_turn(
            &ConversationSend {
                conversation_id: conversation.conversation_id,
                turn_id: TurnId::new(fresh()),
                prompt: "rejected prompt".to_owned(),
            },
            "rejected request",
        )
        .expect("closed conversation returns a fact")
    {
        ConversationTurnAdmission::Closed {
            conversation: closed,
        } => assert_eq!(closed.state, ConversationState::Closing),
        ConversationTurnAdmission::Existing { .. }
        | ConversationTurnAdmission::MissingConversation
        | ConversationTurnAdmission::Inserted(_) => {
            panic!("closed conversation must not admit another turn")
        }
    }
    let reopened = state.reopen();
    assert_eq!(
        reopened
            .get_conversation(ConversationId::new(operation.operation_id))
            .expect("conversation remains durable")
            .state,
        ConversationState::Indeterminate
    );
    let recovered_operation = reopened
        .get_operation(operation.operation_id)
        .expect("recovered operation remains durable");
    assert_eq!(
        recovered_operation.terminal_outcome,
        reopened
            .get_conversation(ConversationId::new(operation.operation_id))
            .expect("recovered conversation remains durable")
            .terminal_outcome
    );
    match reopened
        .persist_conversation_start(
            &start_of(&project, TurnId::new(fresh())),
            session_id,
            "new request",
        )
        .expect("restart writer fact reads")
    {
        ConversationStartAdmission::ActiveSession { operation: claimed } => {
            assert_eq!(claimed.operation_id, operation.operation_id);
        }
        ConversationStartAdmission::Existing { .. }
        | ConversationStartAdmission::ExistingOperation { .. }
        | ConversationStartAdmission::MissingProject
        | ConversationStartAdmission::Inserted { .. } => {
            panic!("restart must retain the unclassified session claim")
        }
    }
}

#[test]
fn exact_session_claim_is_shared_by_live_and_one_shot_admission_in_both_directions() {
    let project = project();
    let session_id = SessionId::new_exact(fresh());
    let state = State::open();
    state
        .register_project(project.clone())
        .expect("project registers");
    let live = start_of(&project, TurnId::new(fresh()));
    match state
        .persist_conversation_start(&live, session_id, "live writer")
        .expect("live writer admits")
    {
        ConversationStartAdmission::Inserted { .. } => {}
        ConversationStartAdmission::Existing { .. }
        | ConversationStartAdmission::ExistingOperation { .. }
        | ConversationStartAdmission::MissingProject
        | ConversationStartAdmission::ActiveSession { .. } => {
            panic!("live writer must acquire exact session claim")
        }
    }
    let one_shot = OperationStart {
        request_id: RequestId::new(fresh()),
        project_id: project.project_id.clone(),
        intent: OperationIntent::ResumeExact { session_id },
        prompt: "one-shot contender".to_owned(),
        review_profile: ReviewProfile::OpusReadOnly,
    };
    match state
        .persist_operation_admission(&one_shot, session_id, "one-shot contender")
        .expect("one-shot admission reads claim")
    {
        OperationAdmission::ActiveSession { .. } => {}
        other => panic!("one-shot contender must see the live writer claim: {other:?}"),
    }
    drop(state);

    let state = State::open();
    state
        .register_project(project.clone())
        .expect("project registers");
    let one_shot = OperationStart {
        request_id: RequestId::new(fresh()),
        project_id: project.project_id.clone(),
        intent: OperationIntent::ResumeExact { session_id },
        prompt: "one-shot writer".to_owned(),
        review_profile: ReviewProfile::OpusReadOnly,
    };
    match state
        .persist_operation_admission(&one_shot, session_id, "one-shot writer")
        .expect("one-shot writer admits")
    {
        OperationAdmission::Inserted(_) => {}
        other => panic!("one-shot writer must acquire exact session claim: {other:?}"),
    }
    let live = ConversationStart {
        request_id: RequestId::new(fresh()),
        project_id: project.project_id.clone(),
        intent: OperationIntent::ResumeExact { session_id },
        turn_id: TurnId::new(fresh()),
        prompt: "live contender".to_owned(),
        review_profile: ReviewProfile::OpusReadOnly,
    };
    match state
        .persist_conversation_start(&live, session_id, "live contender")
        .expect("live admission reads claim")
    {
        ConversationStartAdmission::ActiveSession { .. } => {}
        other => panic!("live contender must see the one-shot writer claim: {other:?}"),
    }
}

#[test]
fn ambiguous_input_delivery_closes_admission_cancels_without_retry_and_becomes_indeterminate() {
    let state = State::open();
    let project = project();
    state
        .register_project(project.clone())
        .expect("project registers");
    let control = Control::new(state.clone(), Provider::Ambiguous);
    let started = match control
        .handle(DaemonRequest::ConversationStart(
            start_of(&project, TurnId::new(fresh())),
        ))
        .expect("conversation starts")
    {
        DaemonResponse::Conversation(snapshot) => snapshot,
        other => panic!("conversation start returned another payload: {other:?}"),
    };
    let conversation_id = started.conversation.conversation_id;
    let send = control.handle(DaemonRequest::ConversationSend(
        ConversationSend {
            conversation_id,
            turn_id: TurnId::new(fresh()),
            prompt: "ambiguous delivery".to_owned(),
        },
    ));
    assert!(matches!(send, Err(OperatorError::Indeterminate(_))));
    assert_eq!(control.running.borrow().target.send_attempts, 1);
    assert!(control.running.borrow().target.cancel_requested);
    let terminal = loop {
        let snapshot = state
            .get_conversation_snapshot(conversation_id, 0)
            .expect("conversation snapshot reads");
        if snapshot.conversation.state.terminal() {
            break snapshot;
        }
        assert!(control.progress(), "ambiguous delivery did not terminalize");
    };
    assert_eq!(
        terminal.conversation.state,
        ConversationState::Indeterminate
    );
    let later = control.handle(DaemonRequest::ConversationSend(
        ConversationSend {
            conversation_id,
            turn_id: TurnId::new(fresh()),
            prompt: "must not be delivered".to_owned(),
        },
    ));
    assert!(matches!(later, Err(OperatorError::Conflict(_))));
    assert_eq!(control.running.borrow().target.send_attempts, 1);
}

#[test]
fn completed_turn_can_terminalize_a_conversation_with_one_atomic_terminal_event() {
    let project = project();
    let state = State::open();
    state
        .register_project(project.clone())
        .expect("project registers");
    let session_id = SessionId::new_exact(fresh());
    let turn_id = TurnId::new(fresh());
    let conversation = match state
        .persist_conversation_start(&start_of(&project, turn_id), session_id, "start")
        .expect("conversation start persists")
    {
        ConversationStartAdmission::Inserted { conversation, .. } => conversation,
        ConversationStartAdmission::Existing { .. }
        | ConversationStartAdmission::ExistingOperation { .. }
        | ConversationStartAdmission::MissingProject
        | ConversationStartAdmission::ActiveSession { .. } => {
            panic!("new conversation admission must insert")
        }
    };
    state
        .record_conversation_initialization(
            conversation.conversation_id,
            session_id,
            "opus".to_owned(),
            None,
        )
        .expect("provider initialization records qualifying operation identity");
    let started = state
        .record_conversation_turn_observation(
            conversation.conversation_id,
            turn_id,
            Some(TurnState::Started),
            None,
            ConversationEventPayload::TurnStarted { turn_id },
        )
        .expect("turn start and event persist atomically");
    assert_eq!(started.turn.state, TurnState::Started);
    assert_eq!(started.event.sequence, 3);
    let completed = state
        .record_conversation_turn_observation(
            conversation.conversation_id,
            turn_id,
            Some(TurnState::Completed),
            Some("review result".to_owned()),
            ConversationEventPayload::TurnCompleted {
                turn_id,
                result: "review result".to_owned(),
            },
        )
        .expect("turn completion and event persist atomically");
    assert_eq!(completed.turn.state, TurnState::Completed);
    assert_eq!(completed.event.sequence, 4);
    assert_eq!(
        state
            .terminalize_conversation(
                conversation.conversation_id,
                ConversationState::Succeeded,
                OperationState::Succeeded,
                TerminalOutcome::Succeeded("review result".to_owned()),
                SessionClaimDisposition::ReleaseProvenWriter,
            )
            .expect("completed conversation terminalizes")
            .state,
        ConversationState::Succeeded
    );
    let qualifying_evidence = state
        .list_session_evidence(&project.project_id)
        .expect("successful live conversation is qualifying evidence");
    assert_eq!(qualifying_evidence.len(), 1);
    assert_eq!(
        qualifying_evidence[0].operation_id,
        conversation.conversation_id.operation_id()
    );
    assert_eq!(qualifying_evidence[0].target_session_id, session_id);
    assert_eq!(qualifying_evidence[0].observed_model, "opus");
    assert_eq!(qualifying_evidence[0].observed_claude_version, None);
    assert_eq!(
        state
            .inspect_session_evidence(&project.project_id, session_id)
            .expect("qualifying session evidence is inspectable"),
        qualifying_evidence
    );
    let snapshot = state
        .get_conversation_snapshot(conversation.conversation_id, completed.event.sequence)
        .expect("terminal snapshot reads");
    assert_eq!(snapshot.turns.len(), 1);
    assert_eq!(snapshot.turns[0].state, TurnState::Completed);
    assert_eq!(
        snapshot.events,
        vec![ConversationEvent {
            conversation_id: conversation.conversation_id,
            sequence: 5,
            payload: ConversationEventPayload::ConversationTerminal {
                outcome: TerminalOutcome::Succeeded("review result".to_owned()),
            },
        }]
    );
    match state.record_conversation_turn_observation(
        conversation.conversation_id,
        turn_id,
        None,
        None,
        ConversationEventPayload::AssistantTextDelta {
            turn_id,
            text: "late delta".to_owned(),
        },
    ) {
        Err(OperatorError::Conflict(message)) => {
            assert_eq!(
                message,
                "terminal conversation cannot append a turn observation"
            );
        }
        other => panic!("terminal conversation must reject a late turn event: {other:?}"),
    }
    assert_eq!(
        state
            .get_conversation_snapshot(conversation.conversation_id, completed.event.sequence)
            .expect("terminal event remains the final timeline event")
            .events,
        snapshot.events
    );
}

#[test]
fn completed_turn_rejects_late_acknowledgement_and_delta_without_changing_open_timeline() {
    let project = project();
    let state = State::open();
    state
        .register_project(project.clone())
        .expect("project registers");
    let session_id = SessionId::new_exact(fresh());
    let turn_id = TurnId::new(fresh());
    let conversation = match state
        .persist_conversation_start(&start_of(&project, turn_id), session_id, "start")
        .expect("conversation start persists")
    {
        ConversationStartAdmission::Inserted { conversation, .. } => conversation,
        ConversationStartAdmission::Existing { .. }
        | ConversationStartAdmission::ExistingOperation { .. }
        | ConversationStartAdmission::MissingProject
        | ConversationStartAdmission::ActiveSession { .. } => {
            panic!("new conversation admission must insert")
        }
    };
    state
        .record_conversation_turn_observation(
            conversation.conversation_id,
            turn_id,
            Some(TurnState::Started),
            None,
            ConversationEventPayload::TurnStarted { turn_id },
        )
        .expect("turn starts");
    let completed = state
        .record_conversation_turn_observation(
            conversation.conversation_id,
            turn_id,
            Some(TurnState::Completed),
            Some("completed result".to_owned()),
            ConversationEventPayload::TurnCompleted {
                turn_id,
                result: "completed result".to_owned(),
            },
        )
        .expect("turn completes while the conversation remains open");
    let before = state
        .get_conversation_snapshot(conversation.conversation_id, 0)
        .expect("open conversation snapshot reads");
    assert_eq!(before.conversation.state, ConversationState::Open);
    assert!(matches!(
        state.record_conversation_turn_observation(
            conversation.conversation_id,
            turn_id,
            None,
            None,
            ConversationEventPayload::TurnAcknowledged { turn_id },
        ),
        Err(OperatorError::Conflict(_))
    ));
    assert!(matches!(
        state.record_conversation_turn_observation(
            conversation.conversation_id,
            turn_id,
            None,
            None,
            ConversationEventPayload::AssistantTextDelta {
                turn_id,
                text: "late delta".to_owned(),
            },
        ),
        Err(OperatorError::Conflict(_))
    ));
    let after = state
        .get_conversation_snapshot(conversation.conversation_id, 0)
        .expect("open conversation snapshot remains readable");
    assert_eq!(after.conversation.state, ConversationState::Open);
    assert_eq!(after.turns, before.turns);
    assert_eq!(after.events, before.events);
    assert_eq!(
        after
            .events
            .last()
            .expect("completed event remains present")
            .sequence,
        completed.event.sequence
    );
}

#[test]
fn request_id_occupation_returns_existing_facts_without_creating_a_second_effect() {
    let project = project();
    let state = State::open();
    state
        .register_project(project.clone())
        .expect("project registers");

    let session_id = SessionId::new_exact(fresh());
    let original_turn_id = TurnId::new(fresh());
    let request = start_of(&project, original_turn_id);
    let original_operation = match state
        .persist_conversation_start(&request, session_id, "conversation fingerprint")
        .expect("conversation start persists")
    {
        ConversationStartAdmission::Inserted { operation, .. } => operation,
        ConversationStartAdmission::Existing { .. }
        | ConversationStartAdmission::ExistingOperation { .. }
        | ConversationStartAdmission::MissingProject
        | ConversationStartAdmission::ActiveSession { .. } => {
            panic!("first conversation start must insert")
        }
    };
    let changed_turn_id = TurnId::new(fresh());
    let changed_turn_request = ConversationStart {
        turn_id: changed_turn_id,
        ..request.clone()
    };
    match state
        .persist_conversation_start(
            &changed_turn_request,
            session_id,
            "conversation fingerprint",
        )
        .expect("occupied conversation request returns durable fact")
    {
        ConversationStartAdmission::Existing {
            operation,
            first_turn,
            fingerprint,
            ..
        } => {
            assert_eq!(operation.operation_id, original_operation.operation_id);
            assert_eq!(first_turn.turn_id, original_turn_id);
            assert_eq!(fingerprint, "conversation fingerprint");
        }
        ConversationStartAdmission::ExistingOperation { .. }
        | ConversationStartAdmission::MissingProject
        | ConversationStartAdmission::ActiveSession { .. }
        | ConversationStartAdmission::Inserted { .. } => {
            panic!("changed first turn must expose the existing conversation fact")
        }
    }

    let one_shot_request_id = RequestId::new(fresh());
    let one_shot = OperationStart {
        request_id: one_shot_request_id,
        project_id: project.project_id.clone(),
        intent: OperationIntent::New,
        prompt: "one-shot prompt".to_owned(),
        review_profile: ReviewProfile::OpusReadOnly,
    };
    let one_shot_operation = match state
        .persist_operation_admission(
            &one_shot,
            SessionId::new_exact(fresh()),
            "one-shot fingerprint",
        )
        .expect("one-shot operation persists")
    {
        OperationAdmission::Inserted(operation) => operation,
        OperationAdmission::Existing { .. }
        | OperationAdmission::MissingProject
        | OperationAdmission::ActiveSession { .. } => {
            panic!("one-shot operation must insert")
        }
    };
    let cross_kind = ConversationStart {
        request_id: one_shot_request_id,
        project_id: project.project_id.clone(),
        intent: OperationIntent::New,
        turn_id: TurnId::new(fresh()),
        prompt: "live prompt".to_owned(),
        review_profile: ReviewProfile::OpusReadOnly,
    };
    match state
        .persist_conversation_start(
            &cross_kind,
            SessionId::new_exact(fresh()),
            "live fingerprint",
        )
        .expect("cross-kind request occupation returns durable fact")
    {
        ConversationStartAdmission::ExistingOperation {
            operation,
            fingerprint,
        } => {
            assert_eq!(operation.operation_id, one_shot_operation.operation_id);
            assert_eq!(fingerprint, "one-shot fingerprint");
        }
        ConversationStartAdmission::Existing { .. }
        | ConversationStartAdmission::MissingProject
        | ConversationStartAdmission::ActiveSession { .. }
        | ConversationStartAdmission::Inserted { .. } => {
            panic!("one-shot request occupation must not create a conversation")
        }
    }
    match state.get_conversation(ConversationId::new(one_shot_operation.operation_id)) {
        Err(OperatorError::UnknownOperation(operation_id))
            if operation_id == one_shot_operation.operation_id.to_text() => {}
        other => panic!("cross-kind request reuse must not create a conversation: {other:?}"),
    }
}

#[test]
fn one_live_child_preserves_two_durable_turns_and_emits_text_before_results() {
    let mut target = Target::new(Provider::Fixture);
    let start = live_start("first live prompt");
    let operation_id = start.operation_id;
    let session_id = start.session_id;
    let first_turn_id = start.first_turn.turn_id;
    let second_turn_id = TargetTurnId(fresh());
    target.start_live(start).expect("live target starts one child");
    target.grant(operation_id);
    target
        .stop_live(
            operation_id,
            TargetLiveStop::Graceful {
                through_position: 2,
            },
        )
        .expect("graceful close waits for its durably admitted position");
    target
        .send_live(
            operation_id,
            TargetLiveTurn {
                turn_id: second_turn_id,
                position: 2,
                prompt: "second live prompt".to_owned(),
            },
        )
        .expect("late target delivery still reaches the graceful durable bound");
    target
        .send_live(
            operation_id,
            TargetLiveTurn {
                turn_id: second_turn_id,
                position: 2,
                prompt: "second live prompt".to_owned(),
            },
        )
        .expect("equivalent duplicate turn must not become a second input write");
    let changed_turn = target.send_live(
        operation_id,
        TargetLiveTurn {
            turn_id: second_turn_id,
            position: 2,
            prompt: "changed second live prompt".to_owned(),
        },
    );
    match changed_turn {
        Err(error) if error.contains("different content") => {}
        other => panic!("changed caller turn UUID must conflict before input write: {other:?}"),
    }
    let mut observed = Vec::new();
    loop {
        let observation = target
            .observe()
            .expect("live child produces a terminal observation");
        let ended = observation == TargetLiveObservation::Exited;
        observed.push(observation);
        if ended {
            break;
        }
    }
    assert_eq!(
        observed,
        vec![
            TargetLiveObservation::TurnQueued {
                turn_id: first_turn_id,
            },
            TargetLiveObservation::TurnStarted {
                turn_id: first_turn_id,
            },
            TargetLiveObservation::Initialized {
                session_id,
                model: "opus".to_owned(),
                version: Some("fixture-1".to_owned()),
            },
            TargetLiveObservation::TurnAcknowledged {
                turn_id: first_turn_id,
            },
            TargetLiveObservation::AssistantTextDelta {
                turn_id: first_turn_id,
                text: "live: first live prompt".to_owned(),
            },
            TargetLiveObservation::TurnCompleted {
                turn_id: first_turn_id,
                result: "live result: first live prompt".to_owned(),
            },
            TargetLiveObservation::TurnQueued {
                turn_id: second_turn_id,
            },
            TargetLiveObservation::TurnStarted {
                turn_id: second_turn_id,
            },
            TargetLiveObservation::Initialized {
                session_id,
                model: "opus".to_owned(),
                version: Some("fixture-1".to_owned()),
            },
            TargetLiveObservation::TurnAcknowledged {
                turn_id: second_turn_id,
            },
            TargetLiveObservation::AssistantTextDelta {
                turn_id: second_turn_id,
                text: "live: second live prompt".to_owned(),
            },
            TargetLiveObservation::TurnCompleted {
                turn_id: second_turn_id,
                result: "live result: second live prompt".to_owned(),
            },
            TargetLiveObservation::Exited,
        ]
    );
    assert_eq!(target.runs, 1);
    assert_eq!(target.invocations.len(), 2);
}

#[test]
fn concurrent_turn_delivery_preserves_durable_position_input_and_completion_order() {
    let state = State::open();
    let project = ProjectRegistration {
        project_id: ProjectId::new("v03-concurrent-order".to_owned()).expect("project id is valid"),
        working_directory: "/workspace".to_owned(),
        claude_executable: "fixture-target".to_owned(),
        expected_opus_model: "opus".to_owned(),
    };
    state
        .register_project(project.clone())
        .expect("project registers");
    let first_id = TurnId::new(fresh());
    let control = Control::new(state.clone(), Provider::Fixture);
    let started = match control
        .handle(DaemonRequest::ConversationStart(
            start_of(&project, first_id),
        ))
        .expect("Control durably admits the first live turn")
    {
        DaemonResponse::Conversation(snapshot) => snapshot,
        other => panic!("conversation start returned another payload: {other:?}"),
    };
    let conversation_id = started.conversation.conversation_id;
    let second_id = TurnId::new(fresh());
    let third_id = TurnId::new(fresh());
    for (turn_id, prompt) in [
        (second_id, "second concurrent prompt"),
        (third_id, "third concurrent prompt"),
    ] {
        control
            .handle(DaemonRequest::ConversationSend(ConversationSend {
                conversation_id,
                turn_id,
                prompt: prompt.to_owned(),
            }))
            .expect("Control request persists and reaches the live writer");
    }
    let snapshot = state
        .get_conversation_snapshot(conversation_id, 0)
        .expect("durable snapshot reads after concurrent admission");
    assert_eq!(
        snapshot
            .turns
            .iter()
            .map(|turn| turn.position)
            .collect::<Vec<_>>(),
        vec![1, 2, 3]
    );
    let expected: Vec<(u128, String)> = snapshot
        .turns
        .iter()
        .map(|turn| (turn.turn_id.value(), turn.prompt.clone()))
        .collect();
    control
        .handle(DaemonRequest::ConversationStop {
            conversation_id,
            mode: ConversationStopMode::Graceful,
        })
        .expect("graceful close drains every concurrently admitted durable turn");
    let terminal = loop {
        let observed = state
            .get_conversation_snapshot(conversation_id, 0)
            .expect("terminal conversation snapshot reads");
        if observed.conversation.state.terminal() {
            break observed;
        }
        assert!(control.progress(), "concurrent live turns did not reach a terminal conversation");
    };
    assert_eq!(terminal.conversation.state, ConversationState::Succeeded);
    let input_ids: Vec<u128> = control
        .invocations()
        .into_iter()
        .map(|(_, prompt)| {
            match expected.iter().find(|(_, expected_prompt)| *expected_prompt == prompt) {
                Some((turn_id, _)) => *turn_id,
                None => panic!("fake received a prompt absent from durable order: {prompt}"),
            }
        })
        .collect();
    let completed: Vec<u128> = terminal
        .events
        .iter()
        .filter_map(|event| match &event.payload {
            ConversationEventPayload::TurnCompleted { turn_id, .. } => Some(turn_id.value()),
            ConversationEventPayload::Initialized { .. }
            | ConversationEventPayload::TurnQueued { .. }
            | ConversationEventPayload::TurnAcknowledged { .. }
            | ConversationEventPayload::TurnStarted { .. }
            | ConversationEventPayload::AssistantTextDelta { .. }
            | ConversationEventPayload::TurnFailed { .. }
            | ConversationEventPayload::TurnIndeterminate { .. }
            | ConversationEventPayload::TurnCancelled { .. }
            | ConversationEventPayload::TurnDiscarded { .. }
            | ConversationEventPayload::ConversationTerminal { .. } => None,
        })
        .collect();
    let expected_ids: Vec<u128> = expected.iter().map(|(turn_id, _)| *turn_id).collect();
    assert_eq!(input_ids, expected_ids);
    assert_eq!(completed, expected_ids);
}

#[test]
fn live_cancel_wins_while_the_first_turn_waits_for_provider_progress() {
    let mut target = Target::new(Provider::Fixture);
    let start = live_start("__fixture_live_hold__");
    let operation_id = start.operation_id;
    target
        .start_live(start)
        .expect("live target starts before durable Running permission");
    assert_eq!(target.runs, 1);
    let mut written = Vec::new();
    target.lives[0].advance(&mut written);
    assert!(written.is_empty());
    assert!(target.lives[0].observations.is_empty());
    target.grant(operation_id);
    target
        .stop_live(operation_id, TargetLiveStop::Cancel)
        .expect("cancellation terminates the direct child");
    let terminal = target
        .observe()
        .expect("cancelled direct child reports a terminal observation");
    assert_eq!(terminal, TargetLiveObservation::Cancelled);
}

#[test]
fn live_provider_failure_retains_the_causal_turn_identity() {
    let mut target = Target::new(Provider::Fixture);
    let start = live_start("__fixture_live_provider_failure__");
    let operation_id = start.operation_id;
    let turn_id = start.first_turn.turn_id;
    target.start_live(start).expect("live target starts");
    target.grant(operation_id);
    let mut observed = Vec::new();
    loop {
        let observation = target
            .observe()
            .expect("provider failure is observed");
        let failed = matches!(observation, TargetLiveObservation::Failed(_));
        observed.push(observation);
        if failed {
            break;
        }
    }
    assert!(observed.contains(&TargetLiveObservation::TurnFailed {
        turn_id,
        message: "fixture live provider failure".to_owned(),
    }));
    assert!(observed.contains(&TargetLiveObservation::Failed(
        "fixture live provider failure".to_owned(),
    )));
}

#[test]
fn control_persists_one_live_conversation_across_two_turns_and_graceful_close() {
    let state = State::open();
    let project = ProjectRegistration {
        project_id: ProjectId::new("v03-control-project".to_owned())
            .expect("fixture project id is valid"),
        working_directory: "/workspace".to_owned(),
        claude_executable: "fixture-target".to_owned(),
        expected_opus_model: "opus".to_owned(),
    };
    state
        .register_project(project.clone())
        .expect("project registers");
    let control = Control::new(state, Provider::Fixture);
    let first_turn_id = TurnId::new(fresh());
    let started = match control
        .handle(DaemonRequest::ConversationStart(
            ConversationStart {
                request_id: RequestId::new(fresh()),
                project_id: project.project_id.clone(),
                intent: OperationIntent::New,
                turn_id: first_turn_id,
                prompt: "first durable live prompt".to_owned(),
                review_profile: ReviewProfile::OpusReadOnly,
            },
        ))
        .expect("conversation starts through Operation Control")
    {
        DaemonResponse::Conversation(snapshot) => snapshot,
        other => panic!("conversation start returned another payload: {other:?}"),
    };
    let conversation_id = started.conversation.conversation_id;
    let second_turn_id = TurnId::new(fresh());
    match control
        .handle(DaemonRequest::ConversationSend(
            ConversationSend {
                conversation_id,
                turn_id: second_turn_id,
                prompt: "second durable live prompt".to_owned(),
            },
        ))
        .expect("second turn persists before delivery")
    {
        DaemonResponse::Conversation(snapshot) => {
            assert_eq!(snapshot.turns.len(), 2);
            assert_eq!(snapshot.turns[1].position, 2);
        }
        other => panic!("conversation send returned another payload: {other:?}"),
    }
    control
        .handle(DaemonRequest::ConversationStop {
            conversation_id,
            mode: ConversationStopMode::Graceful,
        })
        .expect("immediate graceful close preserves admitted turns");
    let repeated_graceful = match control
        .handle(DaemonRequest::ConversationStop {
            conversation_id,
            mode: ConversationStopMode::Graceful,
        })
        .expect("repeated graceful close is idempotent")
    {
        DaemonResponse::Conversation(snapshot) => snapshot,
        other => panic!("repeated graceful close returned another payload: {other:?}"),
    };
    assert_eq!(
        repeated_graceful.conversation.conversation_id,
        conversation_id
    );
    let mut cursor = 0;
    let mut observed_events = Vec::new();
    let terminal = loop {
        let snapshot = match control
            .handle(DaemonRequest::ConversationWait(
                ConversationWait {
                    conversation_id,
                    after_sequence: cursor,
                    wait_millis: 5_000,
                },
            ))
            .expect("conversation progress is observable")
        {
            DaemonResponse::Conversation(snapshot) => snapshot,
            other => panic!("conversation wait returned another payload: {other:?}"),
        };
        observed_events.extend(snapshot.events.clone());
        if snapshot.conversation.state.terminal() {
            break snapshot;
        }
        cursor = snapshot
            .events
            .last()
            .expect("nonterminal wait returned an event")
            .sequence;
    };
    assert_eq!(
        terminal.conversation.state,
        ConversationState::Succeeded,
        "terminal snapshot: {terminal:?}"
    );
    assert_eq!(terminal.turns.len(), 2);
    assert_eq!(terminal.turns[0].state, TurnState::Completed);
    assert_eq!(terminal.turns[1].state, TurnState::Completed);
    assert!(observed_events.iter().any(|event| matches!(
        event.payload,
        ConversationEventPayload::AssistantTextDelta { turn_id, .. } if turn_id == first_turn_id
    )));
    assert!(observed_events.iter().any(|event| matches!(
        event.payload,
        ConversationEventPayload::TurnCompleted { turn_id, .. } if turn_id == second_turn_id
    )));
}

#[test]
fn control_cancel_records_started_turn_cancellation_before_terminal_conversation() {
    let state = State::open();
    let project = ProjectRegistration {
        project_id: ProjectId::new("v03-cancel-project".to_owned())
            .expect("fixture project id is valid"),
        working_directory: "/workspace".to_owned(),
        claude_executable: "fixture-target".to_owned(),
        expected_opus_model: "opus".to_owned(),
    };
    state
        .register_project(project.clone())
        .expect("project registers");
    let control = Control::new(state, Provider::Fixture);
    let turn_id = TurnId::new(fresh());
    let started = match control
        .handle(DaemonRequest::ConversationStart(
            ConversationStart {
                request_id: RequestId::new(fresh()),
                project_id: project.project_id,
                intent: OperationIntent::New,
                turn_id,
                prompt: "__fixture_live_hold_after_start__".to_owned(),
                review_profile: ReviewProfile::OpusReadOnly,
            },
        ))
        .expect("conversation starts")
    {
        DaemonResponse::Conversation(snapshot) => snapshot,
        other => panic!("conversation start returned another payload: {other:?}"),
    };
    let conversation_id = started.conversation.conversation_id;
    let mut cursor = 0;
    let mut observed_events = Vec::new();
    loop {
        let snapshot = match control
            .handle(DaemonRequest::ConversationWait(
                ConversationWait {
                    conversation_id,
                    after_sequence: cursor,
                    wait_millis: 5_000,
                },
            ))
            .expect("started turn becomes observable")
        {
            DaemonResponse::Conversation(snapshot) => snapshot,
            other => panic!("conversation wait returned another payload: {other:?}"),
        };
        observed_events.extend(snapshot.events.clone());
        if observed_events.iter().any(|event| {
            matches!(
                event.payload,
                ConversationEventPayload::TurnStarted { turn_id: observed } if observed == turn_id
            )
        }) {
            break;
        }
        cursor = snapshot
            .events
            .last()
            .expect("nonterminal wait returned an event")
            .sequence;
    }
    control
        .handle(DaemonRequest::ConversationStop {
            conversation_id,
            mode: ConversationStopMode::Graceful,
        })
        .expect("first graceful close preserves the started turn while rejecting new admission");
    control
        .handle(DaemonRequest::ConversationStop {
            conversation_id,
            mode: ConversationStopMode::Cancel,
        })
        .expect("cancel escalates the durable graceful close and terminates the direct child");
    let repeated_cancel = match control
        .handle(DaemonRequest::ConversationStop {
            conversation_id,
            mode: ConversationStopMode::Cancel,
        })
        .expect("repeated cancellation is idempotent")
    {
        DaemonResponse::Conversation(snapshot) => snapshot,
        other => panic!("repeated cancellation returned another payload: {other:?}"),
    };
    assert_eq!(
        repeated_cancel.conversation.conversation_id,
        conversation_id
    );
    let terminal = loop {
        let snapshot = match control
            .handle(DaemonRequest::ConversationWait(
                ConversationWait {
                    conversation_id,
                    after_sequence: cursor,
                    wait_millis: 5_000,
                },
            ))
            .expect("cancel terminalization is observable")
        {
            DaemonResponse::Conversation(snapshot) => snapshot,
            other => panic!("conversation wait returned another payload: {other:?}"),
        };
        observed_events.extend(snapshot.events.clone());
        if snapshot.conversation.state.terminal() {
            break snapshot;
        }
        cursor = snapshot
            .events
            .last()
            .expect("nonterminal wait returned an event")
            .sequence;
    };
    assert_eq!(terminal.conversation.state, ConversationState::Cancelled);
    assert_eq!(terminal.turns[0].state, TurnState::Cancelled);
    let started_sequence = event_sequence(&observed_events, |payload| {
        matches!(
            payload,
            ConversationEventPayload::TurnStarted { turn_id: observed } if *observed == turn_id
        )
    });
    let cancelled_sequence = event_sequence(&observed_events, |payload| {
        matches!(
            payload,
            ConversationEventPayload::TurnCancelled {
                turn_id: observed,
                message: _,
            } if *observed == turn_id
        )
    });
    let terminal_sequence = event_sequence(&observed_events, |payload| {
        matches!(
            payload,
            ConversationEventPayload::ConversationTerminal { .. }
        )
    });
    assert!(started_sequence < cancelled_sequence);
    assert!(cancelled_sequence < terminal_sequence);
}

#[test]
fn generic_operation_cancel_terminates_the_live_conversation_operation() {
    let state = State::open();
    let project = ProjectRegistration {
        project_id: ProjectId::new("v03-generic-cancel-project".to_owned())
            .expect("fixture project id is valid"),
        working_directory: "/workspace".to_owned(),
        claude_executable: "fixture-target".to_owned(),
        expected_opus_model: "opus".to_owned(),
    };
    state
        .register_project(project.clone())
        .expect("project registers");
    let control = Control::new(state.clone(), Provider::Fixture);
    let started = match control
        .handle(DaemonRequest::ConversationStart(
            ConversationStart {
                request_id: RequestId::new(fresh()),
                project_id: project.project_id,
                intent: OperationIntent::New,
                turn_id: TurnId::new(fresh()),
                prompt: "__fixture_live_hold_after_start__".to_owned(),
                review_profile: ReviewProfile::OpusReadOnly,
            },
        ))
        .expect("live conversation starts through the operation owner")
    {
        DaemonResponse::Conversation(snapshot) => snapshot,
        other => panic!("conversation start returned another payload: {other:?}"),
    };
    let operation_id = started.conversation.conversation_id.operation_id();
    let cancelled = match control
        .handle(DaemonRequest::OperationCancel { operation_id })
        .expect("generic operation cancellation reaches the live lifecycle")
    {
        DaemonResponse::Operation(operation) => operation,
        other => panic!("generic operation cancellation returned another payload: {other:?}"),
    };
    assert_eq!(cancelled.operation_id, operation_id);
    assert_eq!(cancelled.state, OperationState::Cancelled);
    assert!(matches!(
        cancelled.terminal_outcome,
        Some(TerminalOutcome::Cancelled(_))
    ));
    let snapshot = state
        .get_conversation_snapshot(started.conversation.conversation_id, 0)
        .expect("authoritative live snapshot reads after generic cancellation");
    assert_eq!(snapshot.conversation.state, ConversationState::Cancelled);
    assert!(snapshot.conversation.terminal_outcome.is_some());
}

fn event_sequence(
    events: &[ConversationEvent],
    predicate: impl Fn(&ConversationEventPayload) -> bool,
) -> u64 {
    events
        .iter()
        .find(|event| predicate(&event.payload))
        .expect("required durable conversation event exists")
        .sequence
}

fn diagnosed() -> (State, Control, ProjectRegistration) {
    let state = State::open();
    let control = Control::new(state.clone(), Provider::Fixture);
    let project = ProjectRegistration {
        project_id: ProjectId::new("v04-project".to_owned()).expect("fixture project id is valid"),
        working_directory: "/workspace".to_owned(),
        claude_executable: "fixture-target".to_owned(),
        expected_opus_model: "opus".to_owned(),
    };
    control
        .handle(DaemonRequest::ProjectRegister(project.clone()))
        .expect("project registers");
    (state, control, project)
}

#[test]
fn one_shot_diagnostics_are_normalized_durable_and_visible_while_running() {
    let (state, control, project) = diagnosed();
    let operation = match control
        .handle(DaemonRequest::OperationStart(start(&project, "__fixture_diagnostics__", OperationIntent::New)))
        .expect("operation starts")
    {
        DaemonResponse::Operation(operation) => operation,
        other => panic!("operation start returned another response: {other:?}"),
    };
    let first = control
        .handle(DaemonRequest::OperationDiagnostics(
            OperationDiagnosticsRequest {
                operation_id: operation.operation_id,
                after_diagnostic_sequence: 0,
                wait_millis: 5_000,
            },
        ))
        .expect("diagnostics read while child remains active");
    let snapshot = match first {
        DaemonResponse::OperationDiagnostics(snapshot) => snapshot,
        other => panic!("diagnostic query returned another response: {other:?}"),
    };
    assert_eq!(
        snapshot.operation.state,
        OperationState::Running
    );
    assert!(!snapshot.diagnostics.is_empty());
    assert!(snapshot.diagnostics.len() <= 3);
    assert_eq!(snapshot.diagnostics[0].diagnostic_sequence, 1);
    let terminal = control
        .handle(DaemonRequest::OperationWait {
            operation_id: operation.operation_id,
            wait_millis: 5_000,
        })
        .expect("operation terminalizes after recorder joins");
    match terminal {
        DaemonResponse::Operation(operation) => {
            assert!(operation.state.terminal());
        }
        other => panic!("operation wait returned another response: {other:?}"),
    }
    let closed = state
        .get_operation_diagnostics(operation.operation_id, 0)
        .expect("terminal barrier closes the complete diagnostic timeline");
    assert_eq!(closed.diagnostics.len(), 3);
    assert_eq!(
        closed.diagnostics[0].payload,
        OperationDiagnosticPayload::ProviderRetrying {
            attempt: 1,
            max_retries: 2,
            retry_delay_ms: 0,
        }
    );
    assert_eq!(
        closed.diagnostics[1].payload,
        OperationDiagnosticPayload::AuthenticationFailed
    );
    assert_eq!(
        closed.diagnostics[2].payload,
        OperationDiagnosticPayload::DiagnosticUnclassified
    );
    assert_eq!(
        closed
            .diagnostics
            .iter()
            .map(|diagnostic| diagnostic.diagnostic_sequence)
            .collect::<Vec<_>>(),
        vec![1, 2, 3]
    );
    let durable = state
        .get_operation_diagnostics(operation.operation_id, 1)
        .expect("reconnected cursor reads the closed durable suffix");
    assert_eq!(durable.diagnostics, closed.diagnostics[1..]);
    match state.record_operation_diagnostic(
        operation.operation_id,
        OperationDiagnosticPayload::AuthenticationFailed,
    ) {
        Err(OperatorError::Conflict(message))
            if message
                == "operation diagnostics can be appended only while the operation is running" => {}
        other => panic!("terminal operation must refuse late diagnostics: {other:?}"),
    }
}

#[test]
fn live_conversations_are_refused_by_one_shot_diagnostics() {
    let (state, control, project) = diagnosed();
    let admission = state
        .persist_conversation_start(
            &ConversationStart {
                request_id: RequestId::new(fresh()),
                project_id: project.project_id,
                intent: OperationIntent::New,
                turn_id: TurnId::new(fresh()),
                prompt: "live prompt".to_owned(),
                review_profile: ReviewProfile::OpusReadOnly,
            },
            SessionId::new(),
            "live-diagnostics-conflict",
        )
        .expect("live operation persists");
    let operation = match admission {
        ConversationStartAdmission::Inserted { operation, .. } => {
            operation
        }
        other => panic!("first live operation must insert: {other:?}"),
    };
    match control.handle(DaemonRequest::OperationDiagnostics(
        OperationDiagnosticsRequest {
            operation_id: operation.operation_id,
            after_diagnostic_sequence: 0,
            wait_millis: 0,
        },
    )) {
        Err(OperatorError::Conflict(message))
            if message == "operation diagnostics are unavailable for live conversations" => {}
        other => panic!("live operation must be a typed diagnostic conflict: {other:?}"),
    }
}

#[test]
fn malformed_provider_retry_and_invalid_public_retry_payloads_are_rejected() {
    let invalid = OperationDiagnosticPayload::ProviderRetrying {
        attempt: 3,
        max_retries: 2,
        retry_delay_ms: 0,
    };
    assert!(invalid.validate().is_err());
}

#[test]
fn pre_output_pump_return_has_covered_but_empty_diagnostics() {
    let (_state, control, mut project) = diagnosed();
    project.claude_executable = MISSING.to_owned();
    project.project_id = ProjectId::new("v04-pre-pump".to_owned()).expect("project id is valid");
    control
        .handle(DaemonRequest::ProjectRegister(project.clone()))
        .expect("pre-pump project registers");
    let operation = match control
        .handle(DaemonRequest::OperationStart(start(&project, "never pumped", OperationIntent::New)))
        .expect("spawn failure remains a durable operation")
    {
        DaemonResponse::Operation(operation) => operation,
        other => panic!("operation start returned another response: {other:?}"),
    };
    assert!(operation.state.terminal());
    let snapshot = match control
        .handle(DaemonRequest::OperationDiagnostics(
            OperationDiagnosticsRequest {
                operation_id: operation.operation_id,
                after_diagnostic_sequence: 0,
                wait_millis: 0,
            },
        ))
        .expect("covered pre-pump operation has a diagnostic snapshot")
    {
        DaemonResponse::OperationDiagnostics(snapshot) => snapshot,
        other => panic!("diagnostic query returned another response: {other:?}"),
    };
    assert!(snapshot.diagnostics.is_empty());
}

#[test]
fn old_one_shot_without_coverage_returns_typed_unavailable() {
    let request_id = RequestId::new(fresh());
    let operation_id = OperationId::new();
    let operation = Operation {
        operation_id,
        request_id,
        project_id: ProjectId::new("legacy-project".to_owned()).expect("project id is valid"),
        intent: OperationIntent::New,
        session_id: SessionId::new(),
        state: OperationState::Succeeded,
        observed_session_id: None,
        observed_model: None,
        observed_claude_version: None,
        terminal_outcome: Some(TerminalOutcome::Succeeded("legacy result".to_owned())),
    };
    let operation_key = operation_id.to_text();
    let state = State::open();
    state.tables.borrow_mut().apply(&Change::InsertOperation(OperationRecord {
        operation,
        fingerprint: "legacy-fingerprint".to_owned(),
    }));
    let control = Control::new(state, Provider::Fixture);
    match control.handle(DaemonRequest::OperationDiagnostics(
        OperationDiagnosticsRequest {
            operation_id,
            after_diagnostic_sequence: 0,
            wait_millis: 0,
        },
    )) {
        Err(OperatorError::DiagnosticsUnavailable(message)) if message == operation_key => {}
        other => panic!("old one-shot must report typed unavailable diagnostics: {other:?}"),
    }
}

/// The text of a turn's identity.
fn turn_text(turn_id: TurnId) -> String {
    OperationId::new_exact(turn_id.value()).to_text()
}

/// Calls one tool of the gateway in front of the operator.
fn call_tool(control: &Control, call: ToolCall) -> Result<DaemonResponse, GatewayError> {
    control.handle(dispatch(call)?).map_err(GatewayError::operator)
}

fn register_project_mcp(control: &Control, project: &ProjectRegistration) {
    let registered = call_tool(
        control,
        ToolCall::ProjectRegister(ProjectRegisterInput {
            project_id: project.project_id.as_str().to_owned(),
            working_directory: project.working_directory.clone(),
            claude_executable: project.claude_executable.clone(),
            expected_opus_model: project.expected_opus_model.clone(),
        }),
    );
    assert_eq!(registered, Ok(DaemonResponse::Project(project.clone())));
}

fn start_mcp(
    control: &Control,
    project: &ProjectRegistration,
    intent: McpIntent,
    prompt: &str,
) -> Operation {
    operation(
        call_tool(
            control,
            ToolCall::OperationStart(OperationStartInput {
                request_id: fresh_text(),
                project_id: project.project_id.as_str().to_owned(),
                intent,
                prompt: prompt.to_owned(),
                review_profile: McpReviewProfile::OpusReadOnly,
            }),
        )
        .expect("operation starts through its tool"),
    )
}

fn wait_mcp(control: &Control, operation_id: OperationId) -> Operation {
    operation(
        call_tool(
            control,
            ToolCall::OperationWait(OperationWaitInput {
                operation_id: operation_id.to_text(),
                wait_millis: 5_000,
            }),
        )
        .expect("operation is awaited through its tool"),
    )
}

fn operator_error(result: Result<DaemonResponse, GatewayError>) -> OperatorError {
    match result {
        Err(GatewayError::Operator { error, message }) => {
            assert_eq!(message, error.to_text());
            error
        }
        other => panic!("the daemon must refuse the call: {other:?}"),
    }
}

fn assert_gateway_invalid(result: Result<DaemonResponse, GatewayError>) {
    assert!(matches!(result, Err(GatewayError::InvalidArguments { .. })));
}

#[test]
fn mcp_stdio_projects_through_the_real_daemon() {
    let (control, project) = fixture();
    let listed = tools();
    assert!(listed.iter().any(|tool| tool.name() == "project_register"));
    assert_eq!(tool_named("operation_start"), Ok(ToolKind::OperationStart));
    register_project_mcp(&control, &project);
    assert_gateway_invalid(Err(undecoded(Some("unknown variant `unsupported`".to_owned()))));
    assert_gateway_invalid(Err(undecoded(Some("missing field `review_profile`".to_owned()))));
    let started = start_mcp(&control, &project, McpIntent::New, "first review content");
    assert_eq!(started.state, OperationState::Running);
    let first = wait_mcp(&control, started.operation_id);
    assert_eq!(first.state, OperationState::Succeeded);
    let resumed = start_mcp(
        &control,
        &project,
        McpIntent::ResumeExact { session_id: first.session_id.to_text() },
        "follow-up",
    );
    assert_eq!(resumed.session_id, first.session_id);
    let second = wait_mcp(&control, resumed.operation_id);
    match second.terminal_outcome {
        Some(TerminalOutcome::Succeeded(result)) => {
            assert!(result.contains("first review content"))
        }
        other => panic!("resume must preserve prior review content: {other:?}"),
    }
    assert_eq!(control.invocations().len(), 2);
}

fn binding_arguments(
    project_id: &ProjectId,
    role: &str,
    target_session_id: SessionId,
) -> ToolCall {
    ToolCall::InitiatorBindingRegister(InitiatorBindingRegisterInput {
        project_id: project_id.as_str().to_owned(),
        initiator_session_id: "initiator-session".to_owned(),
        initiator_agent_id: "main-agent".to_owned(),
        role_id: role.to_owned(),
        task_id: "task".to_owned(),
        subject_id: "subject".to_owned(),
        target_session_id: target_session_id.to_text(),
    })
}

fn with_continuity(
    project_id: &ProjectId,
    (session, agent, role): (&str, &str, &str),
    continuity: McpSessionContinuity,
) -> ToolCall {
    ToolCall::SessionDecide(SessionDecideInput {
        project_id: project_id.as_str().to_owned(),
        initiator_session_id: session.to_owned(),
        initiator_agent_id: agent.to_owned(),
        role_id: role.to_owned(),
        task_id: "task".to_owned(),
        subject_id: "subject".to_owned(),
        continuity,
    })
}

#[test]
fn mcp_projects_exact_session_tools_as_closed_success_refusal_and_error_channels() {
    let state = State::open();
    let control = Control::new(state.clone(), Provider::Fixture);
    let project = ProjectRegistration {
        project_id: ProjectId::new("v02-mcp-project".to_owned())
            .expect("fixture project id is valid"),
        working_directory: "/workspace".to_owned(),
        claude_executable: "fixture-target".to_owned(),
        expected_opus_model: "opus".to_owned(),
    };
    for name in
        ["session_inventory", "session_inspect", "initiator_binding_register", "session_decide"]
    {
        assert!(tools().iter().any(|tool| tool.name() == name));
    }
    register_project_mcp(&control, &project);
    let started = start_mcp(&control, &project, McpIntent::New, "MCP evidence");
    let completed = wait_mcp(&control, started.operation_id);
    assert_eq!(completed.state, OperationState::Succeeded);
    let own = ("initiator-session", "main-agent", "main-role");
    let inventory = |project_id: &ProjectId| {
        call_tool(
            &control,
            ToolCall::SessionInventory(SessionInventoryInput {
                project_id: project_id.as_str().to_owned(),
            }),
        )
    };
    let inspect = |project_id: &ProjectId, session: String| {
        call_tool(
            &control,
            ToolCall::SessionInspect(SessionInspectInput {
                project_id: project_id.as_str().to_owned(),
                target_session_id: session,
            }),
        )
    };
    match inventory(&project.project_id) {
        Ok(DaemonResponse::SessionInventory(items)) => assert_eq!(items.len(), 1),
        other => panic!("session inventory returned another payload: {other:?}"),
    }
    match inspect(&project.project_id, completed.session_id.to_text()) {
        Ok(DaemonResponse::SessionEvidence(items)) => assert_eq!(items.len(), 1),
        other => panic!("session inspection returned another payload: {other:?}"),
    }
    let decide = |project_id: &ProjectId, identity, continuity| {
        call_tool(&control, with_continuity(project_id, identity, continuity))
    };
    match decide(&project.project_id, own, McpSessionContinuity::ContinueBound) {
        Ok(DaemonResponse::SessionDecision(SessionDecision::Refuse {
            reason: SessionRefusalReason::BindingRequired,
            evidence: SessionDecisionEvidence::CandidateSessions { target_session_ids },
        })) => assert_eq!(target_session_ids, vec![completed.session_id]),
        other => panic!("unbound continuation returned the wrong public decision: {other:?}"),
    }
    for status in [BindingRegistrationStatus::Inserted, BindingRegistrationStatus::Existing] {
        match call_tool(
            &control,
            binding_arguments(&project.project_id, "main-role", completed.session_id),
        ) {
            Ok(DaemonResponse::BindingRegistration(registration)) => {
                assert_eq!(registration.status, status)
            }
            other => panic!("binding registration returned another payload: {other:?}"),
        }
    }
    match decide(&project.project_id, own, McpSessionContinuity::ContinueBound) {
        Ok(DaemonResponse::SessionDecision(SessionDecision::ResumeExact {
            target_session_id,
            evidence_operation_ids,
        })) => {
            assert_eq!(target_session_id, completed.session_id);
            assert_eq!(evidence_operation_ids, vec![completed.operation_id]);
        }
        other => panic!("bound continuation returned another public decision: {other:?}"),
    }
    assert_eq!(
        decision(
            decide(&project.project_id, own, McpSessionContinuity::Independent)
                .expect("independent review is decided")
        ),
        SessionDecision::New { evidence: SessionDecisionEvidence::Independent }
    );
    let started_second = start_mcp(&control, &project, McpIntent::New, "second MCP evidence");
    let second = wait_mcp(&control, started_second.operation_id);
    match operator_error(call_tool(
        &control,
        binding_arguments(&project.project_id, "main-role", second.session_id),
    )) {
        OperatorError::BindingConflict {
            existing_target_session_id,
            requested_target_session_id,
        } => {
            assert_eq!(existing_target_session_id, completed.session_id);
            assert_eq!(requested_target_session_id, second.session_id);
        }
        other => panic!("another session under one identity must conflict: {other:?}"),
    }
    let mismatched = ("initiator-session", "main-agent", "other-role");
    match decide(&project.project_id, mismatched, McpSessionContinuity::ContinueBound) {
        Ok(DaemonResponse::SessionDecision(SessionDecision::Refuse {
            reason: SessionRefusalReason::IdentityMismatch,
            evidence: SessionDecisionEvidence::IdentityBindings { bindings },
        })) => assert_eq!(bindings.len(), 1),
        other => panic!("identity mismatch must be a public refusal: {other:?}"),
    }
    let ambiguous = ("ambiguous-session", "ambiguous-agent", "main-role");
    match decide(&project.project_id, ambiguous, McpSessionContinuity::ContinueBound) {
        Ok(DaemonResponse::SessionDecision(SessionDecision::Refuse {
            reason: SessionRefusalReason::AmbiguousSessions,
            evidence: SessionDecisionEvidence::CandidateSessions { target_session_ids },
        })) => {
            let mut expected = vec![completed.session_id, second.session_id];
            expected.sort_by_key(|session_id| session_id.value());
            assert_eq!(target_session_ids, expected);
        }
        other => panic!("two evidenced sessions must be an ambiguity refusal: {other:?}"),
    }
    let unknown_session = SessionId::new();
    let unknown = |project_id: &ProjectId, target_session_id: SessionId| {
        OperatorError::UnknownSession { project_id: project_id.clone(), target_session_id }
    };
    assert_eq!(
        operator_error(inspect(&project.project_id, unknown_session.to_text())),
        unknown(&project.project_id, unknown_session)
    );
    let unknown_project = ProjectId::new("unknown-mcp-project".to_owned())
        .expect("unknown fixture project id is valid");
    let missing = || OperatorError::UnknownProject("unknown-mcp-project".to_owned());
    assert_eq!(operator_error(inventory(&unknown_project)), missing());
    assert_eq!(
        operator_error(inspect(&unknown_project, completed.session_id.to_text())),
        missing()
    );
    assert_eq!(
        operator_error(call_tool(
            &control,
            binding_arguments(&unknown_project, "main-role", completed.session_id),
        )),
        missing()
    );
    assert_eq!(
        operator_error(decide(&unknown_project, own, McpSessionContinuity::Independent)),
        missing()
    );
    let unknown_binding_session = SessionId::new();
    assert_eq!(
        operator_error(call_tool(
            &control,
            binding_arguments(&project.project_id, "unknown", unknown_binding_session),
        )),
        unknown(&project.project_id, unknown_binding_session)
    );
    let stale_binding = InitiatorBinding {
        project_id: project.project_id.clone(),
        identity: identity("stale", "task", "subject"),
        target_session_id: SessionId::new(),
    };
    state.persist_initiator_binding(&stale_binding).expect("stale binding fixture persists");
    let stale = ("initiator-session", "main-agent", "stale");
    match operator_error(decide(
        &project.project_id,
        stale,
        McpSessionContinuity::ContinueBound,
    )) {
        OperatorError::BoundSessionEvidenceMissing { binding, target_session_id } => {
            assert_eq!(target_session_id, stale_binding.target_session_id);
            assert_eq!(*binding, stale_binding);
        }
        other => panic!("stale binding must be told: {other:?}"),
    }
    assert_gateway_invalid(Err(undecoded(None)));
    assert_gateway_invalid(inspect(&project.project_id, "not-a-uuid".to_owned()));
    assert_gateway_invalid(Err(undecoded(Some("unknown field `extra`".to_owned()))));
    assert_gateway_invalid(Err(undecoded(Some("unknown variant `unknown`".to_owned()))));
    assert_eq!(control.invocations().len(), 2);
}

#[test]
fn mcp_reconnects_to_the_same_live_conversation_and_gracefully_finishes() {
    let control = Control::new(State::open(), Provider::Fixture);
    let project = ProjectRegistration {
        project_id: ProjectId::new("v03-mcp-project".to_owned())
            .expect("fixture project id is valid"),
        working_directory: "/workspace".to_owned(),
        claude_executable: "fixture-target".to_owned(),
        expected_opus_model: "opus".to_owned(),
    };
    register_project_mcp(&control, &project);
    let conversation = |result: Result<DaemonResponse, GatewayError>| match result {
        Ok(DaemonResponse::Conversation(snapshot)) => snapshot,
        other => panic!("the tool returns a conversation: {other:?}"),
    };
    let first_turn_id = TurnId::new(fresh());
    let started = conversation(call_tool(
        &control,
        ToolCall::ConversationStart(ConversationStartInput {
            request_id: fresh_text(),
            project_id: project.project_id.as_str().to_owned(),
            intent: McpIntent::New,
            turn_id: turn_text(first_turn_id),
            prompt: "first reconnectable live prompt".to_owned(),
            review_profile: McpReviewProfile::OpusReadOnly,
        }),
    ));
    let conversation_id = started.conversation.conversation_id.operation_id().to_text();
    let wait = |after_sequence: u64, wait_millis: u64| {
        call_tool(
            &control,
            ToolCall::ConversationWait(ConversationWaitInput {
                conversation_id: conversation_id.clone(),
                after_sequence,
                wait_millis,
            }),
        )
    };
    assert!(matches!(
        operator_error(wait(9_223_372_036_854_775_808_u64, 0)),
        OperatorError::InvalidRequest(_)
    ));
    let completed = |events: &[ConversationEvent], wanted: TurnId| {
        events.iter().find_map(|event| match &event.payload {
            ConversationEventPayload::TurnCompleted { turn_id, result } if *turn_id == wanted => {
                Some(result.clone())
            }
            _ => None,
        })
    };
    let mut observed_events = Vec::new();
    let mut cursor = 0;
    let first_result = loop {
        let snapshot = conversation(wait(cursor, 5_000));
        observed_events.extend(snapshot.events.clone());
        cursor = snapshot.events.last().expect("a wait returns a durable event").sequence;
        if let Some(result) = completed(&snapshot.events, first_turn_id) {
            break result;
        }
    };
    let second_turn_id = TurnId::new(fresh());
    conversation(call_tool(
        &control,
        ToolCall::ConversationSend(ConversationSendInput {
            conversation_id: conversation_id.clone(),
            turn_id: turn_text(second_turn_id),
            prompt: format!("second reconnectable live prompt after {first_result}"),
        }),
    ));
    loop {
        let snapshot = conversation(wait(cursor, 5_000));
        observed_events.extend(snapshot.events.clone());
        cursor = snapshot.events.last().expect("a wait returns a durable event").sequence;
        if completed(&snapshot.events, second_turn_id).is_some() {
            break;
        }
    }
    conversation(call_tool(
        &control,
        ToolCall::ConversationStop(ConversationStopInput {
            conversation_id: conversation_id.clone(),
            mode: McpConversationStopMode::Graceful,
        }),
    ));
    let terminal = loop {
        let snapshot = conversation(wait(cursor, 5_000));
        observed_events.extend(snapshot.events.clone());
        if snapshot.conversation.state.terminal() {
            break snapshot;
        }
        cursor = snapshot.events.last().expect("a wait returns a durable event").sequence;
    };
    assert_eq!(terminal.conversation.state, ConversationState::Succeeded);
    assert_eq!(terminal.turns.len(), 2);
    assert_eq!(terminal.turns[0].turn_id, first_turn_id);
    assert_eq!(terminal.turns[1].turn_id, second_turn_id);
    for turn in [first_turn_id, second_turn_id] {
        let delta = event_sequence(&observed_events, |payload| {
            matches!(
                payload,
                ConversationEventPayload::AssistantTextDelta { turn_id, .. } if *turn_id == turn
            )
        });
        let completed = event_sequence(&observed_events, |payload| {
            matches!(
                payload,
                ConversationEventPayload::TurnCompleted { turn_id, .. } if *turn_id == turn
            )
        });
        assert!(delta < completed);
    }
    let first_completed = event_sequence(&observed_events, |payload| {
        matches!(
            payload,
            ConversationEventPayload::TurnCompleted { turn_id, .. } if *turn_id == first_turn_id
        )
    });
    let second_started = event_sequence(&observed_events, |payload| {
        matches!(
            payload,
            ConversationEventPayload::TurnStarted { turn_id } if *turn_id == second_turn_id
        )
    });
    assert!(first_completed < second_started);
    assert_eq!(control.target_runs(), 1);
}

#[test]
fn separate_mcp_clients_observe_one_child_diagnostic_timeline_and_cursor_reconnect() {
    let control = Control::new(State::open(), Provider::Fixture);
    let project = ProjectRegistration {
        project_id: ProjectId::new("v04-mcp-project".to_owned())
            .expect("fixture project id is valid"),
        working_directory: "/workspace".to_owned(),
        claude_executable: "fixture-target".to_owned(),
        expected_opus_model: "opus".to_owned(),
    };
    register_project_mcp(&control, &project);
    let started = start_mcp(&control, &project, McpIntent::New, "__fixture_diagnostics__");
    assert_gateway_invalid(Err(undecoded(Some("unknown field `unexpected`".to_owned()))));
    let diagnostics = |after_diagnostic_sequence: u64| match call_tool(
        &control,
        ToolCall::OperationDiagnostics(OperationDiagnosticsInput {
            operation_id: started.operation_id.to_text(),
            after_diagnostic_sequence,
            wait_millis: 5_000,
        }),
    ) {
        Ok(DaemonResponse::OperationDiagnostics(snapshot)) => snapshot,
        other => panic!("diagnostic tool returned another response: {other:?}"),
    };
    let snapshot = diagnostics(0);
    assert_eq!(snapshot.operation.state, OperationState::Running);
    assert!(!snapshot.diagnostics.is_empty());
    assert!(snapshot.diagnostics.len() <= 3);
    assert_eq!(snapshot.diagnostics[0].diagnostic_sequence, 1);
    assert!(wait_mcp(&control, started.operation_id).state.terminal());
    assert_eq!(
        diagnostics(1)
            .diagnostics
            .iter()
            .map(|diagnostic| diagnostic.diagnostic_sequence)
            .collect::<Vec<_>>(),
        vec![2, 3]
    );
    assert_eq!(control.invocations().len(), 1);
}
