//! The decisions of Control, step by step.

use aiop::contract::control::{
    Conversation, ConversationSend, ConversationSnapshot, ConversationStart, ConversationState,
    ConversationStopMode, ConversationWait, DaemonRequest, DaemonResponse, Operation,
    OperationDiagnosticPayload, OperationDiagnosticsRequest, OperationIntent, OperationStart,
    OperationState, OperatorError, ProjectRegistration, ReviewProfile, SessionClaimDisposition, TerminalOutcome, TurnState,
};
use aiop::contract::identity::{
    ConversationId, OperationId, ProjectId, RequestId, SessionId, TurnId,
};
use aiop::contract::target::{
    TargetDiagnostic, TargetIntent, TargetLaunch, TargetLiveObservation, TargetLiveStartError,
    TargetLiveStop, TargetOutcome, TargetSessionId, TargetSuccess, TargetTurnId,
};
use aiop::control::conversation::{LivePlan, SendPlan, StopPlan};
use aiop::control::dispatch::{Handling, OperationControl};
use aiop::control::live::{
    fail_before_live_worker, LiveEvent, LiveStep, SendEvent, SendStep, StopEvent, StopStep,
};
use aiop::control::operation::{OperationMove, StartEvent, StartStep};
use aiop::control::recorder::{
    compose_observation_failure, RecordTail, RecorderEvent, RecorderStep,
};
use aiop::control::refusal::Refusal;
use aiop::control::runtime::{CancellationOutcome, RuntimeGate};
use aiop::control::session_writer::AdmittedWriter;
use aiop::control::worker::{WorkerEvent, WorkerStep};
use aiop::control::{
    conversation, diagnostic, live, operation, project, recorder, session_writer, worker,
};
use aiop::state::decision::Decided;
use aiop::state::tables::Tables;

fn state(message: &str) -> OperatorError {
    OperatorError::State(message.to_owned())
}

fn write<T>(tables: &mut Tables, decided: Result<Decided<T>, OperatorError>) -> T {
    let decided = decided.expect("the request is accepted");
    tables.commit(&decided.changes);
    decided.value
}

fn registration() -> ProjectRegistration {
    ProjectRegistration {
        project_id: ProjectId::new("project".to_owned()).expect("named"),
        working_directory: "/workspace".to_owned(),
        claude_executable: "target".to_owned(),
        expected_opus_model: "opus".to_owned(),
    }
}

fn registered() -> Tables {
    let mut tables = Tables::new();
    let decided = project::register(&tables, registration());
    write(&mut tables, decided);
    tables
}

fn start(request: u128, intent: OperationIntent) -> OperationStart {
    OperationStart {
        request_id: RequestId::new(request),
        project_id: registration().project_id,
        intent,
        prompt: "prompt".to_owned(),
        review_profile: ReviewProfile::OpusReadOnly,
    }
}

fn admitted(tables: &mut Tables, request: u128, session: u128) -> AdmittedWriter {
    let session = SessionId::new_exact(session);
    let decided = operation::request_start(
        tables,
        &start(request, OperationIntent::ResumeExact { session_id: session }),
        true,
        Ok(vec![1, 2, 3]),
        session,
        OperationId::new_exact(request + 1000),
    );
    write(tables, decided)
}

fn live_request(request: u128) -> ConversationStart {
    ConversationStart {
        request_id: RequestId::new(request),
        project_id: registration().project_id,
        intent: OperationIntent::New,
        turn_id: TurnId::new(request),
        prompt: "first".to_owned(),
        review_profile: ReviewProfile::OpusReadOnly,
    }
}

fn conversing(tables: &mut Tables, request: u128) -> ConversationId {
    let decided = conversation::request_conversation(
        tables,
        &live_request(request),
        true,
        Ok(vec![7]),
        SessionId::new_exact(request),
        OperationId::new_exact(request + 1000),
    );
    match write(tables, decided) {
        LivePlan::Start { operation_id, first_turn } => {
            assert_eq!(first_turn.position, 1);
            ConversationId::new(operation_id)
        }
        other => panic!("the conversation is new: {other:?}"),
    }
}

fn running(tables: &mut Tables, operation_id: OperationId) -> Operation {
    let decided =
        tables.transition(operation_id, OperationState::Running, None, None, None, None);
    write(tables, decided)
}

#[test]
fn the_first_refusal_is_kept() {
    let mut refusal = Refusal::new();
    assert_eq!(refusal.check(), Ok(()));
    refusal.record_state(&OperatorError::Conflict("no failure of the state".to_owned()));
    assert_eq!(refusal.check(), Ok(()));
    refusal.record_state(&state("first"));
    refusal.record(state("second"));
    assert_eq!(refusal.check(), Err(state("first")));
}

#[test]
fn a_recorded_refusal_answers_everything() {
    let mut control = OperationControl::new();
    control.refusal.record(state("broken"));
    let tables = registered();
    let answer = control.handle(&tables, DaemonRequest::ProjectList);
    assert_eq!(answer.err(), Some(state("broken")));
}

#[test]
fn requests_are_answered_or_handed_on() {
    let control = OperationControl::new();
    let tables = registered();
    let listed = control.handle(&tables, DaemonRequest::ProjectList).expect("it is read");
    assert_eq!(
        listed.value,
        Handling::Answer(DaemonResponse::Projects(vec![registration()]))
    );
    assert!(listed.changes.is_empty());
    let operation_id = OperationId::new_exact(1);
    let handed = control
        .handle(&tables, DaemonRequest::OperationWait { operation_id, wait_millis: 9 })
        .expect("it is handed on");
    assert_eq!(handed.value, Handling::WaitOperation { operation_id, wait_millis: 9 });
    let unknown = control.handle(&tables, DaemonRequest::OperationGet { operation_id });
    assert_eq!(unknown.err(), Some(OperatorError::UnknownOperation(operation_id.to_text())));
}

#[test]
fn an_operation_has_one_slot_at_a_time() {
    let id = OperationId::new_exact(1);
    let mut runtime = RuntimeGate::new();
    assert!(!runtime.cancelled(id));
    assert_eq!(runtime.cancel(id), CancellationOutcome::GateAbsent);
    assert_eq!(runtime.open(id), Ok(()));
    assert_eq!(runtime.open(id), Err(state("operation runtime gate already exists")));
    assert!(!runtime.cancelled(id));
    assert_eq!(runtime.cancel(id), CancellationOutcome::Signalled);
    assert!(runtime.cancelled(id));
    assert!(!runtime.cancelled(OperationId::new_exact(2)));
    assert_eq!(runtime.release(id), Ok(()));
    assert_eq!(runtime.release(id), Err(state("operation runtime gate disappeared")));
    assert!(!runtime.cancelled(id));
}

#[test]
fn a_start_is_refused_before_anything_is_written() {
    let tables = registered();
    let session = SessionId::new_exact(1);
    let fresh = OperationId::new_exact(2);
    let refused = |start: &OperationStart, is_directory: bool, encoded: Result<Vec<u8>, String>| {
        operation::request_start(&tables, start, is_directory, encoded, session, fresh).err()
    };
    let mut unnamed = start(1, OperationIntent::New);
    unnamed.prompt = String::new();
    assert_eq!(
        refused(&unnamed, true, Ok(vec![])),
        Some(OperatorError::InvalidRequest("prompt must not be empty".to_owned()))
    );
    let mut unknown = start(1, OperationIntent::New);
    unknown.project_id = ProjectId::new("unknown".to_owned()).expect("named");
    assert_eq!(
        refused(&unknown, true, Ok(vec![])),
        Some(OperatorError::UnknownProject("unknown".to_owned()))
    );
    assert_eq!(
        refused(&start(1, OperationIntent::New), false, Ok(vec![])),
        Some(OperatorError::InvalidRequest(
            "registered working_directory is not a directory".to_owned()
        ))
    );
    assert!(refused(&start(1, OperationIntent::New), true, Err("no text".to_owned())).is_some());
}

#[test]
fn a_repeated_start_is_answered_and_a_changed_one_refused() {
    let mut tables = registered();
    let first = admitted(&mut tables, 1, 10);
    assert!(first.inserted);
    let again = admitted(&mut tables, 1, 10);
    assert!(!again.inserted);
    assert_eq!(again.operation, first.operation);
    assert_eq!(operation::begin(again), StartStep::Done(Ok(first.operation.clone())));
    assert_eq!(operation::begin(first), StartStep::OpenGate);
    let session = SessionId::new_exact(10);
    let changed = operation::request_start(
        &tables,
        &start(1, OperationIntent::ResumeExact { session_id: session }),
        true,
        Ok(vec![9]),
        session,
        OperationId::new_exact(5),
    );
    assert_eq!(
        changed.err(),
        Some(OperatorError::Conflict(
            "request_id was already used with a different complete request".to_owned()
        ))
    );
    let contender = operation::request_start(
        &tables,
        &start(2, OperationIntent::ResumeExact { session_id: session }),
        true,
        Ok(vec![9]),
        session,
        OperationId::new_exact(5),
    );
    assert_eq!(
        contender.err(),
        Some(OperatorError::Conflict("session already has an active writer".to_owned()))
    );
}

#[test]
fn an_interrupted_session_is_refused() {
    let mut tables = registered();
    let first = admitted(&mut tables, 1, 10);
    running(&mut tables, first.operation.operation_id);
    let changes = tables.recover_current_daemon_incomplete().expect("the records agree");
    tables.commit(&changes);
    let session = SessionId::new_exact(10);
    let refused = operation::request_start(
        &tables,
        &start(2, OperationIntent::ResumeExact { session_id: session }),
        true,
        Ok(vec![9]),
        session,
        OperationId::new_exact(5),
    );
    assert_eq!(
        refused.err(),
        Some(OperatorError::UnclassifiedSession(
            "session was held by an operation interrupted by daemon restart".to_owned()
        ))
    );
}

#[test]
fn an_intent_names_its_session() {
    let session_id = SessionId::new_exact(10);
    let resume = OperationIntent::ResumeExact { session_id };
    assert_eq!(session_writer::session_for(resume), session_id);
    assert_eq!(
        operation::map_intent(resume),
        TargetIntent::ResumeExact { session_id: TargetSessionId(10) }
    );
    assert_eq!(operation::map_intent(OperationIntent::New), TargetIntent::New);
    assert_ne!(
        session_writer::session_for(OperationIntent::New),
        session_writer::session_for(OperationIntent::New)
    );
}

#[test]
fn a_writer_gets_fresh_identities() {
    let mut tables = registered();
    let decided = session_writer::admit_writer(&tables, &start(1, OperationIntent::New), "f");
    let first = write(&mut tables, decided);
    assert!(first.inserted);
    let decided = session_writer::admit_writer(&tables, &start(2, OperationIntent::New), "f");
    let second = write(&mut tables, decided);
    assert_ne!(first.operation.operation_id, second.operation.operation_id);
    assert_ne!(first.operation.session_id, second.operation.session_id);
    let session_id = first.operation.session_id;
    let resume = start(3, OperationIntent::ResumeExact { session_id });
    assert_eq!(
        session_writer::admit_writer(&tables, &resume, "f").err(),
        Some(OperatorError::Conflict("session already has an active writer".to_owned()))
    );
}

#[test]
fn permission_follows_the_durable_mark() {
    let mut tables = registered();
    let writer = admitted(&mut tables, 1, 10);
    let operation_id = writer.operation.operation_id;
    let mut step = operation::begin(writer);
    for event in [
        StartEvent::GateOpened(Ok(())),
        StartEvent::WorkerSpawned(Ok(())),
        StartEvent::Launch { report: Some(TargetLaunch::Launched) },
    ] {
        step = operation::start(step, event);
    }
    assert_eq!(step, StartStep::MarkRunning);
    let refused = operation::start(step, StartEvent::Moved(Err(state("full disk"))));
    assert_eq!(
        refused,
        StartStep::Withhold {
            refusal: state("full disk"),
            message: "state failure: full disk".to_owned(),
        }
    );
    let told = operation::start(refused, StartEvent::Told { received: true });
    assert_eq!(told, StartStep::Done(Err(state("full disk"))));
    let marked = running(&mut tables, operation_id);
    let granted = operation::start(StartStep::MarkRunning, StartEvent::Moved(Ok(marked.clone())));
    assert_eq!(granted, StartStep::Grant { running: marked.clone() });
    assert_eq!(
        operation::start(granted, StartEvent::Told { received: true }),
        StartStep::Done(Ok(marked))
    );
}

#[test]
fn a_start_without_a_launch_is_concluded() {
    let conclusion = |step: StartStep| match step {
        StartStep::Conclude { conclusion, release } => (conclusion.outcome, release),
        other => panic!("the start is concluded: {other:?}"),
    };
    assert_eq!(
        conclusion(operation::start(
            StartStep::SpawnWorker,
            StartEvent::WorkerSpawned(Err("limit".to_owned())),
        )),
        (
            TerminalOutcome::Failed("operation worker could not start: limit".to_owned()),
            true
        )
    );
    assert_eq!(
        conclusion(operation::start(StartStep::AwaitLaunch, StartEvent::Launch { report: None })),
        (
            TerminalOutcome::Indeterminate("target ended before proving launch state".to_owned()),
            false
        )
    );
    assert_eq!(
        operation::start(StartStep::AwaitCompletion, StartEvent::CompletionLost),
        StartStep::Done(Err(OperatorError::Indeterminate(
            "pre-launch cancellation was reported without a durable worker result".to_owned()
        )))
    );
}

#[test]
fn a_worker_concludes_with_what_the_target_did() {
    let outcome = |outcome: TargetOutcome| match worker::run_target(outcome) {
        WorkerStep::Conclude { conclusion } => conclusion,
        other => panic!("the worker concludes: {other:?}"),
    };
    let success = outcome(TargetOutcome::Success(TargetSuccess {
        result: "review".to_owned(),
        observed_session_id: TargetSessionId(10),
        observed_model: "opus".to_owned(),
        observed_version: Some("1".to_owned()),
    }));
    assert_eq!(
        success,
        OperationMove {
            next: OperationState::Succeeded,
            outcome: TerminalOutcome::Succeeded("review".to_owned()),
            session: Some(SessionId::new_exact(10)),
            model: Some("opus".to_owned()),
            version: Some("1".to_owned()),
        }
    );
    assert_eq!(
        outcome(TargetOutcome::Failed("why".to_owned())).outcome,
        TerminalOutcome::Failed("why".to_owned())
    );
    assert_eq!(
        outcome(TargetOutcome::Cancelled("why".to_owned())).outcome,
        TerminalOutcome::Cancelled("why".to_owned())
    );
    assert_eq!(
        outcome(TargetOutcome::Indeterminate("why".to_owned())).outcome,
        TerminalOutcome::Indeterminate("why".to_owned())
    );
    assert!(matches!(
        worker::run_target(TargetOutcome::CancelledBeforeLaunch("why".to_owned())),
        WorkerStep::ConcludeUnlaunched { .. }
    ));
    assert_eq!(
        worker::run_target(TargetOutcome::SpawnFailed("why".to_owned())),
        WorkerStep::Release
    );
}

#[test]
fn a_cancelled_operation_is_not_launched() {
    let mut tables = registered();
    let writer = admitted(&mut tables, 1, 10);
    assert_eq!(worker::begin(false), WorkerStep::ReadOperation);
    let step = worker::begin(true);
    let conclusion = match &step {
        WorkerStep::ConcludeCancelled { conclusion } => conclusion.clone(),
        other => panic!("the cancellation is recorded: {other:?}"),
    };
    let decided =
        operation::transition(&tables, writer.operation.operation_id, conclusion);
    let cancelled = write(&mut tables, decided);
    assert_eq!(
        cancelled.terminal_outcome,
        Some(TerminalOutcome::Cancelled(
            "operation cancellation was observed before target launch".to_owned()
        ))
    );
    let step = worker::execute(step, WorkerEvent::Moved(Ok(cancelled.clone())));
    let step = worker::execute(step, WorkerEvent::Read(Ok(cancelled.clone())));
    assert_eq!(step, WorkerStep::ReportCancelled { cancelled: cancelled.clone() });
    let step = worker::execute(step, WorkerEvent::Reported { received: true });
    assert_eq!(step, WorkerStep::SendCancelled { cancelled });
    let step = worker::execute(step, WorkerEvent::Sent);
    assert_eq!(step, WorkerStep::Release);
    assert_eq!(worker::execute(step, WorkerEvent::Released(Ok(()))), WorkerStep::Done);
    assert_eq!(
        worker::execute(WorkerStep::Release, WorkerEvent::Released(Err(state("lost")))),
        WorkerStep::Refuse { failure: state("lost") }
    );
}

#[test]
fn a_wait_ends_with_the_operation_or_the_deadline() {
    let mut tables = registered();
    let writer = admitted(&mut tables, 1, 10);
    let refusal = Refusal::new();
    let id = writer.operation.operation_id;
    let current = operation::poll(&refusal, &tables, id).expect("it is there");
    assert!(!operation::wait_ends(&current, false));
    assert!(operation::wait_ends(&current, true));
    assert_eq!(operation::bounded_wait(true), Ok(()));
    assert_eq!(
        operation::bounded_wait(false),
        Err(OperatorError::InvalidRequest("wait duration cannot be represented".to_owned()))
    );
    assert_eq!(
        diagnostic::bounded_wait(false),
        Err(OperatorError::InvalidRequest(
            "diagnostic wait duration cannot be represented".to_owned()
        ))
    );
    let ended = operation::cancel_one_shot(&tables, id, CancellationOutcome::GateAbsent);
    assert_eq!(
        ended,
        Err(state("nonterminal operation has no runtime cancellation gate"))
    );
    assert_eq!(
        operation::cancel_one_shot(&tables, id, CancellationOutcome::Signalled),
        Ok(None)
    );
}

#[test]
fn told_diagnostics_are_durable_diagnostics() {
    assert_eq!(
        diagnostic::normalize(TargetDiagnostic::ProviderRetrying {
            attempt: 1,
            max_retries: 2,
            retry_delay_ms: 3,
        }),
        OperationDiagnosticPayload::ProviderRetrying {
            attempt: 1,
            max_retries: 2,
            retry_delay_ms: 3,
        }
    );
    assert_eq!(
        diagnostic::normalize(TargetDiagnostic::AuthenticationFailed),
        OperationDiagnosticPayload::AuthenticationFailed
    );
    assert_eq!(
        diagnostic::normalize(TargetDiagnostic::DiagnosticUnclassified),
        OperationDiagnosticPayload::DiagnosticUnclassified
    );
}

#[test]
fn a_repeated_conversation_is_answered_and_a_changed_one_refused() {
    let mut tables = registered();
    let id = conversing(&mut tables, 1);
    let again = |encoded: Vec<u8>| {
        conversation::request_conversation(
            &tables,
            &live_request(1),
            true,
            Ok(encoded),
            SessionId::new_exact(1),
            OperationId::new_exact(9),
        )
    };
    let answered = again(vec![7]).expect("the request is known");
    assert!(answered.changes.is_empty());
    match answered.value {
        LivePlan::Answered(snapshot) => assert_eq!(snapshot.conversation.conversation_id, id),
        other => panic!("the conversation is known: {other:?}"),
    }
    assert_eq!(
        again(vec![8]).err(),
        Some(OperatorError::Conflict(
            "request UUID was reused with different conversation content".to_owned()
        ))
    );
    let occupied = operation::request_start(
        &tables,
        &start(2, OperationIntent::New),
        true,
        Ok(vec![1]),
        SessionId::new_exact(20),
        OperationId::new_exact(21),
    );
    write(&mut tables, occupied);
    let crossed = conversation::request_conversation(
        &tables,
        &live_request(2),
        true,
        Ok(vec![1]),
        SessionId::new_exact(30),
        OperationId::new_exact(31),
    );
    assert_eq!(
        crossed.err(),
        Some(OperatorError::Conflict(
            "request UUID is already occupied by a one-shot operation".to_owned()
        ))
    );
}

#[test]
fn a_turn_is_delivered_once() {
    let mut tables = registered();
    let id = conversing(&mut tables, 1);
    let send = ConversationSend {
        conversation_id: id,
        turn_id: TurnId::new(2),
        prompt: "second".to_owned(),
    };
    let decided = conversation::request_turn(&tables, &send, Ok(vec![1]));
    match write(&mut tables, decided) {
        SendPlan::Deliver(turn) => {
            assert_eq!(turn.turn_id, TargetTurnId(2));
            assert_eq!(turn.position, 2);
            assert_eq!(turn.prompt, "second");
        }
        other => panic!("the turn is new: {other:?}"),
    }
    let again = conversation::request_turn(&tables, &send, Ok(vec![1])).expect("it is known");
    assert!(matches!(again.value, SendPlan::Answered(_)));
    let stopped = conversation::request_stop(&tables, id, ConversationStopMode::Graceful);
    assert_eq!(
        write(&mut tables, stopped),
        StopPlan::Request(TargetLiveStop::Graceful { through_position: 2 })
    );
    let late = ConversationSend {
        conversation_id: id,
        turn_id: TurnId::new(3),
        prompt: "third".to_owned(),
    };
    assert_eq!(
        conversation::request_turn(&tables, &late, Ok(vec![1])).err(),
        Some(OperatorError::Conflict("conversation no longer admits turns".to_owned()))
    );
    let repeated =
        conversation::request_stop(&tables, id, ConversationStopMode::Graceful).expect("closing");
    assert!(matches!(repeated.value, StopPlan::Answered(_)));
    let escalated = conversation::request_stop(&tables, id, ConversationStopMode::Cancel);
    assert_eq!(write(&mut tables, escalated), StopPlan::Request(TargetLiveStop::Cancel));
}

fn snapshot(tables: &Tables, id: ConversationId) -> ConversationSnapshot {
    tables.get_conversation_snapshot(id, 0).expect("the conversation is there")
}

fn observe(tables: &mut Tables, id: ConversationId, observed: TargetLiveObservation) {
    let changes = conversation::apply_observation(tables, id, observed)
        .expect("the observation is recorded");
    tables.commit(&changes);
}

#[test]
fn observations_are_recorded_up_to_the_end() {
    let mut tables = registered();
    let id = conversing(&mut tables, 1);
    running(&mut tables, id.operation_id());
    let turn_id = TargetTurnId(1);
    for observed in [
        TargetLiveObservation::TurnQueued { turn_id },
        TargetLiveObservation::TurnStarted { turn_id },
        TargetLiveObservation::Initialized {
            session_id: TargetSessionId(1),
            model: "opus".to_owned(),
            version: None,
        },
        TargetLiveObservation::TurnAcknowledged { turn_id },
        TargetLiveObservation::AssistantTextDelta { turn_id, text: "part".to_owned() },
        TargetLiveObservation::TurnCompleted { turn_id, result: "whole".to_owned() },
        TargetLiveObservation::Exited,
    ] {
        observe(&mut tables, id, observed);
    }
    let ended = snapshot(&tables, id);
    assert_eq!(ended.conversation.state, ConversationState::Succeeded);
    assert_eq!(
        ended.conversation.terminal_outcome,
        Some(TerminalOutcome::Succeeded("whole".to_owned()))
    );
    assert_eq!(ended.turns[0].state, TurnState::Completed);
    let wait = ConversationWait { conversation_id: id, after_sequence: 0, wait_millis: 0 };
    let polled = conversation::poll(&Refusal::new(), &tables, &wait).expect("it is read");
    assert!(conversation::wait_ends(&polled, false));
    assert!(conversation::apply_observation(
        &tables,
        id,
        TargetLiveObservation::TurnStarted { turn_id },
    )
    .is_err());
}

#[test]
fn an_unclassified_writer_holds_its_session() {
    for (observed, retained) in [
        (TargetLiveObservation::UnclassifiedWriter("why".to_owned()), true),
        (TargetLiveObservation::Indeterminate("why".to_owned()), false),
        (TargetLiveObservation::Failed("why".to_owned()), false),
        (TargetLiveObservation::Cancelled, false),
    ] {
        let mut tables = registered();
        let id = conversing(&mut tables, 1);
        running(&mut tables, id.operation_id());
        observe(&mut tables, id, observed);
        assert!(snapshot(&tables, id).conversation.state.terminal());
        assert_eq!(tables.holds_claim(id.operation_id()), retained);
    }
}

#[test]
fn a_live_target_goes_on_only_when_it_is_recorded() {
    let mut step = LiveStep::OpenGate;
    for event in [
        LiveEvent::GateOpened(Ok(())),
        LiveEvent::TargetStarted { refusal: None },
        LiveEvent::MarkedRunning(Ok(())),
        LiveEvent::ObserverSpawned(Ok(())),
    ] {
        step = live::start(step, event);
    }
    assert_eq!(step, LiveStep::Grant);
    assert_eq!(
        live::start(step, LiveEvent::Told { received: true }),
        LiveStep::Snapshot
    );
    let unmarked =
        live::start(LiveStep::MarkRunning, LiveEvent::MarkedRunning(Err(state("full disk"))));
    assert_eq!(unmarked, LiveStep::StopTarget { refusal: state("full disk") });
    match live::start(unmarked, LiveEvent::Stopped(Ok(()))) {
        LiveStep::Finish { end, stopped } => {
            assert!(stopped);
            assert_eq!(end.disposition, SessionClaimDisposition::RetainUnclassifiedWriter);
            assert_eq!(end.state, ConversationState::Indeterminate);
        }
        other => panic!("the conversation is ended: {other:?}"),
    }
}

#[test]
fn a_failed_start_frees_only_a_proven_session() {
    for (error, state, disposition) in [
        (
            TargetLiveStartError::NoWriter("why".to_owned()),
            ConversationState::Failed,
            SessionClaimDisposition::ReleaseProvenWriter,
        ),
        (
            TargetLiveStartError::CleanupProvenExited("why".to_owned()),
            ConversationState::Failed,
            SessionClaimDisposition::ReleaseProvenWriter,
        ),
        (
            TargetLiveStartError::CleanupUnproven("why".to_owned()),
            ConversationState::Indeterminate,
            SessionClaimDisposition::RetainUnclassifiedWriter,
        ),
    ] {
        let end = fail_before_live_worker(error);
        assert_eq!(end.state, state);
        assert_eq!(end.disposition, disposition);
    }
    let unclean = live::start(
        LiveStep::Release { clean: false },
        LiveEvent::Released {
            released: true,
            terminal_report: "Ok(())".to_owned(),
            release_report: "Ok(())".to_owned(),
            termination_report: "lost".to_owned(),
        },
    );
    assert_eq!(
        unclean,
        LiveStep::Done(Err(state(
            "live startup cleanup: terminal=Ok(()); runtime_release=Ok(()); \
             direct_child_termination=lost"
        )))
    );
}

#[test]
fn an_undelivered_turn_closes_and_stops_the_conversation() {
    let mut tables = registered();
    let id = conversing(&mut tables, 1);
    let open = snapshot(&tables, id);
    let step = live::send(SendStep::Deliver, SendEvent::Delivered(Err("lost".to_owned())));
    let step = live::send(step, SendEvent::Read(Ok(open.clone())));
    assert_eq!(step, SendStep::CloseRefused { failure: "lost".to_owned() });
    let step = live::send(step, SendEvent::Closed(Ok(())));
    assert_eq!(step, SendStep::StopRefused { failure: "lost".to_owned() });
    assert_eq!(
        live::send(step, SendEvent::Stopped(Ok(()))),
        SendStep::Done(Err(OperatorError::Indeterminate("lost".to_owned())))
    );
    assert_eq!(
        live::send(
            SendStep::StopRefused { failure: "lost".to_owned() },
            SendEvent::Stopped(Err("deaf".to_owned())),
        ),
        SendStep::Done(Err(OperatorError::Indeterminate(
            "lost; direct live child termination failed: deaf".to_owned()
        )))
    );
    let step = live::stop(
        StopStep::Request(TargetLiveStop::Cancel),
        StopEvent::Requested(Err("deaf".to_owned())),
    );
    assert_eq!(
        live::stop(step, StopEvent::Read(Ok(open))),
        StopStep::Done(Err(OperatorError::Indeterminate(
            "live target stop request could not be observed: deaf".to_owned()
        )))
    );
}

fn read(state: ConversationState) -> RecorderEvent {
    let mut tables = registered();
    let id = conversing(&mut tables, 1);
    let mut conversation: Conversation = snapshot(&tables, id).conversation;
    conversation.state = state;
    RecorderEvent::Read(Ok(conversation))
}

#[test]
fn a_recorder_leaves_nothing_open() {
    let mut step = RecorderStep::Await;
    for event in [
        RecorderEvent::Observed { received: true },
        read(ConversationState::Open),
        RecorderEvent::Applied(Ok(())),
        read(ConversationState::Open),
    ] {
        step = recorder::observe(step, event);
    }
    assert_eq!(step, RecorderStep::Await);
    step = recorder::observe(step, RecorderEvent::Observed { received: false });
    assert_eq!(step, RecorderStep::FinalCheck);
    match recorder::observe(step, read(ConversationState::Open)) {
        RecorderStep::EndLost { end } => {
            assert_eq!(end.disposition, SessionClaimDisposition::RetainUnclassifiedWriter);
            assert_eq!(
                end.outcome,
                TerminalOutcome::Indeterminate(
                    "live target observation channel ended without a terminal outcome".to_owned()
                )
            );
        }
        other => panic!("the conversation is ended: {other:?}"),
    }
    assert_eq!(
        recorder::observe(RecorderStep::FinalCheck, read(ConversationState::Cancelled)),
        RecorderStep::Release
    );
    assert_eq!(
        recorder::observe(
            RecorderStep::Record { failure: state("lost"), tail: RecordTail::Release },
            RecorderEvent::Recorded,
        ),
        RecorderStep::Release
    );
}

#[test]
fn a_failed_record_stops_the_target() {
    let step = recorder::observe(
        RecorderStep::Apply,
        RecorderEvent::Applied(Err(OperatorError::Conflict("late".to_owned()))),
    );
    let step = recorder::observe(step, read(ConversationState::Open));
    assert!(matches!(step, RecorderStep::StopTarget { .. }));
    let step = recorder::observe(step, RecorderEvent::Stopped(Ok(())));
    assert!(matches!(step, RecorderStep::End { .. }));
    let step = recorder::observe(step, RecorderEvent::Ended(Ok(())));
    assert_eq!(
        step,
        RecorderStep::Record {
            failure: compose_observation_failure(
                OperatorError::Conflict("late".to_owned()),
                Ok(()),
                Ok(()),
            ),
            tail: RecordTail::FinalCheck,
        }
    );
    let composed = compose_observation_failure(
        OperatorError::Conflict("late".to_owned()),
        Err("deaf".to_owned()),
        Err(state("full disk")),
    );
    let text = composed.to_text();
    assert!(text.contains("; direct live child termination failed: deaf"));
    assert!(text.contains("; durable indeterminate transition failed: state failure: full disk"));
}

#[test]
fn a_wait_begins_with_its_cursor_and_then_its_end() {
    let wait = |after_sequence| ConversationWait {
        conversation_id: ConversationId::new(OperationId::new_exact(1)),
        after_sequence,
        wait_millis: 0,
    };
    let beyond = i64::MAX as u64 + 1;
    assert_eq!(conversation::begin_wait(&wait(i64::MAX as u64), true), Ok(()));
    for representable in [true, false] {
        assert_eq!(
            conversation::begin_wait(&wait(beyond), representable),
            Err(OperatorError::InvalidRequest(
                "conversation cursor exceeds the supported durable range".to_owned()
            ))
        );
    }
    assert_eq!(
        conversation::begin_wait(&wait(0), false),
        Err(OperatorError::InvalidRequest("wait duration cannot be represented".to_owned()))
    );
    let read = |after_diagnostic_sequence| OperationDiagnosticsRequest {
        operation_id: OperationId::new_exact(1),
        after_diagnostic_sequence,
        wait_millis: 0,
    };
    assert_eq!(diagnostic::begin_wait(&read(i64::MAX as u64), true), Ok(()));
    for representable in [true, false] {
        assert_eq!(
            diagnostic::begin_wait(&read(beyond), representable),
            Err(OperatorError::InvalidRequest(
                "diagnostic cursor exceeds the supported durable range".to_owned()
            ))
        );
    }
    assert_eq!(
        diagnostic::begin_wait(&read(0), false),
        Err(OperatorError::InvalidRequest(
            "diagnostic wait duration cannot be represented".to_owned()
        ))
    );
}

#[test]
fn an_unrecorded_diagnostic_is_retained_and_signals_its_own_operation() {
    let mut control = OperationControl::new();
    let lost = OperationId::new_exact(1);
    let other = OperationId::new_exact(2);
    control.runtime.open(lost).expect("it has none yet");
    control.runtime.open(other).expect("it has none yet");
    control.diagnostic_unrecorded(lost, &state("full disk"));
    assert!(control.runtime.cancelled(lost));
    assert!(!control.runtime.cancelled(other));
    assert_eq!(control.refusal.check(), Err(state("full disk")));
    control.diagnostic_unrecorded(other, &state("still full"));
    assert!(control.runtime.cancelled(other));
    assert_eq!(control.refusal.check(), Err(state("full disk")));
    let mut served = OperationControl::new();
    served.diagnostic_unrecorded(lost, &OperatorError::Conflict("ended".to_owned()));
    assert_eq!(served.refusal.check(), Ok(()));
    assert!(!served.runtime.cancelled(lost));
}
