//! The rules of the durable state, on given records.

use aiop::contract::control::{
    BindingPersistence, ConversationCloseAdmission, ConversationEventPayload, ConversationSend,
    ConversationStart, ConversationStartAdmission, ConversationState, ConversationStopMode,
    ConversationTurnAdmission, InitiatorBinding, InitiatorIdentity, Operation, OperationAdmission,
    OperationDiagnosticPayload, OperationIntent, OperationStart, OperationState, OperatorError,
    ProjectRegistration, ReviewProfile, SessionClaimDisposition, TerminalOutcome, TurnState,
};
use aiop::contract::identity::{
    ConversationId, InitiatorAgentIdentity, InitiatorSessionIdentity, OperationId, ProjectId,
    RequestId, RoleIdentity, SessionId, SubjectIdentity, TaskIdentity, TurnId,
};
use aiop::state::conversation_timeline;
use aiop::state::conversation_turn::{
    event_matches_transition, event_turn_id, turn_transition_allowed, unresolved_event,
    unresolved_state,
};
use aiop::state::decision::Decided;
use aiop::state::operation::allowed;
use aiop::state::session_claim;
use aiop::state::tables::{Change, Tables};

fn project(name: &str) -> ProjectRegistration {
    ProjectRegistration {
        project_id: ProjectId::new(name.to_owned()).expect("named"),
        working_directory: "/workspace".to_owned(),
        claude_executable: "target".to_owned(),
        expected_opus_model: "opus".to_owned(),
    }
}

fn write<T>(tables: &mut Tables, decided: Result<Decided<T>, OperatorError>) -> T {
    let decided = decided.expect("the state accepts the request");
    tables.commit(&decided.changes);
    decided.value
}

fn with_project() -> Tables {
    let mut tables = Tables::new();
    let decided = tables.register_project(project("project"));
    write(&mut tables, decided);
    tables
}

fn start(request: u128) -> OperationStart {
    OperationStart {
        request_id: RequestId::new(request),
        project_id: project("project").project_id,
        intent: OperationIntent::New,
        prompt: "prompt".to_owned(),
        review_profile: ReviewProfile::OpusReadOnly,
    }
}

fn live(request: u128, turn: u128) -> ConversationStart {
    ConversationStart {
        request_id: RequestId::new(request),
        project_id: project("project").project_id,
        intent: OperationIntent::New,
        turn_id: TurnId::new(turn),
        prompt: "first prompt".to_owned(),
        review_profile: ReviewProfile::OpusReadOnly,
    }
}

fn admitted(tables: &mut Tables, request: u128, session: u128) -> Operation {
    let decided =
        tables.persist_operation_admission(&start(request), SessionId::new_exact(session), "f");
    match write(tables, decided) {
        OperationAdmission::Inserted(operation) => operation,
        other => panic!("the operation is new: {other:?}"),
    }
}

fn conversing(tables: &mut Tables, request: u128, session: u128) -> ConversationId {
    let decided = tables.persist_conversation_start(
        &live(request, request),
        SessionId::new_exact(session),
        "f",
    );
    match write(tables, decided) {
        ConversationStartAdmission::Inserted { conversation, .. } => conversation.conversation_id,
        other => panic!("the conversation is new: {other:?}"),
    }
}

fn moved(
    tables: &mut Tables,
    operation_id: OperationId,
    next: OperationState,
    outcome: Option<TerminalOutcome>,
) -> Operation {
    let decided = tables.transition(operation_id, next, outcome, None, None, None);
    write(tables, decided)
}

fn conflict<T>(result: Result<T, OperatorError>) -> String {
    match result {
        Err(OperatorError::Conflict(message)) => message,
        Err(other) => panic!("a conflict was expected: {other:?}"),
        Ok(_) => panic!("a conflict was expected"),
    }
}

fn failure<T>(result: Result<T, OperatorError>) -> String {
    match result {
        Err(OperatorError::State(message)) => message,
        Err(other) => panic!("a failure of the state was expected: {other:?}"),
        Ok(_) => panic!("a failure of the state was expected"),
    }
}

#[test]
fn a_registration_is_stable_and_listed_in_order() {
    let mut tables = with_project();
    let decided = tables.register_project(project("earlier"));
    write(&mut tables, decided);
    let again = tables.register_project(project("project")).expect("the same registration");
    assert!(again.changes.is_empty());
    let mut changed = project("project");
    changed.working_directory = "/elsewhere".to_owned();
    assert_eq!(
        conflict(tables.register_project(changed)),
        "project_id is already registered with different configuration"
    );
    let names: Vec<String> = tables
        .list_projects()
        .iter()
        .map(|project| project.project_id.as_str().to_owned())
        .collect();
    assert_eq!(names, vec!["earlier".to_owned(), "project".to_owned()]);
    match tables.get_project(&project("unknown").project_id) {
        Err(OperatorError::UnknownProject(name)) => assert_eq!(name, "unknown"),
        other => panic!("the project is unknown: {other:?}"),
    }
}

#[test]
fn an_admission_is_idempotent_and_claims_its_session() {
    let mut tables = with_project();
    let operation = admitted(&mut tables, 1, 10);
    assert_eq!(operation.state, OperationState::Accepted);
    let again = tables
        .persist_operation_admission(&start(1), SessionId::new_exact(99), "other")
        .expect("the request is known");
    assert!(again.changes.is_empty());
    assert_eq!(
        again.value,
        OperationAdmission::Existing { operation: operation.clone(), fingerprint: "f".to_owned() }
    );
    let claimed = tables
        .persist_operation_admission(&start(2), SessionId::new_exact(10), "f")
        .expect("the claim is read");
    assert!(claimed.changes.is_empty());
    assert_eq!(claimed.value, OperationAdmission::ActiveSession { operation: operation.clone() });
    let other = tables
        .persist_conversation_start(&live(3, 3), SessionId::new_exact(10), "f")
        .expect("the claim is read");
    assert!(other.changes.is_empty());
    assert_eq!(other.value, ConversationStartAdmission::ActiveSession { operation });
    let mut unregistered = start(4);
    unregistered.project_id = project("unknown").project_id;
    let missing = tables
        .persist_operation_admission(&unregistered, SessionId::new_exact(11), "f")
        .expect("the project is looked up");
    assert_eq!(missing.value, OperationAdmission::MissingProject);
    assert!(missing.changes.is_empty());
    let reused = tables.admit_operation(
        &start(5),
        SessionId::new_exact(12),
        "f",
        tables.requested(RequestId::new(1)).expect("admitted").operation.operation_id,
    );
    assert_eq!(failure(reused), "operation identity is already in use");
}

#[test]
fn a_session_is_free_again_after_its_writer_ended() {
    let mut tables = with_project();
    let operation = admitted(&mut tables, 1, 10);
    assert!(tables.holds_claim(operation.operation_id));
    moved(&mut tables, operation.operation_id, OperationState::Running, None);
    assert!(tables.holds_claim(operation.operation_id));
    moved(
        &mut tables,
        operation.operation_id,
        OperationState::Failed,
        Some(TerminalOutcome::Failed("why".to_owned())),
    );
    assert!(!tables.holds_claim(operation.operation_id));
    assert_eq!(tables.claim(SessionId::new_exact(10)), None);
    admitted(&mut tables, 2, 10);
}

#[test]
fn operations_move_only_forward() {
    for (current, next, permitted) in [
        (OperationState::Accepted, OperationState::Running, true),
        (OperationState::Accepted, OperationState::Failed, true),
        (OperationState::Accepted, OperationState::Cancelled, true),
        (OperationState::Accepted, OperationState::Indeterminate, true),
        (OperationState::Accepted, OperationState::Succeeded, false),
        (OperationState::Accepted, OperationState::Accepted, false),
        (OperationState::Running, OperationState::Succeeded, true),
        (OperationState::Running, OperationState::Failed, true),
        (OperationState::Running, OperationState::Cancelled, true),
        (OperationState::Running, OperationState::Indeterminate, true),
        (OperationState::Running, OperationState::Accepted, false),
        (OperationState::Running, OperationState::Running, false),
        (OperationState::Succeeded, OperationState::Failed, false),
        (OperationState::Cancelled, OperationState::Running, false),
    ] {
        assert_eq!(allowed(current, next), permitted, "{current:?} to {next:?}");
    }
}

#[test]
fn an_operation_has_an_outcome_exactly_where_it_ended() {
    let mut tables = with_project();
    let operation = admitted(&mut tables, 1, 10);
    let id = operation.operation_id;
    let mismatch = "terminal outcome must exactly match terminal state";
    assert_eq!(
        failure(tables.transition(id, OperationState::Failed, None, None, None, None)),
        mismatch
    );
    let early = Some(TerminalOutcome::Failed("early".to_owned()));
    assert_eq!(
        failure(tables.transition(id, OperationState::Running, early, None, None, None)),
        mismatch
    );
    assert_eq!(
        conflict(tables.transition(id, OperationState::Succeeded, None, None, None, None)),
        "operation transition is not permitted"
    );
    moved(&mut tables, id, OperationState::Running, None);
    let ended = moved(
        &mut tables,
        id,
        OperationState::Succeeded,
        Some(TerminalOutcome::Succeeded("done".to_owned())),
    );
    assert_eq!(tables.get_operation(id), Ok(ended));
    assert_eq!(
        conflict(tables.transition(
            id,
            OperationState::Failed,
            Some(TerminalOutcome::Failed("late".to_owned())),
            None,
            None,
            None,
        )),
        "operation transition is not permitted"
    );
    let unknown = OperationId::new_exact(77);
    assert_eq!(
        tables.get_operation(unknown),
        Err(OperatorError::UnknownOperation(unknown.to_text()))
    );
}

fn identity(task: &str) -> InitiatorIdentity {
    InitiatorIdentity {
        initiator_session_id: InitiatorSessionIdentity::new("session".to_owned()).expect("named"),
        initiator_agent_id: InitiatorAgentIdentity::new("agent".to_owned()).expect("named"),
        role_id: RoleIdentity::new("role".to_owned()).expect("named"),
        task_id: TaskIdentity::new(task.to_owned()).expect("named"),
        subject_id: SubjectIdentity::new("subject".to_owned()).expect("named"),
    }
}

#[test]
fn a_binding_is_stable_and_listed_by_its_initiator() {
    let mut tables = with_project();
    let binding = |task: &str, session: u128| InitiatorBinding {
        project_id: project("project").project_id,
        identity: identity(task),
        target_session_id: SessionId::new_exact(session),
    };
    for (task, session) in [("second", 2), ("first", 1)] {
        let decided = tables.persist_initiator_binding(&binding(task, session));
        assert_eq!(write(&mut tables, decided), BindingPersistence::Inserted);
    }
    let again = tables.persist_initiator_binding(&binding("first", 9)).expect("it is known");
    assert!(again.changes.is_empty());
    assert_eq!(
        again.value,
        BindingPersistence::Existing { target_session_id: SessionId::new_exact(1) }
    );
    let listed = tables.list_initiator_bindings_for_initiator(
        &project("project").project_id,
        &identity("first").initiator_session_id,
        &identity("first").initiator_agent_id,
    );
    assert_eq!(listed, vec![binding("first", 1), binding("second", 2)]);
    assert_eq!(
        tables.get_initiator_binding(&project("other").project_id, &identity("first")),
        None
    );
}

#[test]
fn diagnostics_are_numbered_while_the_operation_runs() {
    let mut tables = with_project();
    let operation = admitted(&mut tables, 1, 10);
    let id = operation.operation_id;
    assert_eq!(
        conflict(tables.record_operation_diagnostic(
            id,
            OperationDiagnosticPayload::AuthenticationFailed,
        )),
        "operation diagnostics can be appended only while the operation is running"
    );
    moved(&mut tables, id, OperationState::Running, None);
    for expected in 1..=3_u64 {
        let decided = tables
            .record_operation_diagnostic(id, OperationDiagnosticPayload::DiagnosticUnclassified);
        assert_eq!(write(&mut tables, decided).diagnostic_sequence, expected);
    }
    let later = tables.get_operation_diagnostics(id, 2).expect("the operation is covered");
    assert_eq!(later.diagnostics.len(), 1);
    assert_eq!(later.diagnostics[0].diagnostic_sequence, 3);
    let beyond = tables.get_operation_diagnostics(id, i64::MAX as u64 + 1);
    assert_eq!(
        beyond.err(),
        Some(OperatorError::InvalidRequest(
            "diagnostic cursor exceeds the supported durable range".to_owned()
        ))
    );
    let conversation = conversing(&mut tables, 2, 20);
    assert_eq!(
        conflict(tables.get_operation_diagnostics(conversation.operation_id(), 0)),
        "operation diagnostics are unavailable for live conversations"
    );
}

fn send(conversation_id: ConversationId, turn: u128) -> ConversationSend {
    ConversationSend {
        conversation_id,
        turn_id: TurnId::new(turn),
        prompt: format!("prompt {turn}"),
    }
}

#[test]
fn turns_take_the_next_position_once() {
    let mut tables = with_project();
    let id = conversing(&mut tables, 1, 10);
    let decided = tables.persist_conversation_turn(&send(id, 2), "second");
    match write(&mut tables, decided) {
        ConversationTurnAdmission::Inserted(turn) => assert_eq!(turn.position, 2),
        other => panic!("the turn is new: {other:?}"),
    }
    let again = tables.persist_conversation_turn(&send(id, 2), "changed").expect("it is known");
    assert!(again.changes.is_empty());
    match again.value {
        ConversationTurnAdmission::Existing { turn, fingerprint } => {
            assert_eq!(turn.position, 2);
            assert_eq!(fingerprint, "second");
        }
        other => panic!("the turn is known: {other:?}"),
    }
    let unknown = ConversationId::new(OperationId::new_exact(77));
    assert_eq!(
        tables.persist_conversation_turn(&send(unknown, 3), "f").expect("it is looked up").value,
        ConversationTurnAdmission::MissingConversation
    );
    let snapshot = tables.get_conversation_snapshot(id, 0).expect("the conversation is there");
    let numbers: Vec<u64> = snapshot.events.iter().map(|event| event.sequence).collect();
    assert_eq!(numbers, vec![1, 2]);
    assert_eq!(
        snapshot.events[1].payload,
        ConversationEventPayload::TurnQueued { turn_id: TurnId::new(2) }
    );
}

#[test]
fn a_turn_is_observed_in_its_order() {
    let mut tables = with_project();
    let id = conversing(&mut tables, 1, 10);
    let turn_id = TurnId::new(1);
    let completed = ConversationEventPayload::TurnCompleted {
        turn_id,
        result: "done".to_owned(),
    };
    assert_eq!(
        conflict(tables.record_conversation_turn_observation(
            id,
            turn_id,
            Some(TurnState::Completed),
            Some("done".to_owned()),
            completed.clone(),
        )),
        "conversation turn transition is not permitted"
    );
    assert_eq!(
        failure(tables.record_conversation_turn_observation(
            id,
            turn_id,
            Some(TurnState::Started),
            None,
            completed.clone(),
        )),
        "turn observation event does not match the durable transition"
    );
    assert_eq!(
        failure(tables.record_conversation_turn_observation(
            id,
            turn_id,
            Some(TurnState::Started),
            None,
            ConversationEventPayload::TurnStarted { turn_id: TurnId::new(9) },
        )),
        "turn observation event refers to another turn"
    );
    assert_eq!(
        failure(tables.record_conversation_turn_observation(
            id,
            TurnId::new(9),
            Some(TurnState::Started),
            None,
            ConversationEventPayload::TurnStarted { turn_id: TurnId::new(9) },
        )),
        "conversation turn is unknown"
    );
    assert_eq!(
        failure(tables.record_conversation_turn_observation(
            id,
            turn_id,
            None,
            None,
            ConversationEventPayload::ConversationTerminal {
                outcome: TerminalOutcome::Succeeded("done".to_owned()),
            },
        )),
        "conversation-level event cannot observe a turn"
    );
    for (state, result, payload) in [
        (Some(TurnState::Started), None, ConversationEventPayload::TurnStarted { turn_id }),
        (None, None, ConversationEventPayload::TurnAcknowledged { turn_id }),
        (Some(TurnState::Completed), Some("done".to_owned()), completed.clone()),
    ] {
        let decided =
            tables.record_conversation_turn_observation(id, turn_id, state, result, payload);
        write(&mut tables, decided);
    }
    assert_eq!(
        conflict(tables.record_conversation_turn_observation(
            id,
            turn_id,
            Some(TurnState::Failed),
            None,
            ConversationEventPayload::TurnFailed { turn_id, message: "late".to_owned() },
        )),
        "conversation turn transition is not permitted"
    );
}

#[test]
fn an_initialization_never_changes_what_is_known() {
    let mut tables = with_project();
    let id = conversing(&mut tables, 1, 10);
    let session = SessionId::new_exact(10);
    let decided =
        tables.record_conversation_initialization(id, session, "opus".to_owned(), None);
    write(&mut tables, decided);
    let operation = tables.get_operation(id.operation_id()).expect("it carries the conversation");
    assert_eq!(operation.observed_session_id, Some(session));
    assert_eq!(operation.observed_model, Some("opus".to_owned()));
    match tables.record_conversation_initialization(id, session, "other".to_owned(), None) {
        Err(error) => assert!(error.to_text().contains(
            "provider initialization contradicts prior conversation identity"
        )),
        Ok(_) => panic!("another model contradicts the first"),
    }
    match tables.record_conversation_initialization(
        id,
        SessionId::new_exact(11),
        "opus".to_owned(),
        None,
    ) {
        Err(error) => assert!(error.to_text().contains(
            "provider initialization session differs from the intended session"
        )),
        Ok(_) => panic!("another session was not intended"),
    }
}

#[test]
fn a_closed_conversation_keeps_what_it_holds() {
    let mut tables = with_project();
    let id = conversing(&mut tables, 1, 10);
    let before = tables.get_conversation_snapshot(id, 0).expect("the conversation is there");
    let decided = tables.close_conversation(id, ConversationStopMode::Graceful);
    match write(&mut tables, decided) {
        ConversationCloseAdmission::ClosedNow { conversation, through_position } => {
            assert_eq!(conversation.close_mode, Some(ConversationStopMode::Graceful));
            assert_eq!(through_position, 1);
        }
        other => panic!("the conversation was open: {other:?}"),
    }
    let again = tables.close_conversation(id, ConversationStopMode::Graceful).expect("closing");
    assert!(again.changes.is_empty());
    assert!(matches!(again.value, ConversationCloseAdmission::AlreadyClosing(_)));
    let decided = tables.close_conversation(id, ConversationStopMode::Cancel);
    assert!(matches!(
        write(&mut tables, decided),
        ConversationCloseAdmission::EscalatedToCancel(_)
    ));
    let again = tables.close_conversation(id, ConversationStopMode::Graceful).expect("closing");
    assert!(matches!(again.value, ConversationCloseAdmission::AlreadyClosing(_)));
    let after = tables.get_conversation_snapshot(id, 0).expect("the conversation is there");
    assert_eq!(after.turns, before.turns);
    assert_eq!(after.events, before.events);
    assert!(matches!(
        tables.persist_conversation_turn(&send(id, 2), "f").expect("it is read").value,
        ConversationTurnAdmission::Closed { .. }
    ));
}

#[test]
fn an_ended_conversation_is_complete_and_final() {
    let mut tables = with_project();
    let id = conversing(&mut tables, 1, 10);
    let decided = tables.persist_conversation_turn(&send(id, 2), "second");
    write(&mut tables, decided);
    let decided = tables.record_conversation_turn_observation(
        id,
        TurnId::new(1),
        Some(TurnState::Started),
        None,
        ConversationEventPayload::TurnStarted { turn_id: TurnId::new(1) },
    );
    write(&mut tables, decided);
    let cancelled = || TerminalOutcome::Cancelled("stopped".to_owned());
    for (state, operation_state, disposition, message) in [
        (
            ConversationState::Open,
            OperationState::Cancelled,
            SessionClaimDisposition::ReleaseProvenWriter,
            "conversation terminal transition requires terminal states",
        ),
        (
            ConversationState::Cancelled,
            OperationState::Cancelled,
            SessionClaimDisposition::RetainUnclassifiedWriter,
            "only an indeterminate conversation may retain an unclassified writer claim",
        ),
        (
            ConversationState::Cancelled,
            OperationState::Failed,
            SessionClaimDisposition::ReleaseProvenWriter,
            "conversation and operation terminal states disagree",
        ),
    ] {
        assert_eq!(
            failure(tables.terminalize_conversation(
                id,
                state,
                operation_state,
                cancelled(),
                disposition,
            )),
            message
        );
    }
    let decided = tables.terminalize_conversation(
        id,
        ConversationState::Cancelled,
        OperationState::Cancelled,
        cancelled(),
        SessionClaimDisposition::ReleaseProvenWriter,
    );
    assert_eq!(write(&mut tables, decided).terminal_outcome, Some(cancelled()));
    assert_eq!(tables.claim(SessionId::new_exact(10)), None);
    let ended = tables.get_conversation_snapshot(id, 3).expect("the conversation is there");
    assert_eq!(ended.turns[0].state, TurnState::Cancelled);
    assert_eq!(ended.turns[1].state, TurnState::Discarded);
    let payloads: Vec<ConversationEventPayload> =
        ended.events.into_iter().map(|event| event.payload).collect();
    assert_eq!(
        payloads,
        vec![
            ConversationEventPayload::TurnCancelled {
                turn_id: TurnId::new(1),
                message: "conversation cancellation was observed".to_owned(),
            },
            ConversationEventPayload::TurnDiscarded {
                turn_id: TurnId::new(2),
                message: "conversation cancellation was observed".to_owned(),
            },
            ConversationEventPayload::ConversationTerminal { outcome: cancelled() },
        ]
    );
    let again = tables
        .terminalize_conversation(
            id,
            ConversationState::Cancelled,
            OperationState::Cancelled,
            cancelled(),
            SessionClaimDisposition::ReleaseProvenWriter,
        )
        .expect("the same end");
    assert!(again.changes.is_empty());
    assert_eq!(
        conflict(tables.terminalize_conversation(
            id,
            ConversationState::Failed,
            OperationState::Failed,
            TerminalOutcome::Failed("other".to_owned()),
            SessionClaimDisposition::ReleaseProvenWriter,
        )),
        "conversation already has a different terminal outcome"
    );
    assert!(matches!(
        tables.close_conversation(id, ConversationStopMode::Cancel).expect("it is read").value,
        ConversationCloseAdmission::Terminal(_)
    ));
}

#[test]
fn a_conversation_succeeds_only_with_every_turn() {
    let mut tables = with_project();
    let id = conversing(&mut tables, 1, 10);
    assert_eq!(
        failure(tables.terminalize_conversation(
            id,
            ConversationState::Succeeded,
            OperationState::Succeeded,
            TerminalOutcome::Succeeded("done".to_owned()),
            SessionClaimDisposition::ReleaseProvenWriter,
        )),
        "succeeded conversation has unfinished turns"
    );
}

#[test]
fn an_unclassified_writer_keeps_its_session() {
    let mut tables = with_project();
    let id = conversing(&mut tables, 1, 10);
    let decided = tables.terminalize_conversation(
        id,
        ConversationState::Indeterminate,
        OperationState::Indeterminate,
        TerminalOutcome::Indeterminate("unproven".to_owned()),
        SessionClaimDisposition::RetainUnclassifiedWriter,
    );
    write(&mut tables, decided);
    assert!(tables.holds_claim(id.operation_id()));
}

#[test]
fn recovery_leaves_nothing_unfinished_and_holds_the_sessions() {
    let mut tables = with_project();
    let running = admitted(&mut tables, 1, 10);
    moved(&mut tables, running.operation_id, OperationState::Running, None);
    let accepted = admitted(&mut tables, 2, 20);
    let id = conversing(&mut tables, 3, 30);
    let ended = admitted(&mut tables, 4, 40);
    moved(
        &mut tables,
        ended.operation_id,
        OperationState::Cancelled,
        Some(TerminalOutcome::Cancelled("early".to_owned())),
    );
    let changes = tables.recover_current_daemon_incomplete().expect("the records agree");
    tables.commit(&changes);
    for operation_id in [running.operation_id, accepted.operation_id] {
        let operation = tables.get_operation(operation_id).expect("it is there");
        assert_eq!(
            operation.terminal_outcome,
            Some(TerminalOutcome::Indeterminate(
                "daemon restarted before direct child was classified".to_owned()
            ))
        );
        assert!(tables.holds_claim(operation_id));
    }
    let conversation = tables.get_conversation(id).expect("it is there");
    assert_eq!(conversation.state, ConversationState::Indeterminate);
    assert_eq!(
        conversation.terminal_outcome,
        Some(TerminalOutcome::Indeterminate(
            "daemon restarted before persistent conversation was classified".to_owned()
        ))
    );
    assert!(tables.holds_claim(id.operation_id()));
    assert_eq!(
        tables.get_operation(ended.operation_id).expect("it is there").state,
        OperationState::Cancelled
    );
    let nothing = tables.recover_current_daemon_incomplete().expect("the records agree");
    assert!(nothing.is_empty());
}

#[test]
fn events_are_numbered_within_the_durable_range() {
    let id = ConversationId::new(OperationId::new_exact(1));
    let payload = || ConversationEventPayload::TurnQueued { turn_id: TurnId::new(1) };
    let first = conversation_timeline::append(0, id, payload()).expect("the first event");
    assert_eq!(first.sequence, 1);
    assert_eq!(
        failure(conversation_timeline::append(u64::MAX, id, payload())),
        "conversation event sequence is exhausted"
    );
    assert_eq!(
        failure(conversation_timeline::append(i64::MAX as u64, id, payload())),
        "event sequence does not fit SQLite: out of range integral type conversion attempted"
    );
    let second = conversation_timeline::append(1, id, payload()).expect("the second event");
    let events = vec![first, second.clone()];
    assert_eq!(conversation_timeline::list_after(&events, 1), Ok(vec![second]));
    assert_eq!(
        failure(conversation_timeline::list_after(&events, i64::MAX as u64 + 1)),
        "conversation event sequence does not fit SQLite: out of range integral type conversion \
         attempted"
    );
}

#[test]
fn a_stored_claim_names_its_operation() {
    let text = "0123abcd-4567-4890-8abc-def012345678";
    assert_eq!(
        session_claim::operation_id(text.to_owned()),
        Ok(OperationId::new_exact(0x0123_abcd_4567_4890_8abc_def0_1234_5678))
    );
    assert!(failure(session_claim::operation_id("no uuid".to_owned()))
        .starts_with("active session operation id was not a UUID: "));
}

#[test]
fn changes_are_written_one_after_another() {
    let mut tables = Tables::new();
    tables.apply(&Change::InsertProject(project("project")));
    assert!(tables.project(&project("project").project_id).is_some());
    assert_eq!(tables.operation(OperationId::new_exact(1)), None);
    assert_eq!(tables.conversation(ConversationId::new(OperationId::new_exact(1))), None);
    assert_eq!(tables.diagnostics(OperationId::new_exact(1)), None);
}

const TURN_STATES: [TurnState; 7] = [
    TurnState::Queued,
    TurnState::Started,
    TurnState::Completed,
    TurnState::Cancelled,
    TurnState::Discarded,
    TurnState::Failed,
    TurnState::Indeterminate,
];

#[test]
fn a_turn_moves_only_forward() {
    for current in TURN_STATES {
        for next in TURN_STATES {
            let expected = match current {
                TurnState::Queued => {
                    next != TurnState::Queued && next != TurnState::Completed
                }
                TurnState::Started => matches!(
                    next,
                    TurnState::Completed
                        | TurnState::Cancelled
                        | TurnState::Failed
                        | TurnState::Indeterminate
                ),
                _ => false,
            };
            assert_eq!(turn_transition_allowed(current, next), expected);
        }
    }
}

#[test]
fn an_end_resolves_a_turn_by_a_lawful_step() {
    let turn = TurnId::new(7);
    let ends = [
        (ConversationState::Cancelled, TurnState::Cancelled),
        (ConversationState::Cancelled, TurnState::Discarded),
        (ConversationState::Failed, TurnState::Failed),
        (ConversationState::Indeterminate, TurnState::Indeterminate),
    ];
    for (ended, next) in ends {
        let payload = unresolved_event(turn, next, ended).expect("the end explains the turn");
        assert_eq!(event_turn_id(&payload), Ok(turn));
        assert!(event_matches_transition(Some(next), &None, &payload));
        assert!(turn_transition_allowed(TurnState::Queued, next));
        assert_eq!(
            turn_transition_allowed(TurnState::Started, next),
            next != TurnState::Discarded
        );
    }
    assert_eq!(unresolved_state(ConversationState::Cancelled), Ok(TurnState::Cancelled));
    assert_eq!(unresolved_state(ConversationState::Failed), Ok(TurnState::Failed));
    assert_eq!(unresolved_state(ConversationState::Indeterminate), Ok(TurnState::Indeterminate));
    assert_eq!(
        failure(unresolved_state(ConversationState::Closing)),
        "nonterminal conversation cannot resolve unfinished turns"
    );
    assert_eq!(
        failure(unresolved_state(ConversationState::Succeeded)),
        "succeeded conversation has unfinished turns"
    );
    for ended in
        [ConversationState::Open, ConversationState::Closing, ConversationState::Succeeded]
    {
        for next in TURN_STATES {
            assert_eq!(
                failure(unresolved_event(turn, next, ended)),
                "non-failing terminal state cannot resolve unfinished turns"
            );
        }
    }
    assert_eq!(
        failure(unresolved_event(turn, TurnState::Started, ConversationState::Failed)),
        "terminal resolution selected a nonterminal turn event"
    );
}

#[test]
fn every_reader_sees_rising_numbers_without_a_gap() {
    let mut tables = with_project();
    let id = conversing(&mut tables, 1, 10);
    for turn in [2, 3] {
        let decided = tables.persist_conversation_turn(&send(id, turn), "f");
        write(&mut tables, decided);
    }
    let decided = tables.close_conversation(id, ConversationStopMode::Cancel);
    write(&mut tables, decided);
    let changes = tables.recover_current_daemon_incomplete().expect("the records agree");
    tables.commit(&changes);
    let all = tables.get_conversation_snapshot(id, 0).expect("it is there").events;
    let numbers: Vec<u64> = all.iter().map(|event| event.sequence).collect();
    assert_eq!(numbers, vec![1, 2, 3, 4, 5, 6, 7]);
    for (index, event) in all.iter().enumerate() {
        assert_eq!(
            matches!(event.payload, ConversationEventPayload::ConversationTerminal { .. }),
            index + 1 == all.len()
        );
    }
    for cursor in 0..9 {
        let rest = tables.get_conversation_snapshot(id, cursor).expect("it is there").events;
        assert_eq!(rest, all[(cursor as usize).min(all.len())..]);
    }
}
