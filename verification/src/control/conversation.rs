//! Decides the durable side of one live conversation: its admission, its turns, its closing, and
//! what every observation of its target means.

use vstd::prelude::*;

use crate::contract::control::{
    conflict, durable_range, invalid_request, state_failure, ConversationCloseAdmission,
    ConversationCloseAdmissionView, ConversationEventPayload, ConversationEventPayloadView,
    ConversationSend, ConversationSendView, ConversationSnapshot, ConversationSnapshotView,
    ConversationStart, ConversationStartAdmission, ConversationStartAdmissionView,
    ConversationStartView, ConversationState, ConversationStopMode, ConversationTurn,
    ConversationTurnAdmission, ConversationTurnAdmissionView, ConversationTurnView,
    ConversationWait, OperationState, OperatorError, OperatorErrorView, ProjectRegistration,
    ProjectRegistrationView, SessionClaimDisposition, TerminalOutcome, TerminalOutcomeView,
    TurnState,
};
use crate::contract::identity::{ConversationId, OperationId, SessionId, TurnId};
use crate::contract::target::{
    TargetLiveObservation, TargetLiveObservationView, TargetLiveStart, TargetLiveStartView,
    TargetLiveStop, TargetLiveTurn, TargetLiveTurnView, TargetOperationId, TargetSessionId,
    TargetTurnId,
};
use crate::control::admission::{ensure_fingerprint, fingerprint, hexadecimal, sha256};
use crate::control::operation::{bounded_wait, map_intent, target_intent};
use crate::control::project::{resolve, resolved};
use crate::control::refusal::Refusal;
use crate::identifier::uuid_text;
use crate::state::conversation::{
    closing, conversation_read, initialization_recorded, observation, start_admission, termination,
    turn_admission,
};
use crate::state::decision::{answer, changed, decision, Decided};
use crate::state::tables::{Change, ChangeView, Tables, TablesView};
use crate::text::{optional, told, views};

verus! {

/// What a request for a conversation has to do.
#[derive(Debug, PartialEq, Eq)]
pub enum LivePlan {
    /// The same request was admitted before: this is its conversation.
    Answered(ConversationSnapshot),
    /// A new conversation has to be started with its first turn.
    Start { operation_id: OperationId, first_turn: ConversationTurn },
}

/// The mathematical content of [`LivePlan`].
#[verifier::ext_equal]
pub enum LivePlanView {
    Answered(ConversationSnapshotView),
    Start { operation_id: OperationId, first_turn: ConversationTurnView },
}

impl View for LivePlan {
    type V = LivePlanView;

    open spec fn view(&self) -> LivePlanView {
        match *self {
            LivePlan::Answered(value) => LivePlanView::Answered(value@),
            LivePlan::Start { operation_id, first_turn } => LivePlanView::Start {
                operation_id,
                first_turn: first_turn@,
            },
        }
    }
}

/// What a request for a further turn has to do.
#[derive(Debug, PartialEq, Eq)]
pub enum SendPlan {
    /// The same turn was admitted before: this is its conversation.
    Answered(ConversationSnapshot),
    /// The target has to be given the turn.
    Deliver(TargetLiveTurn),
}

/// The mathematical content of [`SendPlan`].
#[verifier::ext_equal]
pub enum SendPlanView {
    Answered(ConversationSnapshotView),
    Deliver(TargetLiveTurnView),
}

impl View for SendPlan {
    type V = SendPlanView;

    open spec fn view(&self) -> SendPlanView {
        match *self {
            SendPlan::Answered(value) => SendPlanView::Answered(value@),
            SendPlan::Deliver(value) => SendPlanView::Deliver(value@),
        }
    }
}

/// What a request to stop has to do.
#[derive(Debug, PartialEq, Eq)]
pub enum StopPlan {
    /// The conversation is being stopped, or has ended, already.
    Answered(ConversationSnapshot),
    /// The target has to be asked to stop.
    Request(TargetLiveStop),
}

/// The mathematical content of [`StopPlan`].
#[verifier::ext_equal]
pub enum StopPlanView {
    Answered(ConversationSnapshotView),
    Request(TargetLiveStop),
}

impl View for StopPlan {
    type V = StopPlanView;

    open spec fn view(&self) -> StopPlanView {
        match *self {
            StopPlan::Answered(value) => StopPlanView::Answered(value@),
            StopPlan::Request(value) => StopPlanView::Request(value),
        }
    }
}

/// A durable turn in the target's terms.
pub open spec fn turn_facts(turn: ConversationTurnView) -> TargetLiveTurnView {
    TargetLiveTurnView {
        turn_id: TargetTurnId(turn.turn_id.0),
        position: turn.position,
        prompt: turn.prompt,
    }
}

/// Tells a durable turn in the target's terms.
pub fn target_turn(turn: &ConversationTurn) -> (mapped: TargetLiveTurn)
    ensures
        mapped@ == turn_facts(turn@),
{
    TargetLiveTurn {
        turn_id: TargetTurnId(turn.turn_id.value()),
        position: turn.position,
        prompt: turn.prompt.clone(),
    }
}

/// The launch facts of an admitted conversation.
pub open spec fn live_launch_facts(
    operation_id: OperationId,
    session_id: SessionId,
    project: ProjectRegistrationView,
    request: ConversationStartView,
    first_turn: ConversationTurnView,
) -> TargetLiveStartView {
    TargetLiveStartView {
        operation_id: TargetOperationId(operation_id.0),
        working_directory: project.working_directory,
        executable: project.claude_executable,
        expected_model: project.expected_opus_model,
        intent: target_intent(request.intent),
        session_id: TargetSessionId(session_id.0),
        first_turn: turn_facts(first_turn),
    }
}

/// Makes the launch facts of an admitted conversation.
pub fn target_start(
    operation_id: OperationId,
    session_id: SessionId,
    project: ProjectRegistration,
    request: &ConversationStart,
    first_turn: &ConversationTurn,
) -> (start: TargetLiveStart)
    ensures
        start@ == live_launch_facts(operation_id, session_id, project@, request@, first_turn@),
{
    TargetLiveStart {
        operation_id: TargetOperationId(operation_id.value()),
        working_directory: project.working_directory,
        executable: project.claude_executable,
        expected_model: project.expected_opus_model,
        intent: map_intent(request.intent),
        session_id: TargetSessionId(session_id.value()),
        first_turn: target_turn(first_turn),
    }
}

/// What the admission of a conversation means to the caller.
pub open spec fn live_admitted(
    tables: TablesView,
    request: ConversationStartView,
    fingerprint: Seq<char>,
    admitted: ConversationStartAdmissionView,
) -> Result<LivePlanView, OperatorErrorView> {
    match admitted {
        ConversationStartAdmissionView::Existing {
            operation: _,
            conversation,
            first_turn: _,
            fingerprint: existing,
        } => if fingerprint != existing {
            Err(conflict("request UUID was reused with different conversation content"@))
        } else {
            match conversation_read(tables, conversation.conversation_id, 0) {
                Ok(snapshot) => Ok(LivePlanView::Answered(snapshot)),
                Err(error) => Err(error),
            }
        },
        ConversationStartAdmissionView::ExistingOperation {
            operation: _,
            fingerprint: existing,
        } => if fingerprint != existing {
            Err(conflict("request UUID was reused with different conversation content"@))
        } else {
            Err(conflict("request UUID is already occupied by a one-shot operation"@))
        },
        ConversationStartAdmissionView::MissingProject => Err(
            OperatorErrorView::UnknownProject(request.project_id),
        ),
        ConversationStartAdmissionView::ActiveSession { operation } => if operation.state
            is Indeterminate {
            Err(OperatorErrorView::UnclassifiedSession(uuid_text(operation.session_id.0)))
        } else {
            Err(conflict("target session already has a current writer"@))
        },
        ConversationStartAdmissionView::Inserted {
            operation,
            conversation: _,
            first_turn,
        } => Ok(LivePlanView::Start { operation_id: operation.operation_id, first_turn }),
    }
}

/// What a request for a conversation yields before anything runs: it must be complete, its project
/// must be registered with a directory, and it must be admitted as the one writer of its session.
/// Its encoding gives its fingerprint.
pub open spec fn live_requested(
    tables: TablesView,
    request: ConversationStartView,
    is_directory: bool,
    encoded: Result<Seq<u8>, Seq<char>>,
    session: SessionId,
    fresh: OperationId,
) -> Result<(LivePlanView, Seq<ChangeView>), OperatorErrorView> {
    if request.prompt.len() == 0 {
        Err(invalid_request("prompt must not be empty"@))
    } else {
        match resolved(tables, request.project_id, is_directory) {
            Err(error) => Err(error),
            Ok(_) => match encoded {
                Err(message) => Err(state_failure(message)),
                Ok(bytes) => {
                    let fingerprint = hexadecimal(sha256(bytes));
                    match start_admission(tables, request, session, fingerprint, fresh) {
                        Err(error) => Err(error),
                        Ok((admitted, changes)) => match live_admitted(
                            tables,
                            request,
                            fingerprint,
                            admitted,
                        ) {
                            Err(error) => Err(error),
                            Ok(plan) => Ok((plan, changes)),
                        },
                    }
                },
            },
        }
    }
}

/// Tells what the admission of a conversation means to the caller.
pub fn classify_start(
    tables: &Tables,
    request: &ConversationStart,
    fingerprint: &str,
    admitted: ConversationStartAdmission,
) -> (plan: Result<LivePlan, OperatorError>)
    requires
        tables.well_formed(),
    ensures
        answer(plan) == live_admitted(tables@, request@, fingerprint@, admitted@),
{
    match admitted {
        ConversationStartAdmission::Existing {
            operation: _,
            conversation,
            first_turn: _,
            fingerprint: existing,
        } => match ensure_fingerprint(fingerprint, existing.as_str()) {
            Err(error) => Err(error),
            Ok(()) => match tables.get_conversation_snapshot(conversation.conversation_id, 0) {
                Ok(snapshot) => Ok(LivePlan::Answered(snapshot)),
                Err(error) => Err(error),
            },
        },
        ConversationStartAdmission::ExistingOperation {
            operation: _,
            fingerprint: existing,
        } => match ensure_fingerprint(fingerprint, existing.as_str()) {
            Err(error) => Err(error),
            Ok(()) => Err(
                OperatorError::Conflict(
                    "request UUID is already occupied by a one-shot operation".to_owned(),
                ),
            ),
        },
        ConversationStartAdmission::MissingProject => Err(
            OperatorError::UnknownProject(request.project_id.as_str().to_owned()),
        ),
        ConversationStartAdmission::ActiveSession { operation } => {
            if operation.state == OperationState::Indeterminate {
                Err(OperatorError::UnclassifiedSession(operation.session_id.to_text()))
            } else {
                Err(
                    OperatorError::Conflict(
                        "target session already has a current writer".to_owned(),
                    ),
                )
            }
        },
        ConversationStartAdmission::Inserted { operation, conversation: _, first_turn } => Ok(
            LivePlan::Start { operation_id: operation.operation_id, first_turn },
        ),
    }
}

/// Admits a conversation, where its encoding and both fresh identities are given, and the flag
/// tells whether its project's working directory is a directory.
pub fn request_conversation(
    tables: &Tables,
    request: &ConversationStart,
    is_directory: bool,
    encoded: Result<Vec<u8>, String>,
    session: SessionId,
    fresh: OperationId,
) -> (admitted: Result<Decided<LivePlan>, OperatorError>)
    requires
        tables.well_formed(),
    ensures
        decision(admitted) == live_requested(
            tables@,
            request@,
            is_directory,
            told(encoded),
            session,
            fresh,
        ),
{
    match request.validate() {
        Ok(()) => {},
        Err(error) => {
            return Err(error);
        },
    }
    match resolve(tables, &request.project_id, is_directory) {
        Ok(_) => {},
        Err(error) => {
            return Err(error);
        },
    }
    let bytes = match encoded {
        Ok(bytes) => bytes,
        Err(message) => {
            return Err(OperatorError::State(message));
        },
    };
    let fingerprint = fingerprint(bytes.as_slice());
    let decided = match tables.admit_conversation(request, session, fingerprint.as_str(), fresh) {
        Ok(decided) => decided,
        Err(error) => {
            return Err(error);
        },
    };
    match classify_start(tables, request, fingerprint.as_str(), decided.value) {
        Ok(plan) => changed(plan, decided.changes),
        Err(error) => Err(error),
    }
}

/// What a request for a further turn yields before anything is delivered.
pub open spec fn send_requested(
    tables: TablesView,
    request: ConversationSendView,
    encoded: Result<Seq<u8>, Seq<char>>,
) -> Result<(SendPlanView, Seq<ChangeView>), OperatorErrorView> {
    if request.prompt.len() == 0 {
        Err(invalid_request("prompt must not be empty"@))
    } else {
        match encoded {
            Err(message) => Err(state_failure(message)),
            Ok(bytes) => {
                let fingerprint = hexadecimal(sha256(bytes));
                match turn_admission(tables, request, fingerprint) {
                    Err(error) => Err(error),
                    Ok((admitted, changes)) => match admitted {
                        ConversationTurnAdmissionView::Existing {
                            turn: _,
                            fingerprint: existing,
                        } => if fingerprint != existing {
                            Err(
                                conflict(
                                    "request UUID was reused with different conversation content"@,
                                ),
                            )
                        } else {
                            match conversation_read(tables, request.conversation_id, 0) {
                                Ok(snapshot) => Ok((SendPlanView::Answered(snapshot), changes)),
                                Err(error) => Err(error),
                            }
                        },
                        ConversationTurnAdmissionView::MissingConversation => Err(
                            OperatorErrorView::UnknownOperation(
                                uuid_text(request.conversation_id.0.0),
                            ),
                        ),
                        ConversationTurnAdmissionView::Closed { conversation: _ } => Err(
                            conflict("conversation no longer admits turns"@),
                        ),
                        ConversationTurnAdmissionView::Inserted(turn) => Ok(
                            (SendPlanView::Deliver(turn_facts(turn)), changes),
                        ),
                    },
                }
            },
        }
    }
}

/// Admits a further turn, whose encoding is given.
pub fn request_turn(
    tables: &Tables,
    request: &ConversationSend,
    encoded: Result<Vec<u8>, String>,
) -> (admitted: Result<Decided<SendPlan>, OperatorError>)
    requires
        tables.well_formed(),
    ensures
        decision(admitted) == send_requested(tables@, request@, told(encoded)),
{
    match request.validate() {
        Ok(()) => {},
        Err(error) => {
            return Err(error);
        },
    }
    let bytes = match encoded {
        Ok(bytes) => bytes,
        Err(message) => {
            return Err(OperatorError::State(message));
        },
    };
    let fingerprint = fingerprint(bytes.as_slice());
    let decided = match tables.persist_conversation_turn(request, fingerprint.as_str()) {
        Ok(decided) => decided,
        Err(error) => {
            return Err(error);
        },
    };
    match decided.value {
        ConversationTurnAdmission::Existing { turn: _, fingerprint: existing } => {
            match ensure_fingerprint(fingerprint.as_str(), existing.as_str()) {
                Err(error) => Err(error),
                Ok(()) => match tables.get_conversation_snapshot(request.conversation_id, 0) {
                    Ok(snapshot) => changed(SendPlan::Answered(snapshot), decided.changes),
                    Err(error) => Err(error),
                },
            }
        },
        ConversationTurnAdmission::MissingConversation => Err(
            OperatorError::UnknownOperation(request.conversation_id.operation_id().to_text()),
        ),
        ConversationTurnAdmission::Closed { conversation: _ } => Err(
            OperatorError::Conflict("conversation no longer admits turns".to_owned()),
        ),
        ConversationTurnAdmission::Inserted(turn) => changed(
            SendPlan::Deliver(target_turn(&turn)),
            decided.changes,
        ),
    }
}

/// What a request to stop yields before the target is asked: a graceful stop goes through the
/// turns admitted so far.
pub open spec fn stop_requested(
    tables: TablesView,
    id: ConversationId,
    mode: ConversationStopMode,
) -> Result<(StopPlanView, Seq<ChangeView>), OperatorErrorView> {
    match closing(tables, id, mode) {
        Err(error) => Err(error),
        Ok((closed, changes)) => match closed {
            ConversationCloseAdmissionView::ClosedNow { conversation: _, through_position } => Ok(
                (
                    StopPlanView::Request(
                        match mode {
                            ConversationStopMode::Graceful => TargetLiveStop::Graceful {
                                through_position,
                            },
                            ConversationStopMode::Cancel => TargetLiveStop::Cancel,
                        },
                    ),
                    changes,
                ),
            ),
            ConversationCloseAdmissionView::EscalatedToCancel(_) => Ok(
                (StopPlanView::Request(TargetLiveStop::Cancel), changes),
            ),
            ConversationCloseAdmissionView::AlreadyClosing(_)
            | ConversationCloseAdmissionView::Terminal(_) => match conversation_read(
                tables,
                id,
                0,
            ) {
                Ok(snapshot) => Ok((StopPlanView::Answered(snapshot), changes)),
                Err(error) => Err(error),
            },
        },
    }
}

/// Closes a conversation, and plans how its target is stopped.
pub fn request_stop(tables: &Tables, id: ConversationId, mode: ConversationStopMode) -> (
planned: Result<Decided<StopPlan>, OperatorError>)
    requires
        tables.well_formed(),
    ensures
        decision(planned) == stop_requested(tables@, id, mode),
{
    let decided = match tables.close_conversation(id, mode) {
        Ok(decided) => decided,
        Err(error) => {
            return Err(error);
        },
    };
    match decided.value {
        ConversationCloseAdmission::ClosedNow { conversation: _, through_position } => {
            let stop = match mode {
                ConversationStopMode::Graceful => TargetLiveStop::Graceful { through_position },
                ConversationStopMode::Cancel => TargetLiveStop::Cancel,
            };
            changed(StopPlan::Request(stop), decided.changes)
        },
        ConversationCloseAdmission::EscalatedToCancel(_) => changed(
            StopPlan::Request(TargetLiveStop::Cancel),
            decided.changes,
        ),
        ConversationCloseAdmission::AlreadyClosing(_) | ConversationCloseAdmission::Terminal(_) => {
            match tables.get_conversation_snapshot(id, 0) {
                Ok(snapshot) => changed(StopPlan::Answered(snapshot), decided.changes),
                Err(error) => Err(error),
            }
        },
    }
}

/// Begins a wait for events, before any state is read: first the cursor must be in the durable range,
/// then the end of the wait must be representable.
pub fn begin_wait(request: &ConversationWait, representable: bool) -> (answer: Result<
    (),
    OperatorError,
>)
    ensures
        match answer {
            Ok(()) => durable_range(request.after_sequence) && representable,
            Err(error) => if !durable_range(request.after_sequence) {
                error@ == invalid_request(
                    "conversation cursor exceeds the supported durable range"@,
                )
            } else {
                !representable && error@ == invalid_request("wait duration cannot be represented"@)
            },
        },
{
    match request.validate() {
        Ok(()) => bounded_wait(representable),
        Err(error) => Err(error),
    }
}

/// Reads a conversation for a waiting caller: nothing is read once a refusal was recorded.
pub fn poll(refusal: &Refusal, tables: &Tables, request: &ConversationWait) -> (found: Result<
    ConversationSnapshot,
    OperatorError,
>)
    requires
        tables.well_formed(),
    ensures
        answer(found) == (match refusal@ {
            Some(error) => Err(error),
            None => conversation_read(tables@, request.conversation_id, request.after_sequence),
        }),
{
    match refusal.check() {
        Ok(()) => tables.get_conversation_snapshot(request.conversation_id, request.after_sequence),
        Err(error) => Err(error),
    }
}

/// Whether a wait ends with a conversation as it was read.
pub fn wait_ends(snapshot: &ConversationSnapshot, deadline_passed: bool) -> (ends: bool)
    ensures
        ends == (snapshot@.events.len() > 0 || snapshot@.conversation.state.is_terminal()
            || deadline_passed),
{
    snapshot.events.len() > 0 || snapshot.conversation.state.terminal() || deadline_passed
}

/// The state of the operation that carries a conversation which ended in a state.
pub open spec fn carrying_state(state: ConversationState) -> Option<OperationState> {
    match state {
        ConversationState::Succeeded => Some(OperationState::Succeeded),
        ConversationState::Cancelled => Some(OperationState::Cancelled),
        ConversationState::Failed => Some(OperationState::Failed),
        ConversationState::Indeterminate => Some(OperationState::Indeterminate),
        ConversationState::Open | ConversationState::Closing => None,
    }
}

/// The writes of a decision, without its value.
pub open spec fn writes<T>(
    decided: Result<(T, Seq<ChangeView>), OperatorErrorView>,
) -> Result<Seq<ChangeView>, OperatorErrorView> {
    match decided {
        Ok((_, changes)) => Ok(changes),
        Err(error) => Err(error),
    }
}

/// What ending a conversation together with its operation yields.
pub open spec fn ended(
    tables: TablesView,
    id: ConversationId,
    state: ConversationState,
    outcome: TerminalOutcomeView,
    disposition: SessionClaimDisposition,
) -> Result<Seq<ChangeView>, OperatorErrorView> {
    match carrying_state(state) {
        None => Err(state_failure("live terminal state was not terminal"@)),
        Some(operation_state) => writes(
            termination(tables, id, state, operation_state, outcome, disposition),
        ),
    }
}

/// Ends a conversation together with its operation.
pub fn terminalize(
    tables: &Tables,
    id: ConversationId,
    state: ConversationState,
    outcome: TerminalOutcome,
    disposition: SessionClaimDisposition,
) -> (changes: Result<Vec<Change>, OperatorError>)
    requires
        tables.well_formed(),
    ensures
        match changes {
            Ok(changes) => ended(tables@, id, state, outcome@, disposition) == Ok::<
                _,
                OperatorErrorView,
            >(views(changes@)),
            Err(error) => ended(tables@, id, state, outcome@, disposition) == Err::<
                Seq<ChangeView>,
                _,
            >(error@),
        },
{
    let operation_state = match state {
        ConversationState::Succeeded => OperationState::Succeeded,
        ConversationState::Cancelled => OperationState::Cancelled,
        ConversationState::Failed => OperationState::Failed,
        ConversationState::Indeterminate => OperationState::Indeterminate,
        ConversationState::Open | ConversationState::Closing => {
            return Err(OperatorError::State("live terminal state was not terminal".to_owned()));
        },
    };
    match tables.terminalize_conversation(id, state, operation_state, outcome, disposition) {
        Ok(decided) => Ok(decided.changes),
        Err(error) => Err(error),
    }
}

/// The result of the last turn that has one.
pub open spec fn last_result(turns: Seq<ConversationTurnView>) -> Option<Seq<char>>
    decreases turns.len(),
{
    if turns.len() == 0 {
        None
    } else if turns.last().result is Some {
        turns.last().result
    } else {
        last_result(turns.drop_last())
    }
}

/// Finds the result of the last turn that has one.
fn find_last_result(turns: &Vec<ConversationTurn>) -> (result: Option<String>)
    ensures
        optional(result) == last_result(views(turns@)),
{
    let ghost all = views(turns@);
    let mut rest: usize = turns.len();
    proof {
        assert(all.take(rest as int) =~= all);
    }
    while rest > 0
        invariant
            rest <= turns@.len(),
            all == views(turns@),
            last_result(all) == last_result(all.take(rest as int)),
        decreases rest,
    {
        rest = rest - 1;
        proof {
            assert(all.take(rest + 1).drop_last() =~= all.take(rest as int));
            assert(all.take(rest + 1).last() == turns@[rest as int]@);
        }
        match &turns[rest].result {
            Some(result) => {
                return Some(result.clone());
            },
            None => {},
        }
    }
    None
}

/// What an observation of a live target writes: a queued turn nothing, since it was queued when it
/// was admitted; a turn event what the turn became; an end the end of the conversation, which keeps
/// the claim on the session only where the writer may still run.
pub open spec fn observation_applied(
    tables: TablesView,
    id: ConversationId,
    observed: TargetLiveObservationView,
) -> Result<Seq<ChangeView>, OperatorErrorView> {
    match observed {
        TargetLiveObservationView::Initialized { session_id, model, version } => writes(
            initialization_recorded(tables, id, SessionId(session_id.0), model, version),
        ),
        TargetLiveObservationView::TurnQueued { turn_id: _ } => Ok(Seq::empty()),
        TargetLiveObservationView::TurnStarted { turn_id } => writes(
            observation(
                tables,
                id,
                TurnId(turn_id.0),
                Some(TurnState::Started),
                None,
                ConversationEventPayloadView::TurnStarted { turn_id: TurnId(turn_id.0) },
            ),
        ),
        TargetLiveObservationView::TurnAcknowledged { turn_id } => writes(
            observation(
                tables,
                id,
                TurnId(turn_id.0),
                None,
                None,
                ConversationEventPayloadView::TurnAcknowledged { turn_id: TurnId(turn_id.0) },
            ),
        ),
        TargetLiveObservationView::AssistantTextDelta { turn_id, text } => writes(
            observation(
                tables,
                id,
                TurnId(turn_id.0),
                None,
                None,
                ConversationEventPayloadView::AssistantTextDelta {
                    turn_id: TurnId(turn_id.0),
                    text,
                },
            ),
        ),
        TargetLiveObservationView::TurnCompleted { turn_id, result } => writes(
            observation(
                tables,
                id,
                TurnId(turn_id.0),
                Some(TurnState::Completed),
                Some(result),
                ConversationEventPayloadView::TurnCompleted { turn_id: TurnId(turn_id.0), result },
            ),
        ),
        TargetLiveObservationView::TurnFailed { turn_id, message } => writes(
            observation(
                tables,
                id,
                TurnId(turn_id.0),
                Some(TurnState::Failed),
                None,
                ConversationEventPayloadView::TurnFailed { turn_id: TurnId(turn_id.0), message },
            ),
        ),
        TargetLiveObservationView::Failed(message) => ended(
            tables,
            id,
            ConversationState::Failed,
            TerminalOutcomeView::Failed(message),
            SessionClaimDisposition::ReleaseProvenWriter,
        ),
        TargetLiveObservationView::Indeterminate(message) => ended(
            tables,
            id,
            ConversationState::Indeterminate,
            TerminalOutcomeView::Indeterminate(message),
            SessionClaimDisposition::ReleaseProvenWriter,
        ),
        TargetLiveObservationView::UnclassifiedWriter(message) => ended(
            tables,
            id,
            ConversationState::Indeterminate,
            TerminalOutcomeView::Indeterminate(message),
            SessionClaimDisposition::RetainUnclassifiedWriter,
        ),
        TargetLiveObservationView::Cancelled => ended(
            tables,
            id,
            ConversationState::Cancelled,
            TerminalOutcomeView::Cancelled("direct live child termination was observed"@),
            SessionClaimDisposition::ReleaseProvenWriter,
        ),
        TargetLiveObservationView::Exited => match conversation_read(tables, id, 0) {
            Err(error) => Err(error),
            Ok(snapshot) => match last_result(snapshot.turns) {
                None => Err(state_failure("successful live exit had no turn result"@)),
                Some(result) => ended(
                    tables,
                    id,
                    ConversationState::Succeeded,
                    TerminalOutcomeView::Succeeded(result),
                    SessionClaimDisposition::ReleaseProvenWriter,
                ),
            },
        },
    }
}

/// Records what became of a turn.
fn record_turn(
    tables: &Tables,
    id: ConversationId,
    turn_id: TurnId,
    state: Option<TurnState>,
    result: Option<String>,
    payload: ConversationEventPayload,
) -> (changes: Result<Vec<Change>, OperatorError>)
    requires
        tables.well_formed(),
    ensures
        match changes {
            Ok(changes) => writes(
                observation(tables@, id, turn_id, state, optional(result), payload@),
            ) == Ok::<_, OperatorErrorView>(views(changes@)),
            Err(error) => writes(
                observation(tables@, id, turn_id, state, optional(result), payload@),
            ) == Err::<Seq<ChangeView>, _>(error@),
        },
{
    match tables.record_conversation_turn_observation(id, turn_id, state, result, payload) {
        Ok(decided) => Ok(decided.changes),
        Err(error) => Err(error),
    }
}

/// Records what an observation of a live target means.
pub fn apply_observation(
    tables: &Tables,
    id: ConversationId,
    observed: TargetLiveObservation,
) -> (changes: Result<Vec<Change>, OperatorError>)
    requires
        tables.well_formed(),
    ensures
        match changes {
            Ok(changes) => observation_applied(tables@, id, observed@) == Ok::<
                _,
                OperatorErrorView,
            >(views(changes@)),
            Err(error) => observation_applied(tables@, id, observed@) == Err::<
                Seq<ChangeView>,
                _,
            >(error@),
        },
{
    match observed {
        TargetLiveObservation::Initialized { session_id, model, version } => {
            match tables.record_conversation_initialization(
                id,
                SessionId::new_exact(session_id.0),
                model,
                version,
            ) {
                Ok(decided) => Ok(decided.changes),
                Err(error) => Err(error),
            }
        },
        TargetLiveObservation::TurnQueued { turn_id: _ } => {
            let none: Vec<Change> = Vec::new();
            proof {
                assert(views(none@) =~= Seq::<ChangeView>::empty());
            }
            Ok(none)
        },
        TargetLiveObservation::TurnStarted { turn_id } => {
            let turn = TurnId::new(turn_id.0);
            record_turn(
                tables,
                id,
                turn,
                Some(TurnState::Started),
                None,
                ConversationEventPayload::TurnStarted { turn_id: turn },
            )
        },
        TargetLiveObservation::TurnAcknowledged { turn_id } => {
            let turn = TurnId::new(turn_id.0);
            record_turn(
                tables,
                id,
                turn,
                None,
                None,
                ConversationEventPayload::TurnAcknowledged { turn_id: turn },
            )
        },
        TargetLiveObservation::AssistantTextDelta { turn_id, text } => {
            let turn = TurnId::new(turn_id.0);
            record_turn(
                tables,
                id,
                turn,
                None,
                None,
                ConversationEventPayload::AssistantTextDelta { turn_id: turn, text },
            )
        },
        TargetLiveObservation::TurnCompleted { turn_id, result } => {
            let turn = TurnId::new(turn_id.0);
            let recorded = result.clone();
            record_turn(
                tables,
                id,
                turn,
                Some(TurnState::Completed),
                Some(recorded),
                ConversationEventPayload::TurnCompleted { turn_id: turn, result },
            )
        },
        TargetLiveObservation::TurnFailed { turn_id, message } => {
            let turn = TurnId::new(turn_id.0);
            record_turn(
                tables,
                id,
                turn,
                Some(TurnState::Failed),
                None,
                ConversationEventPayload::TurnFailed { turn_id: turn, message },
            )
        },
        TargetLiveObservation::Failed(message) => terminalize(
            tables,
            id,
            ConversationState::Failed,
            TerminalOutcome::Failed(message),
            SessionClaimDisposition::ReleaseProvenWriter,
        ),
        TargetLiveObservation::Indeterminate(message) => terminalize(
            tables,
            id,
            ConversationState::Indeterminate,
            TerminalOutcome::Indeterminate(message),
            SessionClaimDisposition::ReleaseProvenWriter,
        ),
        TargetLiveObservation::UnclassifiedWriter(message) => terminalize(
            tables,
            id,
            ConversationState::Indeterminate,
            TerminalOutcome::Indeterminate(message),
            SessionClaimDisposition::RetainUnclassifiedWriter,
        ),
        TargetLiveObservation::Cancelled => terminalize(
            tables,
            id,
            ConversationState::Cancelled,
            TerminalOutcome::Cancelled("direct live child termination was observed".to_owned()),
            SessionClaimDisposition::ReleaseProvenWriter,
        ),
        TargetLiveObservation::Exited => {
            let snapshot = match tables.get_conversation_snapshot(id, 0) {
                Ok(snapshot) => snapshot,
                Err(error) => {
                    return Err(error);
                },
            };
            match find_last_result(&snapshot.turns) {
                None => Err(
                    OperatorError::State("successful live exit had no turn result".to_owned()),
                ),
                Some(result) => terminalize(
                    tables,
                    id,
                    ConversationState::Succeeded,
                    TerminalOutcome::Succeeded(result),
                    SessionClaimDisposition::ReleaseProvenWriter,
                ),
            }
        },
    }
}

} // verus!
